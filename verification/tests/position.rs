use osd_overlay::errors::Error;
use osd_overlay::position::{parse_position, resolve_position};

#[test]
fn percent_centers_on_screen() {
    // 50% of 1000 = 500, centered for a 100-wide window -> 450.
    assert_eq!(parse_position("%50", 100, 1000), Ok(450));
}

#[test]
fn percent_zero_clamps_to_origin() {
    // 0% -> 0, centered -> -50, clamped up to 0.
    assert_eq!(parse_position("%0", 100, 1000), Ok(0));
}

#[test]
fn percent_hundred_clamps_to_far_edge() {
    // 100% -> 1000, centered -> 950, clamped down to 1000 - 100 = 900.
    assert_eq!(parse_position("%100", 100, 1000), Ok(900));
}

#[test]
fn percent_rounds_to_nearest() {
    // 50% of 333 is 166.5, which rounds to 167.
    assert_eq!(parse_position("%50", 0, 333), Ok(167));
}

#[test]
fn absolute_centers_on_value() {
    assert_eq!(parse_position("300", 100, 1000), Ok(250));
}

#[test]
fn absolute_zero_clamps_to_origin() {
    assert_eq!(parse_position("0", 100, 1000), Ok(0));
}

#[test]
fn absolute_clamps_to_far_edge() {
    assert_eq!(parse_position("1000", 100, 1000), Ok(900));
}

#[test]
fn window_wider_than_screen_sits_at_origin() {
    // The clamp interval collapses to [0, 0] when the window is wider.
    assert_eq!(parse_position("50", 200, 100), Ok(0));
    assert_eq!(parse_position("%100", 200, 100), Ok(0));
}

#[test]
fn empty_axis_rejected() {
    assert_eq!(parse_position("", 100, 1000), Err(Error::ParseInt));
}

#[test]
fn percent_without_digits_rejected() {
    assert_eq!(parse_position("%", 100, 1000), Err(Error::ParseInt));
}

#[test]
fn non_numeric_axis_rejected() {
    assert_eq!(parse_position("abc", 100, 1000), Err(Error::ParseInt));
    assert_eq!(parse_position("12x", 100, 1000), Err(Error::ParseInt));
    assert_eq!(parse_position("%5o", 100, 1000), Err(Error::ParseInt));
}

#[test]
fn leading_plus_accepted() {
    assert_eq!(parse_position("+300", 100, 1000), Ok(250));
    assert_eq!(parse_position("%+50", 100, 1000), Ok(450));
    assert_eq!(
        resolve_position("+10,%+100", 122, 42, 1920, 1080),
        Ok((0, 1038))
    );
}

#[test]
fn lone_or_repeated_plus_rejected() {
    assert_eq!(parse_position("+", 100, 1000), Err(Error::ParseInt));
    assert_eq!(parse_position("++5", 100, 1000), Err(Error::ParseInt));
    assert_eq!(parse_position("%+", 100, 1000), Err(Error::ParseInt));
    assert_eq!(parse_position("%++50", 100, 1000), Err(Error::ParseInt));
    assert_eq!(parse_position("+%50", 100, 1000), Err(Error::ParseInt));
}

#[test]
fn negative_axis_rejected() {
    assert_eq!(parse_position("-5", 100, 1000), Err(Error::ParseInt));
}

#[test]
fn absolute_beyond_u16_rejected() {
    assert_eq!(parse_position("70000", 100, 1000), Err(Error::ParseInt));
}

#[test]
fn percent_beyond_u64_rejected() {
    // One more than the largest 64-bit value.
    assert_eq!(
        parse_position("%18446744073709551616", 100, 1000),
        Err(Error::ParseInt)
    );
}

#[test]
fn huge_percent_clamps_to_far_edge() {
    assert_eq!(parse_position("%200", 100, 1000), Ok(900));
}

#[test]
fn resolve_both_axes_centered() {
    // x: 50% of 1920 = 960, centered for 122 -> 899; y: 540 - 21 = 519.
    assert_eq!(
        resolve_position("%50,%50", 122, 42, 1920, 1080),
        Ok((899, 519))
    );
}

#[test]
fn resolve_mixed_axis_kinds() {
    // x: 10 - 61 = -51 -> 0; y: 1080 - 21 = 1059 -> clamped to 1038.
    assert_eq!(
        resolve_position("10,%100", 122, 42, 1920, 1080),
        Ok((0, 1038))
    );
}

#[test]
fn resolve_without_comma_rejected() {
    assert_eq!(
        resolve_position("100", 122, 42, 1920, 1080),
        Err(Error::InvalidPosition)
    );
    assert_eq!(
        resolve_position("", 122, 42, 1920, 1080),
        Err(Error::InvalidPosition)
    );
}

#[test]
fn resolve_bad_first_axis_rejected() {
    assert_eq!(
        resolve_position("abc,10", 122, 42, 1920, 1080),
        Err(Error::ParseInt)
    );
}

#[test]
fn resolve_bad_second_axis_rejected() {
    assert_eq!(
        resolve_position("10,abc", 122, 42, 1920, 1080),
        Err(Error::ParseInt)
    );
}

#[test]
fn error_messages_are_descriptive() {
    assert_eq!(Error::ParseInt.message(), "invalid number in position spec");
    assert_eq!(Error::NoScreenFound.message(), "no screen found");
    assert_eq!(Error::InvalidPosition.message(), "invalid position specified");
}

use vstd::prelude::*;
use vstd::string::StringSliceAdditionalSpecFns;
use crate::errors::Error;

verus! {

/// `%` introduces a percentage axis spec.
pub const PERCENT_BYTE: u8 = 37;

/// `,` separates the two axes of a position spec.
pub const COMMA_BYTE: u8 = 44;

/// `+` may stand once in front of a number, saying nothing.
pub const PLUS_BYTE: u8 = 43;

/// A decimal digit byte.
pub open spec fn is_digit(b: u8) -> bool {
    48 <= b && b <= 57
}

/// Every byte of the sequence is a decimal digit.
pub open spec fn all_digits(s: Seq<u8>) -> bool {
    forall|i: int| 0 <= i < s.len() ==> is_digit(#[trigger] s[i])
}

/// Numeric value of a decimal digit string, most significant digit first.
pub open spec fn dec_value(s: Seq<u8>) -> int
    recommends
        all_digits(s),
    decreases s.len(),
{
    if s.len() == 0 {
        0
    } else {
        dec_value(s.drop_last()) * 10 + (s.last() - 48)
    }
}

/// The digit string of a number spec: one optional leading `+` does not
/// belong to the value.
pub open spec fn digits_of(s: Seq<u8>) -> Seq<u8> {
    if s.len() > 0 && s[0] == PLUS_BYTE {
        s.subrange(1, s.len() as int)
    } else {
        s
    }
}

/// A parseable number: an optional leading `+`, then at least one digit and
/// nothing else, with a value at most `max`.
pub open spec fn valid_number(s: Seq<u8>, max: int) -> bool {
    digits_of(s).len() > 0 && all_digits(digits_of(s)) && dec_value(digits_of(s)) <= max
}

/// The integer nearest to `screen * n / 100`, halves rounding up.
pub open spec fn percent_of(screen: int, n: int) -> int {
    (screen * n + 50) / 100
}

/// `v` forced into `[lo, hi]` (for `lo <= hi`).
pub open spec fn clamped(v: int, lo: int, hi: int) -> int {
    if v < lo {
        lo
    } else if v > hi {
        hi
    } else {
        v
    }
}

/// The largest window origin that keeps a window `measure` wide inside a
/// screen `screen` wide; zero when the window is the wider of the two.
pub open spec fn axis_upper_bound(measure: int, screen: int) -> int {
    if screen - measure > 0 {
        screen - measure
    } else {
        0
    }
}

/// Center a window of size `measure` on the resolved point `pos`, then clamp
/// the origin into the monitor.
pub open spec fn place_axis(pos: int, measure: int, screen: int) -> int {
    clamped(pos - measure / 2, 0, axis_upper_bound(measure, screen))
}

/// What one axis spec resolves to, or `None` on a parse failure.  A spec
/// starting with `%` is a percentage of the screen dimension (any value a
/// 64-bit count holds); anything else is a literal pixel count, which must
/// fit in 16 bits.  Either number may carry one leading `+`.  Either way the
/// resolved point is centered and clamped.
pub open spec fn spec_axis(s: Seq<u8>, measure: int, screen: int) -> Option<int> {
    if s.len() > 0 && s[0] == PERCENT_BYTE {
        let d = s.subrange(1, s.len() as int);
        if valid_number(d, u64::MAX as int) {
            Some(place_axis(percent_of(screen, dec_value(digits_of(d))), measure, screen))
        } else {
            None
        }
    } else {
        if valid_number(s, u16::MAX as int) {
            Some(place_axis(dec_value(digits_of(s)), measure, screen))
        } else {
            None
        }
    }
}

/// `ci` is the index of the first `,` of `s`.
pub open spec fn comma_split_ok(s: Seq<u8>, ci: int) -> bool {
    &&& 0 <= ci < s.len()
    &&& s[ci] == COMMA_BYTE
    &&& forall|j: int| 0 <= j < ci ==> s[j] != COMMA_BYTE
}

proof fn lemma_all_digits_drop_last(s: Seq<u8>)
    requires
        all_digits(s),
        s.len() > 0,
    ensures
        all_digits(s.drop_last()),
{
    assert forall|i: int| 0 <= i < s.drop_last().len() implies is_digit(
        #[trigger] s.drop_last()[i],
    ) by {
        assert(s.drop_last()[i] == s[i]);
    }
}

proof fn lemma_dec_value_nonneg(s: Seq<u8>)
    requires
        all_digits(s),
    ensures
        dec_value(s) >= 0,
    decreases s.len(),
{
    if s.len() > 0 {
        lemma_all_digits_drop_last(s);
        lemma_dec_value_nonneg(s.drop_last());
    }
}

/// The value of a digit string never falls below the value of any prefix.
proof fn lemma_dec_value_prefix_le(s: Seq<u8>, i: int)
    requires
        all_digits(s),
        0 <= i <= s.len(),
    ensures
        dec_value(s.subrange(0, i)) <= dec_value(s),
    decreases s.len() - i,
{
    if i < s.len() {
        let longer = s.subrange(0, i + 1);
        assert(longer.drop_last() =~= s.subrange(0, i));
        assert(all_digits(longer)) by {
            assert forall|j: int| 0 <= j < longer.len() implies is_digit(
                #[trigger] longer[j],
            ) by {
                assert(longer[j] == s[j]);
            }
        }
        lemma_all_digits_drop_last(longer);
        lemma_dec_value_nonneg(longer.drop_last());
        assert(dec_value(s.subrange(0, i)) <= dec_value(longer));
        lemma_dec_value_prefix_le(s, i + 1);
    } else {
        assert(s.subrange(0, i) =~= s);
    }
}

/// Parse the decimal number in `s[start..end]`, refusing an empty range, a
/// non-digit, or a value above `max`.
fn parse_decimal(s: &[u8], start: usize, end: usize, max: u64) -> (r: Option<u64>)
    requires
        start <= end <= s@.len(),
    ensures
        ({
            let d = s@.subrange(start as int, end as int);
            match r {
                Some(v) => d.len() > 0 && all_digits(d) && dec_value(d) <= max
                    && v as int == dec_value(d),
                None => !(d.len() > 0 && all_digits(d) && dec_value(d) <= max),
            }
        }),
{
    let ghost d = s@.subrange(start as int, end as int);
    if start == end {
        assert(d.len() == 0);
        return None;
    }
    let mut acc: u64 = 0;
    let mut i: usize = start;
    while i < end
        invariant
            start <= i <= end <= s@.len(),
            d == s@.subrange(start as int, end as int),
            start < end,
            all_digits(s@.subrange(start as int, i as int)),
            acc as int == dec_value(s@.subrange(start as int, i as int)),
            acc <= max,
        decreases end - i,
    {
        let ghost prefix = s@.subrange(start as int, i as int);
        let ghost extended = s@.subrange(start as int, i + 1);
        let b = s[i];
        if b < 48 || b > 57 {
            proof {
                assert(d[i - start] == s@[i as int]);
                assert(!all_digits(d));
            }
            return None;
        }
        let digit: u64 = (b - 48) as u64;
        proof {
            assert(extended.drop_last() =~= prefix);
            assert(extended.last() == s@[i as int]);
            assert(all_digits(extended)) by {
                assert forall|j: int| 0 <= j < extended.len() implies is_digit(
                    #[trigger] extended[j],
                ) by {
                    if j < i - start {
                        assert(extended[j] == prefix[j]);
                    }
                }
            }
            assert(dec_value(extended) == acc * 10 + digit);
        }
        let too_big: bool = if acc > max / 10 {
            true
        } else {
            let shifted: u64 = acc * 10;
            if digit > max - shifted {
                true
            } else {
                acc = shifted + digit;
                false
            }
        };
        if too_big {
            proof {
                assert(dec_value(extended) > max);
                let k = i + 1 - start;
                assert(d.subrange(0, k) =~= extended);
                if all_digits(d) {
                    lemma_dec_value_prefix_le(d, k);
                }
            }
            return None;
        }
        proof {
            assert(s@.subrange(start as int, (i + 1) as int) =~= extended);
        }
        i = i + 1;
    }
    assert(s@.subrange(start as int, i as int) =~= d);
    Some(acc)
}

/// Center the resolved point `pos` and clamp the origin into the monitor.
fn place(pos: u128, measure: u16, screen: u16) -> (r: i16)
    requires
        screen <= 0x7fff,
        pos < 0x8000_0000_0000_0000_0000,
    ensures
        r as int == place_axis(pos as int, measure as int, screen as int),
        0 <= r as int <= axis_upper_bound(measure as int, screen as int),
{
    let centered: i128 = pos as i128 - (measure / 2) as i128;
    let hi: i128 = if screen > measure {
        (screen - measure) as i128
    } else {
        0
    };
    let placed: i128 = if centered < 0 {
        0
    } else if centered > hi {
        hi
    } else {
        centered
    };
    placed as i16
}

/// Resolve the axis spec held in `s[start..end]`.
fn axis_from_bytes(s: &[u8], start: usize, end: usize, measure: u16, screen_measure: u16) -> (r:
    Result<i16, Error>)
    requires
        start <= end <= s@.len(),
        screen_measure <= 0x7fff,
    ensures
        ({
            let d = s@.subrange(start as int, end as int);
            match r {
                Ok(p) => {
                    &&& spec_axis(d, measure as int, screen_measure as int) == Some(p as int)
                    &&& 0 <= p as int <= axis_upper_bound(measure as int, screen_measure as int)
                },
                Err(e) => {
                    &&& e == Error::ParseInt
                    &&& spec_axis(d, measure as int, screen_measure as int) is None
                },
            }
        }),
{
    let ghost d = s@.subrange(start as int, end as int);
    if end > start && s[start] == PERCENT_BYTE {
        let ghost tail = d.subrange(1, d.len() as int);
        proof {
            assert(d[0] == s@[start as int]);
            assert(tail =~= s@.subrange(start + 1, end as int));
        }
        let num_start: usize = if start + 1 < end && s[start + 1] == PLUS_BYTE {
            start + 2
        } else {
            start + 1
        };
        proof {
            if tail.len() > 0 {
                assert(tail[0] == s@[start + 1]);
            }
            assert(digits_of(tail) =~= s@.subrange(num_start as int, end as int));
        }
        match parse_decimal(s, num_start, end, u64::MAX) {
            Some(n) => {
                proof {
                    assert(screen_measure as int * n as int <= 0x7fff * 0xffff_ffff_ffff_ffff)
                        by (nonlinear_arith)
                        requires
                            screen_measure <= 0x7fff,
                            n <= 0xffff_ffff_ffff_ffff,
                    ;
                    assert(screen_measure as int * n as int >= 0) by (nonlinear_arith)
                        requires
                            screen_measure >= 0,
                            n >= 0,
                    ;
                }
                let scaled: u128 = (screen_measure as u128 * n as u128 + 50) / 100;
                assert(scaled as int == percent_of(screen_measure as int, n as int));
                Ok(place(scaled, measure, screen_measure))
            },
            None => Err(Error::ParseInt),
        }
    } else {
        let num_start: usize = if end > start && s[start] == PLUS_BYTE {
            start + 1
        } else {
            start
        };
        proof {
            if d.len() > 0 {
                assert(d[0] == s@[start as int]);
            }
            assert(digits_of(d) =~= s@.subrange(num_start as int, end as int));
        }
        match parse_decimal(s, num_start, end, 65535) {
            Some(a) => Ok(place(a as u128, measure, screen_measure)),
            None => Err(Error::ParseInt),
        }
    }
}

/// Resolve one axis of a position spec against the window's own dimension on
/// that axis (`measure`) and the monitor's (`screen_measure`): `%N` takes the
/// percentage of the screen dimension, anything else is a literal pixel
/// value; the result is centered and clamped into the monitor.
///
/// The result is a monitor-relative offset, later added to the monitor's
/// screen-space origin.
pub fn parse_position(v: &str, measure: u16, screen_measure: u16) -> (r: Result<i16, Error>)
    requires
        screen_measure <= 0x7fff,
    ensures
        match r {
            Ok(p) => {
                &&& spec_axis(v.spec_bytes(), measure as int, screen_measure as int) == Some(
                    p as int,
                )
                &&& 0 <= p as int <= axis_upper_bound(measure as int, screen_measure as int)
            },
            Err(e) => {
                &&& e == Error::ParseInt
                &&& spec_axis(v.spec_bytes(), measure as int, screen_measure as int) is None
            },
        },
{
    let bytes = v.as_bytes();
    let n = bytes.len();
    assert(bytes@.subrange(0, bytes@.len() as int) =~= v.spec_bytes());
    axis_from_bytes(bytes, 0, n, measure, screen_measure)
}

fn find_comma(s: &[u8]) -> (r: Option<usize>)
    ensures
        match r {
            Some(ci) => comma_split_ok(s@, ci as int),
            None => forall|j: int| 0 <= j < s@.len() ==> s@[j] != COMMA_BYTE,
        },
{
    let mut i: usize = 0;
    let n = s.len();
    while i < n
        invariant
            i <= n == s@.len(),
            forall|j: int| 0 <= j < i ==> s@[j] != COMMA_BYTE,
        decreases n - i,
    {
        if s[i] == COMMA_BYTE {
            return Some(i);
        }
        i = i + 1;
    }
    None
}

/// The first comma of a byte sequence sits at one index only.
proof fn lemma_comma_split_unique(s: Seq<u8>, ci1: int, ci2: int)
    requires
        comma_split_ok(s, ci1),
        comma_split_ok(s, ci2),
    ensures
        ci1 == ci2,
{
}

/// Resolve a whole `"<x-spec>,<y-spec>"` position spec against the window and
/// monitor dimensions.  Without the `,` separator the spec is invalid; each
/// axis then resolves as `parse_position` does, the x axis first.
pub fn resolve_position(
    v: &str,
    total_width: u16,
    total_height: u16,
    screen_width: u16,
    screen_height: u16,
) -> (r: Result<(i16, i16), Error>)
    requires
        screen_width <= 0x7fff,
        screen_height <= 0x7fff,
    ensures
        ({
            let s = v.spec_bytes();
            match r {
                Ok(p) => exists|ci: int|
                    {
                        &&& #[trigger] comma_split_ok(s, ci)
                        &&& spec_axis(
                            s.subrange(0, ci),
                            total_width as int,
                            screen_width as int,
                        ) == Some(p.0 as int)
                        &&& spec_axis(
                            s.subrange(ci + 1, s.len() as int),
                            total_height as int,
                            screen_height as int,
                        ) == Some(p.1 as int)
                        &&& 0 <= p.0 as int <= axis_upper_bound(
                            total_width as int,
                            screen_width as int,
                        )
                        &&& 0 <= p.1 as int <= axis_upper_bound(
                            total_height as int,
                            screen_height as int,
                        )
                    },
                Err(e) => {
                    if exists|ci: int| #[trigger] comma_split_ok(s, ci) {
                        let ci = choose|ci: int| comma_split_ok(s, ci);
                        &&& e == Error::ParseInt
                        &&& {
                            ||| spec_axis(
                                s.subrange(0, ci),
                                total_width as int,
                                screen_width as int,
                            ) is None
                            ||| spec_axis(
                                s.subrange(ci + 1, s.len() as int),
                                total_height as int,
                                screen_height as int,
                            ) is None
                        }
                    } else {
                        e == Error::InvalidPosition
                    }
                },
            }
        }),
{
    let bytes = v.as_bytes();
    let n = bytes.len();
    match find_comma(bytes) {
        Some(ci) => {
            assert(ci < n);
            proof {
                // The comma the contract speaks of is the one just found:
                // there is only one first comma.
                let picked = choose|c: int| comma_split_ok(v.spec_bytes(), c);
                if comma_split_ok(v.spec_bytes(), picked) {
                    lemma_comma_split_unique(v.spec_bytes(), picked, ci as int);
                }
            }
            let x = match axis_from_bytes(bytes, 0, ci, total_width, screen_width) {
                Ok(x) => x,
                Err(e) => {
                    return Err(e);
                },
            };
            let y = match axis_from_bytes(
                bytes,
                ci + 1,
                bytes.len(),
                total_height,
                screen_height,
            ) {
                Ok(y) => y,
                Err(e) => {
                    return Err(e);
                },
            };
            Ok((x, y))
        },
        None => Err(Error::InvalidPosition),
    }
}

/// Law: wherever the resolved point lands, the final coordinate of an axis
/// always lies in `[0, max(0, screen - measure)]`.
pub proof fn lemma_place_axis_in_range(pos: int, measure: int, screen: int)
    ensures
        0 <= place_axis(pos, measure, screen) <= axis_upper_bound(measure, screen),
        axis_upper_bound(measure, screen) >= 0,
{
}

/// Law: a percentage axis spec `%N` resolves, before clamping, to the rounded
/// percentage of the screen dimension minus half the window dimension; the
/// final coordinate is that value clamped into `[0, max(0, screen - measure)]`.
pub proof fn lemma_percent_resolution(s: Seq<u8>, measure: int, screen: int)
    requires
        s.len() > 0,
        s[0] == PERCENT_BYTE,
        valid_number(s.subrange(1, s.len() as int), u64::MAX as int),
    ensures
        ({
            let n = dec_value(digits_of(s.subrange(1, s.len() as int)));
            spec_axis(s, measure, screen) == Some(
                clamped(
                    percent_of(screen, n) - measure / 2,
                    0,
                    axis_upper_bound(measure, screen),
                ),
            )
        }),
{
}

/// Law: an absolute axis spec resolves exactly as a percentage spec does once
/// the percentage has been taken of the screen dimension: if the literal
/// value of the absolute spec equals the rounded percentage value, the two
/// specs resolve to the same coordinate.
pub proof fn lemma_absolute_matches_percent(sp: Seq<u8>, sa: Seq<u8>, measure: int, screen: int)
    requires
        sp.len() > 0,
        sp[0] == PERCENT_BYTE,
        valid_number(sp.subrange(1, sp.len() as int), u64::MAX as int),
        valid_number(sa, u16::MAX as int),
        dec_value(digits_of(sa)) == percent_of(
            screen,
            dec_value(digits_of(sp.subrange(1, sp.len() as int))),
        ),
    ensures
        spec_axis(sp, measure, screen) == spec_axis(sa, measure, screen),
{
    if sa[0] != PLUS_BYTE {
        assert(digits_of(sa) == sa);
        assert(is_digit(sa[0]));
    }
}

} // verus!

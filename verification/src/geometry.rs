use vstd::prelude::*;

verus! {

/// Width or height of the overlay window: the text surface dimension plus a
/// border pad and a border line on each side.
pub open spec fn spec_total_dimension(text_dim: int, border_pad: int, border_size: int) -> int {
    text_dim + 2 * (border_pad + border_size)
}

/// Offset of the text surface from the window's top-left corner, on each axis.
pub open spec fn spec_content_offset(border_pad: int, border_size: int) -> int {
    border_pad + border_size
}

/// One overlay window dimension: text dimension plus twice (pad + border).
pub fn total_dimension(text_dim: u16, border_pad: u16, border_size: u16) -> (r: u16)
    requires
        spec_total_dimension(text_dim as int, border_pad as int, border_size as int) <= u16::MAX,
    ensures
        r as int == spec_total_dimension(text_dim as int, border_pad as int, border_size as int),
{
    text_dim + 2 * (border_pad + border_size)
}

/// Where the text surface is composited, relative to the window origin.
pub fn content_offset(border_pad: u16, border_size: u16) -> (r: u16)
    requires
        border_pad + border_size <= u16::MAX,
    ensures
        r as int == spec_content_offset(border_pad as int, border_size as int),
{
    border_pad + border_size
}

/// A monitor-relative coordinate translated into screen space by adding the
/// monitor's origin on that axis.
pub fn screen_coordinate(monitor_origin: i16, local: i16) -> (r: i32)
    ensures
        r as int == monitor_origin + local,
{
    monitor_origin as i32 + local as i32
}

/// Everything one repaint of the overlay draws, as plain values: the fill
/// color choice, the full-window rectangle, and where the text surface lands.
pub struct FramePlan {
    /// True: fill with the frame color (blink flash); false: fill with black.
    pub fill_frame_color: bool,
    /// Full-window rectangle width, also the outline rectangle width.
    pub width: u16,
    /// Full-window rectangle height, also the outline rectangle height.
    pub height: u16,
    /// X offset at which the text surface is composited.
    pub text_x: u16,
    /// Y offset at which the text surface is composited.
    pub text_y: u16,
    /// Composited width: the text surface's own width.
    pub text_width: u16,
    /// Composited height: the text surface's own height.
    pub text_height: u16,
}

/// What one repaint must draw, given the blink state and the window metrics:
/// fill the whole window (frame color while the blink is on, black otherwise),
/// outline it in the frame color, and composite the text surface at
/// `(border_pad + border_size, border_pad + border_size)`.
pub fn frame_plan(
    blink_on: bool,
    text_width: u16,
    text_height: u16,
    border_pad: u16,
    border_size: u16,
) -> (p: FramePlan)
    requires
        spec_total_dimension(text_width as int, border_pad as int, border_size as int)
            <= u16::MAX,
        spec_total_dimension(text_height as int, border_pad as int, border_size as int)
            <= u16::MAX,
    ensures
        p.fill_frame_color == blink_on,
        p.width as int == spec_total_dimension(
            text_width as int,
            border_pad as int,
            border_size as int,
        ),
        p.height as int == spec_total_dimension(
            text_height as int,
            border_pad as int,
            border_size as int,
        ),
        p.text_x as int == spec_content_offset(border_pad as int, border_size as int),
        p.text_y as int == spec_content_offset(border_pad as int, border_size as int),
        p.text_width == text_width,
        p.text_height == text_height,
{
    let offset = border_pad + border_size;
    FramePlan {
        fill_frame_color: blink_on,
        width: total_dimension(text_width, border_pad, border_size),
        height: total_dimension(text_height, border_pad, border_size),
        text_x: offset,
        text_y: offset,
        text_width,
        text_height,
    }
}

} // verus!

//! Screen layout: where the countdown text and the start control sit, as
//! pure integer arithmetic on the window dimensions. The front end measures
//! text and draws; everything it draws is positioned here.

use vstd::prelude::*;

verus! {

/// An axis-aligned rectangle in screen coordinates.
#[derive(Clone, Copy, PartialEq, Eq, Structural, Debug)]
pub struct Rect {
    pub x: i32,
    pub y: i32,
    pub width: i32,
    pub height: i32,
}

/// Dimensions stay comfortably inside `i32`, so the layout arithmetic cannot
/// overflow.
pub open spec fn dim_ok(v: i32) -> bool {
    0 <= v <= 0x3fffffff
}

/// Whether a point lies inside a rectangle; the right and bottom edges are
/// excluded.
pub open spec fn spec_point_in_rect(px: int, py: int, r: Rect) -> bool {
    r.x <= px < r.x + r.width && r.y <= py < r.y + r.height
}

/// Whether a point lies inside a rectangle; the right and bottom edges are
/// excluded.
pub fn point_in_rect(px: i32, py: i32, r: &Rect) -> (inside: bool)
    ensures
        inside == spec_point_in_rect(px as int, py as int, *r),
{
    px >= r.x && (px as i64) < (r.x as i64) + (r.width as i64) && py >= r.y && (py as i64) < (
    r.y as i64) + (r.height as i64)
}

/// The start control: centered horizontally at half the window's width, in
/// the lower third of the window, a fifth of its height tall.
pub open spec fn spec_start_rect(w: i32, h: i32) -> Rect
    recommends
        dim_ok(w),
        dim_ok(h),
{
    Rect {
        x: (w / 4) as i32,
        y: (2 * h / 3) as i32,
        width: (w / 2) as i32,
        height: (h / 5) as i32,
    }
}

/// The start control: centered horizontally at half the window's width, in
/// the lower third of the window, a fifth of its height tall.
pub fn start_rect(w: i32, h: i32) -> (r: Rect)
    requires
        dim_ok(w),
        dim_ok(h),
    ensures
        r == spec_start_rect(w, h),
        r.x == w / 4,
        r.y == 2 * h / 3,
        r.width == w / 2,
        r.height == h / 5,
{
    Rect { x: w / 4, y: 2 * h / 3, width: w / 2, height: h / 5 }
}

/// Whether this frame's input asks to start the next phase: the start key was
/// newly pressed, or the primary button was newly pressed with the pointer
/// inside the start control.
pub fn start_requested(
    w: i32,
    h: i32,
    key_pressed: bool,
    mouse_pressed: bool,
    mouse_x: i32,
    mouse_y: i32,
) -> (r: bool)
    requires
        dim_ok(w),
        dim_ok(h),
    ensures
        r == (key_pressed || (mouse_pressed && spec_point_in_rect(
            mouse_x as int,
            mouse_y as int,
            spec_start_rect(w, h),
        ))),
{
    let rect = start_rect(w, h);
    key_pressed || (mouse_pressed && point_in_rect(mouse_x, mouse_y, &rect))
}

/// Where the central text goes: its font size is an eighth of the window's
/// width, it is centered horizontally given its measured width at that size,
/// and it sits an eighth of the window's height above the vertical middle.
pub fn centered_text_layout(w: i32, h: i32, text_width: i32) -> (r: (i32, i32, i32))
    requires
        dim_ok(w),
        dim_ok(h),
        dim_ok(text_width),
    ensures
        r.0 == w / 2 - text_width / 2,
        r.1 == h / 2 - h / 8,
        r.2 == w / 8,
{
    (w / 2 - text_width / 2, h / 2 - h / 8, w / 8)
}

/// The vertical margin, in pixels, between the start control's border and
/// its caption.
pub const START_LABEL_MARGIN: i32 = 10;

/// Where the start control's caption goes: its font size fills the control's
/// height less the margin, it is centered horizontally in the control given
/// its measured width at that size, and it sits the margin below the
/// control's top edge.
pub fn start_label_layout(rect: &Rect, text_width: i32) -> (r: (i32, i32, i32))
    requires
        dim_ok(rect.x),
        dim_ok(rect.y),
        dim_ok(rect.width),
        dim_ok(rect.height),
        dim_ok(text_width),
    ensures
        text_width <= rect.width ==> r.0 == (rect.width - text_width) / 2 + rect.x,
        text_width > rect.width ==> r.0 == rect.x - (text_width - rect.width) / 2,
        r.1 == rect.y + START_LABEL_MARGIN,
        r.2 == rect.height - START_LABEL_MARGIN,
{
    let half: i32 = if text_width <= rect.width {
        (rect.width - text_width) / 2
    } else {
        -((text_width - rect.width) / 2)
    };
    (half + rect.x, rect.y + START_LABEL_MARGIN, rect.height - START_LABEL_MARGIN)
}

} // verus!

//! Box-model geometry: the border-box viewport rectangle a capture is
//! clipped to.

use vstd::prelude::*;

verus! {

/// An element's box model as reported by the browser, in whole device
/// pixels. Positions are document coordinates of the content box;
/// `scroll_x`/`scroll_y` are the viewport's current scroll offset.
#[derive(Clone, Copy, PartialEq, Eq, Structural, Debug)]
pub struct BoxModel {
    pub content_x: i32,
    pub content_y: i32,
    pub content_width: i32,
    pub content_height: i32,
    pub padding_left: i32,
    pub padding_right: i32,
    pub padding_top: i32,
    pub padding_bottom: i32,
    pub border_left: i32,
    pub border_right: i32,
    pub border_top: i32,
    pub border_bottom: i32,
    pub scroll_x: i32,
    pub scroll_y: i32,
}

/// A clip rectangle in viewport pixel coordinates.
#[derive(Clone, Copy, PartialEq, Eq, Structural, Debug)]
pub struct Rect {
    pub x: i64,
    pub y: i64,
    pub width: i64,
    pub height: i64,
}

/// Left edge of the border box in viewport coordinates: the content edge
/// moved out by padding and border, adjusted for scroll.
pub open spec fn border_box_left(b: BoxModel) -> int {
    b.content_x - b.padding_left - b.border_left - b.scroll_x
}

/// Top edge of the border box in viewport coordinates.
pub open spec fn border_box_top(b: BoxModel) -> int {
    b.content_y - b.padding_top - b.border_top - b.scroll_y
}

/// Width of the border box: content plus horizontal padding and borders,
/// margins excluded.
pub open spec fn border_box_width(b: BoxModel) -> int {
    b.content_width + b.padding_left + b.padding_right + b.border_left + b.border_right
}

/// Height of the border box: content plus vertical padding and borders,
/// margins excluded.
pub open spec fn border_box_height(b: BoxModel) -> int {
    b.content_height + b.padding_top + b.padding_bottom + b.border_top + b.border_bottom
}

/// The border-box viewport rectangle of `b`, as a `Rect` value.
pub open spec fn spec_border_box_viewport(b: BoxModel) -> Rect {
    Rect {
        x: border_box_left(b) as i64,
        y: border_box_top(b) as i64,
        width: border_box_width(b) as i64,
        height: border_box_height(b) as i64,
    }
}

/// Compute the exact rectangle a capture of this element must be clipped
/// to: the border box (content + padding + border, margin excluded) in
/// viewport coordinates, adjusted for the current scroll offset.
pub fn border_box_viewport(b: &BoxModel) -> (r: Rect)
    ensures
        r == spec_border_box_viewport(*b),
        r.x == border_box_left(*b),
        r.y == border_box_top(*b),
        r.width == border_box_width(*b),
        r.height == border_box_height(*b),
{
    let x: i64 = b.content_x as i64 - b.padding_left as i64 - b.border_left as i64
        - b.scroll_x as i64;
    let y: i64 = b.content_y as i64 - b.padding_top as i64 - b.border_top as i64
        - b.scroll_y as i64;
    let width: i64 = b.content_width as i64 + b.padding_left as i64 + b.padding_right as i64
        + b.border_left as i64 + b.border_right as i64;
    let height: i64 = b.content_height as i64 + b.padding_top as i64 + b.padding_bottom as i64
        + b.border_top as i64 + b.border_bottom as i64;
    Rect { x, y, width, height }
}

} // verus!

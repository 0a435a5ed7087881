//! Centred text: where a text is drawn so that it is centred on a point.
use vstd::prelude::*;

use crate::consts::{D2Font, D2StringColorCodes};

verus! {

/// How a text is drawn: its left edge, baseline, font and colour.
#[derive(Clone, Copy)]
pub struct TextDraw {
    pub x: i32,
    pub y: i32,
    pub font: D2Font,
    pub color: D2StringColorCodes,
}

/// Where a text of width `width` in `font` is drawn so that it is centred
/// on `x`: its left edge is `x - width / 2`, halving rounded toward zero.
pub fn draw_text(width: i32, x: i32, y: i32, font: D2Font, color: D2StringColorCodes) -> (r: TextDraw)
    requires
        i32::MIN <= x - (if width >= 0 { width / 2 } else { -((-width) / 2) }) <= i32::MAX,
    ensures
        r.x == x - (if width >= 0 { width / 2 } else { -((-width) / 2) }),
        r.y == y,
        r.font == font,
        r.color == color,
{
    TextDraw { x: x - (width / 2), y, font, color }
}

} // verus!

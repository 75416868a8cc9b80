//! Placing quads on the screen.

use vstd::prelude::*;

verus! {

/// A fraction of whole numbers. A denominator of zero is kept as it is: it
/// is the caller's division that gives it a meaning.
#[derive(Clone, Copy, Debug, PartialEq, Eq, Structural)]
pub struct Ratio {
    pub numerator: i64,
    pub denominator: u32,
}

/// A transform that scales a unit quad and then moves it, in normalized
/// device coordinates: a translation by `(translate_x, translate_y, 0)`
/// times a scaling by `(scale_x, scale_y, 1)`.
#[derive(Clone, Copy, Debug, PartialEq, Eq, Structural)]
pub struct ScreenSpaceTransform {
    pub translate_x: Ratio,
    pub translate_y: Ratio,
    pub scale_x: Ratio,
    pub scale_y: Ratio,
}

/// The transform that puts a quad of `quad_w` by `quad_h` pixels at the
/// pixel `(pos_x, pos_y)` of a display of `display_w` by `display_h`
/// pixels. Positions are rescaled from the display to the range from -1 to
/// 1, and extents to the range from 0 to 2.
pub open spec fn spec_screen_space_vertex_transform(
    display_w: u32,
    display_h: u32,
    quad_w: u32,
    quad_h: u32,
    pos_x: i32,
    pos_y: i32,
) -> ScreenSpaceTransform {
    ScreenSpaceTransform {
        translate_x: Ratio { numerator: (2 * pos_x - display_w) as i64, denominator: display_w },
        translate_y: Ratio { numerator: (2 * pos_y - display_h) as i64, denominator: display_h },
        scale_x: Ratio { numerator: (2 * quad_w) as i64, denominator: display_w },
        scale_y: Ratio { numerator: (2 * quad_h) as i64, denominator: display_h },
    }
}

pub fn screen_space_vertex_transform(
    display_w: u32,
    display_h: u32,
    quad_w: u32,
    quad_h: u32,
    pos_x: i32,
    pos_y: i32,
) -> (transform: ScreenSpaceTransform)
    ensures
        transform == spec_screen_space_vertex_transform(
            display_w,
            display_h,
            quad_w,
            quad_h,
            pos_x,
            pos_y,
        ),
        transform.translate_x.numerator == 2 * pos_x - display_w,
        transform.translate_y.numerator == 2 * pos_y - display_h,
        transform.scale_x.numerator == 2 * quad_w,
        transform.scale_y.numerator == 2 * quad_h,
{
    ScreenSpaceTransform {
        translate_x: Ratio {
            numerator: 2 * (pos_x as i64) - (display_w as i64),
            denominator: display_w,
        },
        translate_y: Ratio {
            numerator: 2 * (pos_y as i64) - (display_h as i64),
            denominator: display_h,
        },
        scale_x: Ratio { numerator: 2 * (quad_w as i64), denominator: display_w },
        scale_y: Ratio { numerator: 2 * (quad_h as i64), denominator: display_h },
    }
}

} // verus!

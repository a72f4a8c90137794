//! Aspect-preserving viewport composition: the fixed-size scene buffer is
//! blitted into the window scaled by the largest uniform factor that keeps
//! the whole scene visible, centered, with letterbox bars in the remainder.

use vstd::prelude::*;
use vstd::arithmetic::div_mod::{lemma_div_is_ordered, lemma_div_multiples_vanish};
use vstd::arithmetic::mul::lemma_mul_is_commutative;

verus! {

/// Where the scene buffer lands in the window: the destination rectangle of
/// the final blit. The window outside it is the letterbox.
#[derive(Clone, Copy, PartialEq, Eq, Structural, Debug)]
pub struct Viewport {
    pub dest_x: u32,
    pub dest_y: u32,
    pub dest_width: u32,
    pub dest_height: u32,
}

/// True when the window's width is the binding dimension of the uniform
/// zoom `min(window_width / scene_width, window_height / scene_height)`,
/// stated without division: `ww / sw <= wh / sh` iff `ww * sh <= wh * sw`.
pub open spec fn width_bound(
    scene_width: u32,
    scene_height: u32,
    window_width: u32,
    window_height: u32,
) -> bool {
    window_width * scene_height <= window_height * scene_width
}

/// The blit destination's width: the window width when the width binds the
/// zoom, else the scene width scaled by `window_height / scene_height`,
/// rounded down to whole pixels.
pub open spec fn spec_dest_width(
    scene_width: u32,
    scene_height: u32,
    window_width: u32,
    window_height: u32,
) -> int
    recommends
        scene_height >= 1,
{
    if width_bound(scene_width, scene_height, window_width, window_height) {
        window_width as int
    } else {
        (scene_width * window_height) as int / (scene_height as int)
    }
}

/// The blit destination's height: the window height when the height binds
/// the zoom, else the scene height scaled by `window_width / scene_width`,
/// rounded down to whole pixels.
pub open spec fn spec_dest_height(
    scene_width: u32,
    scene_height: u32,
    window_width: u32,
    window_height: u32,
) -> int
    recommends
        scene_width >= 1,
{
    if width_bound(scene_width, scene_height, window_width, window_height) {
        (scene_height * window_width) as int / (scene_width as int)
    } else {
        window_height as int
    }
}

/// Computes where the scene buffer is blitted into the window: scaled by
/// the larger dimension-bound zoom factor, never distorted, never cropped,
/// and centered so the letterbox bars split evenly up to a pixel.
pub fn compose(
    scene_width: u32,
    scene_height: u32,
    window_width: u32,
    window_height: u32,
) -> (v: Viewport)
    requires
        scene_width >= 1,
        scene_height >= 1,
    ensures
        v.dest_width == spec_dest_width(scene_width, scene_height, window_width, window_height),
        v.dest_height == spec_dest_height(scene_width, scene_height, window_width, window_height),
        v.dest_width <= window_width,
        v.dest_height <= window_height,
        v.dest_x == (window_width - v.dest_width) / 2,
        v.dest_y == (window_height - v.dest_height) / 2,
        v.dest_x + v.dest_width <= window_width,
        v.dest_y + v.dest_height <= window_height,
{
    proof {
        assert((window_width as int) * (scene_height as int) <= (u32::MAX as int) * (u32::MAX
            as int) && (window_height as int) * (scene_width as int) <= (u32::MAX as int) * (
        u32::MAX as int) && (scene_height as int) * (window_width as int) <= (u32::MAX as int) * (
        u32::MAX as int) && (scene_width as int) * (window_height as int) <= (u32::MAX as int) * (
        u32::MAX as int)) by (nonlinear_arith)
            requires
                0 <= window_width <= u32::MAX,
                0 <= window_height <= u32::MAX,
                0 <= scene_width <= u32::MAX,
                0 <= scene_height <= u32::MAX,
        ;
    }
    let dest_width: u32;
    let dest_height: u32;
    if window_width as u64 * scene_height as u64 <= window_height as u64 * scene_width as u64 {
        let scaled: u64 = scene_height as u64 * window_width as u64 / scene_width as u64;
        proof {
            lemma_mul_is_commutative(scene_height as int, window_width as int);
            lemma_mul_is_commutative(window_height as int, scene_width as int);
            lemma_div_is_ordered(
                (scene_height as int) * (window_width as int),
                (scene_width as int) * (window_height as int),
                scene_width as int,
            );
            lemma_div_multiples_vanish(window_height as int, scene_width as int);
        }
        dest_width = window_width;
        dest_height = scaled as u32;
    } else {
        let scaled: u64 = scene_width as u64 * window_height as u64 / scene_height as u64;
        proof {
            lemma_mul_is_commutative(scene_width as int, window_height as int);
            lemma_mul_is_commutative(window_width as int, scene_height as int);
            lemma_div_is_ordered(
                (scene_width as int) * (window_height as int),
                (scene_height as int) * (window_width as int),
                scene_height as int,
            );
            lemma_div_multiples_vanish(window_width as int, scene_height as int);
        }
        dest_width = scaled as u32;
        dest_height = window_height;
    }
    Viewport {
        dest_x: (window_width - dest_width) / 2,
        dest_y: (window_height - dest_height) / 2,
        dest_width,
        dest_height,
    }
}

} // verus!

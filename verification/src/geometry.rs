//! Shared pixel-space primitives: rectangles and draw commands.

use vstd::prelude::*;

verus! {

/// An axis-aligned rectangle in pixel space (top-left corner, width, height).
#[derive(Clone, Copy, PartialEq, Eq, Structural, Debug)]
pub struct PixelRect {
    pub x: u32,
    pub y: u32,
    pub w: u32,
    pub h: u32,
}

/// One textured blit into the scene buffer: a source rectangle taken from a
/// sheet texture, a destination position and size in scene pixels, and the
/// horizontal/vertical flip flags to apply.
#[derive(Clone, Copy, PartialEq, Eq, Structural, Debug)]
pub struct DrawCommand {
    pub dest_x: u32,
    pub dest_y: u32,
    pub dest_w: u32,
    pub dest_h: u32,
    pub source: PixelRect,
    pub flip_h: bool,
    pub flip_v: bool,
}

} // verus!

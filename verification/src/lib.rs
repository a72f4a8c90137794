//! A verified core for a small 2D tile-map renderer: resolving tile ids to
//! sheet rectangles, timing sprite animation, turning tile layers into draw
//! commands, fitting the fixed-size scene into a window without distortion,
//! and the characters drawn over the background. Everything is stated over
//! whole pixels and microseconds; the host performs the actual blits.

pub mod geometry;
pub mod sheet;
pub mod animation;
pub mod layer;
pub mod background;
pub mod viewport;
pub mod character;

use vstd::prelude::*;

verus! {

/// Positions are held in billionths of a pixel. A speed in pixels per second
/// times a time in nanoseconds is then an exact distance in these units.
pub const SUBPIXELS: i64 = 1_000_000_000;

/// Width of the playfield (the window), in pixels.
pub const WORLD_WIDTH: i64 = 288;

/// Height of the playfield (the window), in pixels.
pub const WORLD_HEIGHT: i64 = 512;

/// A sprite's position: `x` and `y` in subpixels, `z` the drawing layer.
#[derive(Clone, Copy, Debug, PartialEq, Eq, Structural)]
pub struct Position {
    pub x: i64,
    pub y: i64,
    pub z: i64,
}

} // verus!

//! World-space positions in fixed-point sub-pixel units.

use vstd::prelude::*;

verus! {

/// Number of sub-pixel units in one world unit.  One world unit is one
/// pixel of the low-resolution render target (one logical pixel), so
/// fractional, smooth motion is representable exactly while the
/// whole-unit grid stays a simple divisibility condition.
pub const SUBPIXELS_PER_UNIT: i64 = 256;

/// Largest coordinate magnitude, in sub-pixel units, accepted by the
/// per-tick arithmetic.  With coordinates in this range every
/// intermediate value of a tick (differences of two coordinates, and a
/// coordinate plus a step bounded by such a difference) fits in an `i64`.
pub const POSITION_LIMIT: i64 = 0x2000_0000_0000_0000;

/// A 2D world-space position in sub-pixel units.
#[derive(Clone, Copy, Debug, PartialEq, Eq, Structural)]
pub struct Position {
    pub x: i64,
    pub y: i64,
}

impl Position {
    /// Both coordinates are small enough for a tick's arithmetic to stay
    /// inside `i64`.
    pub open spec fn in_bounds(self) -> bool {
        &&& -POSITION_LIMIT <= self.x <= POSITION_LIMIT
        &&& -POSITION_LIMIT <= self.y <= POSITION_LIMIT
    }

    /// Both coordinates lie on the whole-unit grid of the low-resolution
    /// render target.
    pub open spec fn grid_aligned(self) -> bool {
        self.x % SUBPIXELS_PER_UNIT == 0 && self.y % SUBPIXELS_PER_UNIT == 0
    }

    pub fn new(x: i64, y: i64) -> (p: Position)
        ensures
            p == (Position { x, y }),
    {
        Position { x, y }
    }

    /// The position at a whole number of world units on each axis.
    pub fn from_units(x_units: i32, y_units: i32) -> (p: Position)
        ensures
            p.x == x_units * SUBPIXELS_PER_UNIT,
            p.y == y_units * SUBPIXELS_PER_UNIT,
            p.grid_aligned(),
            p.in_bounds(),
    {
        Position {
            x: (x_units as i64) * SUBPIXELS_PER_UNIT,
            y: (y_units as i64) * SUBPIXELS_PER_UNIT,
        }
    }

    /// The origin, where every camera starts.
    pub fn origin() -> (p: Position)
        ensures
            p == (Position { x: 0i64, y: 0i64 }),
            p.grid_aligned(),
            p.in_bounds(),
    {
        Position { x: 0, y: 0 }
    }
}

} // verus!

//! Directional input: composing the four key states into a direction.

use vstd::prelude::*;

verus! {

/// Pressed state of the four directional keys for one tick.  The
/// synchronizer side only ever consumes this boolean state, never raw
/// key events.
#[derive(Clone, Copy, Debug, PartialEq, Eq, Structural)]
pub struct DirectionalInput {
    pub up: bool,
    pub down: bool,
    pub left: bool,
    pub right: bool,
}

impl DirectionalInput {
    /// Horizontal component: +1 for right, -1 for left, 0 when neither
    /// or both are held.
    pub open spec fn spec_direction_x(self) -> int {
        (if self.right { 1int } else { 0int }) - (if self.left { 1int } else { 0int })
    }

    /// Vertical component: +1 for up, -1 for down, 0 when neither or
    /// both are held.
    pub open spec fn spec_direction_y(self) -> int {
        (if self.up { 1int } else { 0int }) - (if self.down { 1int } else { 0int })
    }

    /// Composes the key states into a direction, each axis in -1..=1.
    /// Normalizing the diagonal and scaling by speed and elapsed time
    /// stay with the caller.
    pub fn direction(&self) -> (d: (i8, i8))
        ensures
            d.0 == self.spec_direction_x(),
            d.1 == self.spec_direction_y(),
    {
        let mut dx: i8 = 0;
        let mut dy: i8 = 0;
        if self.up {
            dy += 1;
        }
        if self.down {
            dy -= 1;
        }
        if self.right {
            dx += 1;
        }
        if self.left {
            dx -= 1;
        }
        (dx, dy)
    }
}

} // verus!

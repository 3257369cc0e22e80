//! Buffer-space coordinates and terminal dimensions.

use vstd::prelude::*;

verus! {

/// A buffer-space coordinate: `x` is the column, `y` the row index.
#[derive(Clone, Copy, PartialEq, Eq, Structural, Debug)]
pub struct Position {
    pub x: usize,
    pub y: usize,
}

impl Default for Position {
    /// The origin, top-left of the buffer.
    fn default() -> (r: Self)
        ensures
            r.x == 0,
            r.y == 0,
    {
        Position { x: 0, y: 0 }
    }
}

/// Terminal dimensions in character cells.
#[derive(Clone, Copy, PartialEq, Eq, Structural, Debug)]
pub struct Size {
    pub width: u16,
    pub height: u16,
}

} // verus!

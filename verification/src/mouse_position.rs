use vstd::prelude::*;

verus! {

/// A pointer position in surface-local pixel coordinates: the coordinate
/// space of pointer and wheel events, not of the surface's pixel buffer.
/// Always copied by value; it has no lifecycle of its own.
#[derive(Clone, Copy, PartialEq, Eq, Structural, Debug)]
pub struct MousePosition {
    pub x: i32,
    pub y: i32,
}

impl MousePosition {
    /// Builds a position from its two coordinates.
    pub fn new(x: i32, y: i32) -> (p: MousePosition)
        ensures
            p.x == x,
            p.y == y,
    {
        MousePosition { x, y }
    }
}

} // verus!

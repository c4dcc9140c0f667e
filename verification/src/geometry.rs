//! The playfield and axis-aligned boxes on it.

use vstd::prelude::*;

verus! {

/// Fixed-point units per pixel: every coordinate, extent and speed of the
/// simulation is an integer number of thousandths of a pixel.
pub const UNIT: i32 = 1000;

/// Width of the playfield (800 pixels), in units.
pub const PLAYFIELD_WIDTH: i32 = 800_000;

/// Height of the playfield (600 pixels), in units.
pub const PLAYFIELD_HEIGHT: i32 = 600_000;

/// An axis-aligned box given by its four edges, in units. The y axis points
/// down, so `top <= bottom` for a box that is not inside out.
#[derive(Clone, Copy, Debug, PartialEq, Eq, Structural)]
pub struct Rect {
    pub left: i64,
    pub top: i64,
    pub right: i64,
    pub bottom: i64,
}

impl Rect {
    /// Two boxes intersect when they share interior points: touching edges
    /// do not count.
    pub open spec fn intersects(self, other: Rect) -> bool {
        &&& self.left < other.right
        &&& self.right > other.left
        &&& self.top < other.bottom
        &&& self.bottom > other.top
    }

    /// Tests whether this box and `other` intersect.
    pub fn overlaps(&self, other: &Rect) -> (hit: bool)
        ensures
            hit == self.intersects(*other),
    {
        self.left < other.right && self.right > other.left && self.top < other.bottom
            && self.bottom > other.top
    }
}

} // verus!

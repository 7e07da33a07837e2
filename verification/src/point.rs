use vstd::prelude::*;
use crate::constants::{COORD_LIMIT, OFFSET_LIMIT};

verus! {

/// A position or a displacement in the plane, in length units.
#[derive(Clone, Copy, Debug, PartialEq, Eq, Structural)]
pub struct Point {
    pub x: i32,
    pub y: i32,
}

impl Point {
    /// Both coordinates are small enough for a position.
    pub open spec fn in_range(self) -> bool {
        &&& -COORD_LIMIT <= self.x <= COORD_LIMIT
        &&& -COORD_LIMIT <= self.y <= COORD_LIMIT
    }

    /// Both coordinates are small enough for the displacement between two
    /// positions.
    pub open spec fn is_offset(self) -> bool {
        &&& -OFFSET_LIMIT <= self.x <= OFFSET_LIMIT
        &&& -OFFSET_LIMIT <= self.y <= OFFSET_LIMIT
    }

    pub fn new(x: i32, y: i32) -> (p: Point)
        ensures
            p.x == x,
            p.y == y,
    {
        Point { x, y }
    }

    pub fn is_in_range(&self) -> (ok: bool)
        ensures
            ok == self.in_range(),
    {
        -COORD_LIMIT <= self.x && self.x <= COORD_LIMIT && -COORD_LIMIT <= self.y && self.y
            <= COORD_LIMIT
    }

    pub fn is_within_offset(&self) -> (ok: bool)
        ensures
            ok == self.is_offset(),
    {
        -OFFSET_LIMIT <= self.x && self.x <= OFFSET_LIMIT && -OFFSET_LIMIT <= self.y && self.y
            <= OFFSET_LIMIT
    }
}

} // verus!

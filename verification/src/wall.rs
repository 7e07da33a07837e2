use vstd::prelude::*;
use crate::point::Point;

verus! {

/// A straight obstacle between two points. It is never changed after it is
/// made.
#[derive(Clone, Copy, Debug, PartialEq, Eq, Structural)]
pub struct Wall {
    pub start_point: Point,
    pub end_point: Point,
}

impl Wall {
    /// Both endpoints are positions within the coordinate limit.
    pub open spec fn wf(self) -> bool {
        self.start_point.in_range() && self.end_point.in_range()
    }

    pub fn new(start_point: &Point, end_point: &Point) -> (wall: Wall)
        ensures
            wall.start_point == *start_point,
            wall.end_point == *end_point,
    {
        Wall { start_point: *start_point, end_point: *end_point }
    }

    pub fn is_valid(&self) -> (ok: bool)
        ensures
            ok == self.wf(),
    {
        self.start_point.is_in_range() && self.end_point.is_in_range()
    }
}

} // verus!

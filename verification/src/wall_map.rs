use vstd::prelude::*;
use crate::constants::{SCREEN_SIZE, UNITS_PER_PIXEL};
use crate::point::Point;
use crate::sweep::all_valid;
use crate::wall::Wall;

verus! {

/// The walls of the scene.
#[derive(Debug)]
pub struct WallMap {
    pub walls: Vec<Wall>,
}

/// The first wall of the built-in scene, across the top of the screen.
pub open spec fn top_wall() -> Wall {
    Wall {
        start_point: Point { x: 102_400, y: 20_480 },
        end_point: Point { x: 921_600, y: 153_600 },
    }
}

/// The second wall of the built-in scene, across its lower right corner.
pub open spec fn corner_wall() -> Wall {
    Wall {
        start_point: Point { x: 512_000, y: 921_600 },
        end_point: Point { x: 921_600, y: 512_000 },
    }
}

impl WallMap {
    /// Every wall has its endpoints within the coordinate limit.
    pub open spec fn wf(&self) -> bool {
        all_valid(self.walls@)
    }

    /// The built-in scene of two walls.
    pub fn new() -> (map: WallMap)
        ensures
            map.walls@ == seq![top_wall(), corner_wall()],
            map.wf(),
    {
        let mut walls: Vec<Wall> = Vec::new();
        let margin: i32 = 100 * UNITS_PER_PIXEL;
        let start_point1: Point = Point::new(margin, 20 * UNITS_PER_PIXEL);
        let end_point1: Point = Point::new(SCREEN_SIZE - margin, 150 * UNITS_PER_PIXEL);

        let start_point2: Point = Point::new(SCREEN_SIZE / 2, SCREEN_SIZE - margin);
        let end_point2: Point = Point::new(SCREEN_SIZE - margin, SCREEN_SIZE / 2);

        walls.push(Wall::new(&start_point1, &end_point1));
        walls.push(Wall::new(&start_point2, &end_point2));
        assert(walls@ =~= seq![top_wall(), corner_wall()]);
        WallMap { walls }
    }

    pub fn is_valid(&self) -> (ok: bool)
        ensures
            ok == self.wf(),
    {
        let mut i: usize = 0;
        while i < self.walls.len()
            invariant
                i <= self.walls@.len(),
                forall|j: int| 0 <= j < i ==> (#[trigger] self.walls@[j]).wf(),
            decreases self.walls@.len() - i,
        {
            if !self.walls[i].is_valid() {
                return false;
            }
            i = i + 1;
        }
        true
    }
}

} // verus!

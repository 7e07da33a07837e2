use vstd::prelude::*;
use crate::constants::{CAMERA_SPEED, COORD_LIMIT, MICROS_PER_SECOND, UNITS_PER_PIXEL};
use crate::point::Point;
use crate::ray::Ray;

verus! {

/// One of the four ways the camera can move. `UP` is towards smaller `y`.
#[derive(Clone, Copy, Debug, PartialEq, Eq, Structural)]
pub enum Direction {
    UP,
    DOWN,
    LEFT,
    RIGHT,
}

/// Direction and full length of one ray of the fan: `reach` is the
/// displacement from the camera to the end of the unobstructed ray, `angle`
/// the direction it points in, in degrees.
#[derive(Clone, Copy, Debug, PartialEq, Eq, Structural)]
pub struct Heading {
    pub angle: u32,
    pub reach: Point,
}

/// The point from which the rays are cast, and the rays.
#[derive(Debug)]
pub struct Camera {
    pub position: Point,
    pub rays: Vec<Ray>,
}

/// Distance the camera covers in `dt` microseconds, in length units,
/// rounded down.
pub open spec fn step_length(dt: u32) -> int {
    (CAMERA_SPEED * UNITS_PER_PIXEL * dt) / (MICROS_PER_SECOND as int)
}

/// Where a camera at `position` stands after moving in `direction` for `dt`
/// microseconds.
pub open spec fn destination(position: Point, direction: Direction, dt: u32) -> (int, int) {
    match direction {
        Direction::UP => (position.x as int, position.y - step_length(dt)),
        Direction::DOWN => (position.x as int, position.y + step_length(dt)),
        Direction::LEFT => (position.x - step_length(dt), position.y as int),
        Direction::RIGHT => (position.x + step_length(dt), position.y as int),
    }
}

/// The move ends within the coordinate limit.
pub open spec fn movable(position: Point, direction: Direction, dt: u32) -> bool {
    let to = destination(position, direction, dt);
    -COORD_LIMIT <= to.0 <= COORD_LIMIT && -COORD_LIMIT <= to.1 <= COORD_LIMIT
}

/// The angles of a fan: the multiples of `increment` below `field_of_view`,
/// in rising order.
pub open spec fn is_fan(angles: Seq<u32>, field_of_view: u32, increment: u32) -> bool {
    &&& forall|i: int| 0 <= i < angles.len() ==> #[trigger] angles[i] == i * increment
    &&& angles.len() * increment >= field_of_view
    &&& angles.len() > 0 ==> (angles.len() - 1) * increment < field_of_view
}

/// Distance the camera covers in `dt` microseconds.
pub fn step(dt: u32) -> (length: i64)
    ensures
        length == step_length(dt),
        0 <= length <= i32::MAX,
{
    let per_second: i64 = (CAMERA_SPEED as i64) * (UNITS_PER_PIXEL as i64);
    let covered: i64 = per_second * (dt as i64);
    assert(CAMERA_SPEED * UNITS_PER_PIXEL * dt == covered) by (nonlinear_arith)
        requires
            covered == 256_000 * dt,
            CAMERA_SPEED == 250,
            UNITS_PER_PIXEL == 1024,
    ;
    covered / MICROS_PER_SECOND
}

impl Camera {
    /// The camera stands within the coordinate limit, and every ray is valid
    /// and starts where the camera stands.
    pub open spec fn wf(&self) -> bool {
        &&& self.position.in_range()
        &&& forall|i: int|
            0 <= i < self.rays@.len() ==> (#[trigger] self.rays@[i]).wf() && self.rays@[i].start_point
                == self.position
    }

    pub fn is_valid(&self) -> (ok: bool)
        ensures
            ok == self.wf(),
    {
        if !self.position.is_in_range() {
            return false;
        }
        let mut i: usize = 0;
        while i < self.rays.len()
            invariant
                i <= self.rays@.len(),
                forall|j: int|
                    0 <= j < i ==> (#[trigger] self.rays@[j]).wf() && self.rays@[j].start_point
                        == self.position,
            decreases self.rays@.len() - i,
        {
            let ray: Ray = self.rays[i];
            if !(ray.is_valid() && ray.start_point == self.position) {
                return false;
            }
            i = i + 1;
        }
        true
    }

    /// The angles at which a fan of rays is cast.
    pub fn fan_angles(field_of_view: u32, increment: u32) -> (angles: Vec<u32>)
        requires
            increment > 0,
        ensures
            is_fan(angles@, field_of_view, increment),
    {
        let mut angles: Vec<u32> = Vec::new();
        let mut angle: u32 = 0;
        assert(0 * increment == 0) by (nonlinear_arith);
        while angle < field_of_view
            invariant
                increment > 0,
                forall|i: int| 0 <= i < angles@.len() ==> #[trigger] angles@[i] == i * increment,
                angle < field_of_view ==> angle == angles@.len() * increment,
                angle >= field_of_view ==> angles@.len() * increment >= field_of_view,
                angles@.len() > 0 ==> (angles@.len() - 1) * increment < field_of_view,
            decreases field_of_view - angle,
        {
            let ghost before = angles@.len();
            angles.push(angle);
            assert((before + 1) * increment == before * increment + increment)
                by (nonlinear_arith);
            if field_of_view - angle <= increment {
                angle = field_of_view;
            } else {
                angle = angle + increment;
            }
        }
        angles
    }

    /// One ray for each heading, in the order of the headings, all starting
    /// at `position`.
    pub fn spawn_rays(position: &Point, headings: &Vec<Heading>) -> (rays: Vec<Ray>)
        requires
            position.in_range(),
            forall|i: int| 0 <= i < headings@.len() ==> (#[trigger] headings@[i]).reach.is_offset(),
        ensures
            rays@.len() == headings@.len(),
            forall|i: int|
                0 <= i < rays@.len() ==> #[trigger] rays@[i] == Ray::at_full_length(
                    *position,
                    headings@[i].reach,
                    headings@[i].angle,
                    true,
                ),
    {
        let mut rays: Vec<Ray> = Vec::new();
        let mut i: usize = 0;
        while i < headings.len()
            invariant
                i <= headings@.len(),
                rays@.len() == i,
                position.in_range(),
                forall|j: int|
                    0 <= j < headings@.len() ==> (#[trigger] headings@[j]).reach.is_offset(),
                forall|j: int|
                    0 <= j < i ==> #[trigger] rays@[j] == Ray::at_full_length(
                        *position,
                        headings@[j].reach,
                        headings@[j].angle,
                        true,
                    ),
            decreases headings@.len() - i,
        {
            let heading = headings[i];
            rays.push(Ray::with_reach(position, &heading.reach, heading.angle));
            i = i + 1;
        }
        rays
    }

    /// A camera at `position` with one ray for each heading.
    pub fn new(position: Point, headings: &Vec<Heading>) -> (camera: Camera)
        requires
            position.in_range(),
            forall|i: int| 0 <= i < headings@.len() ==> (#[trigger] headings@[i]).reach.is_offset(),
        ensures
            camera.position == position,
            camera.rays@.len() == headings@.len(),
            forall|i: int|
                0 <= i < camera.rays@.len() ==> #[trigger] camera.rays@[i] == Ray::at_full_length(
                    position,
                    headings@[i].reach,
                    headings@[i].angle,
                    true,
                ),
            camera.wf(),
    {
        let rays: Vec<Ray> = Camera::spawn_rays(&position, headings);
        Camera { position, rays }
    }

    /// Whether a move in `direction` for `dt` microseconds ends within the
    /// coordinate limit.
    pub fn can_move(&self, direction: Direction, dt: u32) -> (ok: bool)
        requires
            self.position.in_range(),
        ensures
            ok == movable(self.position, direction, dt),
    {
        let length: i64 = step(dt);
        let x: i64 = self.position.x as i64;
        let y: i64 = self.position.y as i64;
        let limit: i64 = COORD_LIMIT as i64;
        match direction {
            Direction::UP => -limit <= y - length,
            Direction::DOWN => y + length <= limit,
            Direction::LEFT => -limit <= x - length,
            Direction::RIGHT => x + length <= limit,
        }
    }

    /// Moves the camera in `direction` for `dt` microseconds, and every ray
    /// with it: each ray is moved as a whole, and nothing else of it changes.
    pub fn move_camera(&mut self, direction: Direction, dt: u32)
        requires
            old(self).wf(),
            movable(old(self).position, direction, dt),
        ensures
            (final(self).position.x as int, final(self).position.y as int) == destination(
                old(self).position,
                direction,
                dt,
            ),
            final(self).rays@.len() == old(self).rays@.len(),
            forall|i: int|
                0 <= i < final(self).rays@.len() ==> #[trigger] final(self).rays@[i] == old(
                    self,
                ).rays@[i].translated(final(self).position),
            final(self).wf(),
    {
        let length: i64 = step(dt);
        let x: i64 = self.position.x as i64;
        let y: i64 = self.position.y as i64;
        let position: Point = match direction {
            Direction::UP => Point { x: self.position.x, y: (y - length) as i32 },
            Direction::DOWN => Point { x: self.position.x, y: (y + length) as i32 },
            Direction::LEFT => Point { x: (x - length) as i32, y: self.position.y },
            Direction::RIGHT => Point { x: (x + length) as i32, y: self.position.y },
        };
        self.position = position;
        let mut i: usize = 0;
        while i < self.rays.len()
            invariant
                i <= self.rays@.len(),
                position.in_range(),
                self.position == position,
                self.rays@.len() == old(self).rays@.len(),
                forall|j: int| 0 <= j < self.rays@.len() ==> (#[trigger] old(self).rays@[j]).wf(),
                forall|j: int|
                    0 <= j < i ==> #[trigger] self.rays@[j] == old(self).rays@[j].translated(
                        position,
                    ),
                forall|j: int| i <= j < self.rays@.len() ==> #[trigger] self.rays@[j] == old(self).rays@[j],
            decreases self.rays@.len() - i,
        {
            let mut ray: Ray = self.rays[i];
            ray.translate_origin(position);
            self.rays[i] = ray;
            i = i + 1;
        }
    }
}

} // verus!

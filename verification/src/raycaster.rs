use vstd::prelude::*;
use ggez::input::keyboard::KeyCode;
use crate::camera::{destination, movable, Camera, Direction, Heading};
use crate::constants::SCREEN_SIZE;
use crate::keys::{direction_of_key, key_direction};
use crate::point::Point;
use crate::ray::Ray;
use crate::wall::Wall;
use crate::wall_map::WallMap;

verus! {

/// The directions whose keys are held down.
#[derive(Clone, Copy, Debug, PartialEq, Eq, Structural)]
pub struct InputSet {
    pub up: bool,
    pub down: bool,
    pub left: bool,
    pub right: bool,
}

impl InputSet {
    pub open spec fn holds(self, direction: Direction) -> bool {
        match direction {
            Direction::UP => self.up,
            Direction::DOWN => self.down,
            Direction::LEFT => self.left,
            Direction::RIGHT => self.right,
        }
    }

    /// The set with `direction` held or let go, as `held` says.
    pub open spec fn with(self, direction: Direction, held: bool) -> InputSet {
        match direction {
            Direction::UP => InputSet { up: held, ..self },
            Direction::DOWN => InputSet { down: held, ..self },
            Direction::LEFT => InputSet { left: held, ..self },
            Direction::RIGHT => InputSet { right: held, ..self },
        }
    }

    /// The set after a key was pressed or let go: unchanged where the key
    /// stands for no direction.
    pub open spec fn with_key(self, direction: Option<Direction>, held: bool) -> InputSet {
        match direction {
            Some(d) => self.with(d, held),
            None => self,
        }
    }

    /// No direction is held.
    pub fn new() -> (set: InputSet)
        ensures
            forall|d: Direction| !set.holds(d),
    {
        InputSet { up: false, down: false, left: false, right: false }
    }

    pub fn contains(&self, direction: Direction) -> (held: bool)
        ensures
            held == self.holds(direction),
    {
        match direction {
            Direction::UP => self.up,
            Direction::DOWN => self.down,
            Direction::LEFT => self.left,
            Direction::RIGHT => self.right,
        }
    }

    pub fn insert(&mut self, direction: Direction)
        ensures
            *final(self) == old(self).with(direction, true),
    {
        match direction {
            Direction::UP => self.up = true,
            Direction::DOWN => self.down = true,
            Direction::LEFT => self.left = true,
            Direction::RIGHT => self.right = true,
        }
    }

    pub fn remove(&mut self, direction: Direction)
        ensures
            *final(self) == old(self).with(direction, false),
    {
        match direction {
            Direction::UP => self.up = false,
            Direction::DOWN => self.down = false,
            Direction::LEFT => self.left = false,
            Direction::RIGHT => self.right = false,
        }
    }
}

/// Where a camera at `position` stands after one move in `direction`, made
/// where the direction is held and the move ends within the coordinate
/// limit.
pub open spec fn moved_if_held(position: Point, held: InputSet, direction: Direction, dt: u32) -> Point {
    if held.holds(direction) && movable(position, direction, dt) {
        let to = destination(position, direction, dt);
        Point { x: to.0 as i32, y: to.1 as i32 }
    } else {
        position
    }
}

/// Where a camera at `position` stands after the moves of one frame: up,
/// down, left and right in turn, each where it is held.
pub open spec fn steered(position: Point, held: InputSet, dt: u32) -> Point {
    moved_if_held(
        moved_if_held(
            moved_if_held(
                moved_if_held(position, held, Direction::UP, dt),
                held,
                Direction::DOWN,
                dt,
            ),
            held,
            Direction::LEFT,
            dt,
        ),
        held,
        Direction::RIGHT,
        dt,
    )
}

/// The scene: the camera with its rays, the walls, the directions held, and
/// whether the scene stands still.
#[derive(Debug)]
pub struct Raycaster {
    pub camera: Camera,
    pub map: WallMap,
    pub input_set: InputSet,
    pub paused: bool,
    pub game_over: bool,
}

impl Raycaster {
    pub open spec fn wf(&self) -> bool {
        self.camera.wf() && self.map.wf()
    }

    pub fn is_valid(&self) -> (ok: bool)
        ensures
            ok == self.wf(),
    {
        self.camera.is_valid() && self.map.is_valid()
    }

    /// The scene stands still: it is paused or over.
    pub open spec fn halted(&self) -> bool {
        self.paused || self.game_over
    }

    /// The built-in scene, with the camera in the middle of the screen and
    /// one ray for each heading.
    pub fn new(headings: &Vec<Heading>) -> (raycaster: Raycaster)
        requires
            forall|i: int| 0 <= i < headings@.len() ==> (#[trigger] headings@[i]).reach.is_offset(),
        ensures
            raycaster.camera.position == (Point { x: 512_000, y: 512_000 }),
            raycaster.camera.rays@.len() == headings@.len(),
            forall|i: int|
                0 <= i < headings@.len() ==> #[trigger] raycaster.camera.rays@[i]
                    == Ray::at_full_length(
                    raycaster.camera.position,
                    headings@[i].reach,
                    headings@[i].angle,
                    true,
                ),
            raycaster.map.walls@ == seq![crate::wall_map::top_wall(), crate::wall_map::corner_wall()],
            raycaster.input_set == (InputSet { up: false, down: false, left: false, right: false }),
            !raycaster.paused,
            !raycaster.game_over,
            raycaster.wf(),
    {
        let position: Point = Point::new(SCREEN_SIZE / 2, SCREEN_SIZE / 2);
        Raycaster {
            camera: Camera::new(position, headings),
            map: WallMap::new(),
            input_set: InputSet { up: false, down: false, left: false, right: false },
            paused: false,
            game_over: false,
        }
    }

    /// Moves the camera once for `direction` where it is held and the move
    /// ends within the coordinate limit.
    fn move_if_held(&mut self, direction: Direction, dt: u32)
        requires
            old(self).wf(),
        ensures
            final(self).camera.position == moved_if_held(
                old(self).camera.position,
                old(self).input_set,
                direction,
                dt,
            ),
            final(self).camera.rays@.len() == old(self).camera.rays@.len(),
            forall|i: int|
                0 <= i < final(self).camera.rays@.len() ==> #[trigger] final(self).camera.rays@[i]
                    == old(self).camera.rays@[i].translated(final(self).camera.position),
            final(self).map == old(self).map,
            final(self).input_set == old(self).input_set,
            final(self).paused == old(self).paused,
            final(self).game_over == old(self).game_over,
            final(self).wf(),
    {
        if self.input_set.contains(direction) && self.camera.can_move(direction, dt) {
            self.camera.move_camera(direction, dt);
        }
    }

    /// Moves the camera for the directions that are held, for `dt`
    /// microseconds each, and every ray with it.
    pub fn handle_input(&mut self, dt: u32)
        requires
            old(self).wf(),
        ensures
            final(self).camera.position == steered(
                old(self).camera.position,
                old(self).input_set,
                dt,
            ),
            final(self).camera.rays@.len() == old(self).camera.rays@.len(),
            forall|i: int|
                0 <= i < final(self).camera.rays@.len() ==> #[trigger] final(self).camera.rays@[i]
                    == old(self).camera.rays@[i].translated(final(self).camera.position),
            final(self).map == old(self).map,
            final(self).input_set == old(self).input_set,
            final(self).paused == old(self).paused,
            final(self).game_over == old(self).game_over,
            final(self).wf(),
    {
        self.move_if_held(Direction::UP, dt);
        self.move_if_held(Direction::DOWN, dt);
        self.move_if_held(Direction::LEFT, dt);
        self.move_if_held(Direction::RIGHT, dt);
    }

    /// Casts every ray afresh: each is put back to its full length and then
    /// tested against every wall, in the order of the walls.
    pub fn update_rays(&mut self)
        requires
            old(self).wf(),
        ensures
            final(self).camera.position == old(self).camera.position,
            final(self).camera.rays@.len() == old(self).camera.rays@.len(),
            forall|i: int|
                0 <= i < final(self).camera.rays@.len() ==> #[trigger] final(self).camera.rays@[i]
                    == old(self).camera.rays@[i].reset().swept(old(self).map.walls@),
            final(self).map == old(self).map,
            final(self).input_set == old(self).input_set,
            final(self).paused == old(self).paused,
            final(self).game_over == old(self).game_over,
            final(self).wf(),
    {
        let position: Point = self.camera.position;
        let mut i: usize = 0;
        while i < self.camera.rays.len()
            invariant
                i <= self.camera.rays@.len(),
                old(self).wf(),
                self.camera.position == position,
                position == old(self).camera.position,
                self.camera.rays@.len() == old(self).camera.rays@.len(),
                forall|j: int|
                    0 <= j < i ==> #[trigger] self.camera.rays@[j] == old(
                        self,
                    ).camera.rays@[j].reset().swept(old(self).map.walls@),
                forall|j: int|
                    0 <= j < i ==> (#[trigger] self.camera.rays@[j]).wf()
                        && self.camera.rays@[j].start_point == position,
                forall|j: int|
                    i <= j < self.camera.rays@.len() ==> #[trigger] self.camera.rays@[j] == old(
                        self,
                    ).camera.rays@[j],
                self.map == old(self).map,
                self.input_set == old(self).input_set,
                self.paused == old(self).paused,
                self.game_over == old(self).game_over,
            decreases self.camera.rays@.len() - i,
        {
            let mut ray: Ray = self.camera.rays[i];
            // Reset each ray at the start of the frame.
            ray.reset_end_point();
            let ghost fresh = ray;
            let mut k: usize = 0;
            while k < self.map.walls.len()
                invariant
                    k <= self.map.walls@.len(),
                    self.map == old(self).map,
                    old(self).map.wf(),
                    position.in_range(),
                    fresh.wf(),
                    fresh.start_point == position,
                    ray == fresh.swept(self.map.walls@.take(k as int)),
                    ray.wf(),
                    ray.start_point == position,
                decreases self.map.walls@.len() - k,
            {
                let wall: Wall = self.map.walls[k];
                proof {
                    let next = self.map.walls@.take(k + 1);
                    assert(next.drop_last() =~= self.map.walls@.take(k as int));
                    assert(next.last() == wall);
                    assert(ray.translated(position) == ray);
                }
                ray.update_ray(position, wall.start_point, wall.end_point);
                k = k + 1;
            }
            assert(self.map.walls@.take(k as int) =~= self.map.walls@);
            self.camera.rays[i] = ray;
            i = i + 1;
        }
    }

    /// One frame: unless the scene stands still, moves the camera for the
    /// directions held and casts every ray afresh from where it then stands.
    pub fn update(&mut self, dt: u32)
        requires
            old(self).wf(),
        ensures
            old(self).halted() ==> *final(self) == *old(self),
            !old(self).halted() ==> final(self).camera.position == steered(
                old(self).camera.position,
                old(self).input_set,
                dt,
            ),
            final(self).camera.rays@.len() == old(self).camera.rays@.len(),
            !old(self).halted() ==> forall|i: int|
                0 <= i < final(self).camera.rays@.len() ==> #[trigger] final(self).camera.rays@[i]
                    == old(self).camera.rays@[i].translated(
                    final(self).camera.position,
                ).reset().swept(old(self).map.walls@),
            final(self).map == old(self).map,
            final(self).input_set == old(self).input_set,
            final(self).paused == old(self).paused,
            final(self).game_over == old(self).game_over,
            final(self).wf(),
    {
        if self.paused || self.game_over {
            return ;
        }
        self.handle_input(dt);

        self.update_rays();
    }

    /// A key went down: where it stands for a direction and the scene does
    /// not stand still, that direction is held from now on.
    pub fn key_down_event(&mut self, keycode: Option<KeyCode>)
        ensures
            final(self).input_set == (match keycode {
                Some(key) if !old(self).halted() => old(self).input_set.with_key(
                    key_direction(key),
                    true,
                ),
                _ => old(self).input_set,
            }),
            final(self).camera == old(self).camera,
            final(self).map == old(self).map,
            final(self).paused == old(self).paused,
            final(self).game_over == old(self).game_over,
    {
        let register_actions: bool = !self.paused && !self.game_over;

        if let Some(key) = keycode {
            if register_actions {
                self.press(direction_of_key(key));
            }
        }
    }

    /// A key went up: where it stands for a direction, that direction is no
    /// longer held.
    pub fn key_up_event(&mut self, keycode: Option<KeyCode>)
        ensures
            final(self).input_set == (match keycode {
                Some(key) => old(self).input_set.with_key(key_direction(key), false),
                None => old(self).input_set,
            }),
            final(self).camera == old(self).camera,
            final(self).map == old(self).map,
            final(self).paused == old(self).paused,
            final(self).game_over == old(self).game_over,
    {
        if let Some(key) = keycode {
            self.release(direction_of_key(key));
        }
    }

    /// Holds `direction`, if there is one.
    pub fn press(&mut self, direction: Option<Direction>)
        ensures
            final(self).input_set == old(self).input_set.with_key(direction, true),
            final(self).camera == old(self).camera,
            final(self).map == old(self).map,
            final(self).paused == old(self).paused,
            final(self).game_over == old(self).game_over,
    {
        if let Some(d) = direction {
            self.input_set.insert(d);
        }
    }

    /// Lets go of `direction`, if there is one.
    pub fn release(&mut self, direction: Option<Direction>)
        ensures
            final(self).input_set == old(self).input_set.with_key(direction, false),
            final(self).camera == old(self).camera,
            final(self).map == old(self).map,
            final(self).paused == old(self).paused,
            final(self).game_over == old(self).game_over,
    {
        if let Some(d) = direction {
            self.input_set.remove(d);
        }
    }
}

} // verus!

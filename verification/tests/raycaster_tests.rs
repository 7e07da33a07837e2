use ggez::input::keyboard::KeyCode;
use raycaster::camera::{Direction, Heading};
use raycaster::point::Point;
use raycaster::raycaster::{InputSet, Raycaster};
use raycaster::wall::Wall;

fn headings() -> Vec<Heading> {
    vec![
        Heading { angle: 0, reach: Point::new(51_200, 0) },
        Heading { angle: 45, reach: Point::new(36_204, 36_204) },
        Heading { angle: 90, reach: Point::new(0, 51_200) },
        Heading { angle: 180, reach: Point::new(-51_200, 0) },
        Heading { angle: 270, reach: Point::new(0, -51_200) },
    ]
}

#[test]
fn new_raycaster_is_the_built_in_scene() {
    let raycaster = Raycaster::new(&headings());
    assert_eq!(raycaster.camera.position, Point::new(512_000, 512_000));
    assert_eq!(raycaster.camera.rays.len(), 5);
    assert_eq!(raycaster.map.walls.len(), 2);
    assert_eq!(raycaster.input_set, InputSet::new());
    assert!(!raycaster.paused);
    assert!(!raycaster.game_over);
    for ray in &raycaster.camera.rays {
        assert!(ray.intersecting);
    }
}

#[test]
fn input_set_holds_directions() {
    let mut set = InputSet::new();
    assert!(!set.contains(Direction::UP));
    set.insert(Direction::UP);
    set.insert(Direction::LEFT);
    set.insert(Direction::UP);
    assert!(set.contains(Direction::UP));
    assert!(set.contains(Direction::LEFT));
    assert!(!set.contains(Direction::DOWN));
    assert!(!set.contains(Direction::RIGHT));
    set.remove(Direction::UP);
    set.remove(Direction::RIGHT);
    assert!(!set.contains(Direction::UP));
    assert!(set.contains(Direction::LEFT));
}

#[test]
fn arrow_keys_are_held_and_let_go() {
    let mut raycaster = Raycaster::new(&headings());
    raycaster.key_down_event(Some(KeyCode::Up));
    assert_eq!(raycaster.input_set, InputSet { up: true, down: false, left: false, right: false });
    raycaster.key_down_event(Some(KeyCode::Right));
    raycaster.key_down_event(Some(KeyCode::Down));
    raycaster.key_down_event(Some(KeyCode::Left));
    assert_eq!(raycaster.input_set, InputSet { up: true, down: true, left: true, right: true });
    raycaster.key_up_event(Some(KeyCode::Down));
    assert_eq!(raycaster.input_set, InputSet { up: true, down: false, left: true, right: true });
    raycaster.key_up_event(Some(KeyCode::Up));
    raycaster.key_up_event(Some(KeyCode::Left));
    raycaster.key_up_event(Some(KeyCode::Right));
    assert_eq!(raycaster.input_set, InputSet::new());
}

#[test]
fn other_keys_are_ignored() {
    let mut raycaster = Raycaster::new(&headings());
    raycaster.key_down_event(Some(KeyCode::A));
    raycaster.key_down_event(Some(KeyCode::Space));
    raycaster.key_down_event(Some(KeyCode::PageUp));
    raycaster.key_down_event(None);
    assert_eq!(raycaster.input_set, InputSet::new());
    raycaster.key_down_event(Some(KeyCode::Left));
    raycaster.key_up_event(Some(KeyCode::A));
    raycaster.key_up_event(None);
    assert_eq!(raycaster.input_set, InputSet { up: false, down: false, left: true, right: false });
}

#[test]
fn keys_are_not_held_while_halted() {
    let mut raycaster = Raycaster::new(&headings());
    raycaster.paused = true;
    raycaster.key_down_event(Some(KeyCode::Up));
    assert_eq!(raycaster.input_set, InputSet::new());
    raycaster.paused = false;
    raycaster.game_over = true;
    raycaster.key_down_event(Some(KeyCode::Up));
    assert_eq!(raycaster.input_set, InputSet::new());
    raycaster.game_over = false;
    raycaster.key_down_event(Some(KeyCode::Up));
    raycaster.paused = true;
    raycaster.key_up_event(Some(KeyCode::Up));
    assert_eq!(raycaster.input_set, InputSet::new());
}

#[test]
fn press_and_release_take_a_direction() {
    let mut raycaster = Raycaster::new(&headings());
    raycaster.press(Some(Direction::DOWN));
    raycaster.press(None);
    assert_eq!(raycaster.input_set, InputSet { up: false, down: true, left: false, right: false });
    raycaster.release(None);
    assert_eq!(raycaster.input_set, InputSet { up: false, down: true, left: false, right: false });
    raycaster.release(Some(Direction::DOWN));
    assert_eq!(raycaster.input_set, InputSet::new());
}

#[test]
fn held_directions_combine() {
    let mut raycaster = Raycaster::new(&headings());
    raycaster.key_down_event(Some(KeyCode::Up));
    raycaster.key_down_event(Some(KeyCode::Left));
    raycaster.handle_input(1_000_000);
    assert_eq!(raycaster.camera.position, Point::new(256_000, 256_000));
    for ray in &raycaster.camera.rays {
        assert_eq!(ray.start_point, Point::new(256_000, 256_000));
    }
    raycaster.key_down_event(Some(KeyCode::Down));
    raycaster.handle_input(500_000);
    assert_eq!(raycaster.camera.position, Point::new(128_000, 256_000));
}

#[test]
fn a_move_past_the_limit_is_not_made() {
    let mut raycaster = Raycaster::new(&headings());
    raycaster.camera =
        raycaster::camera::Camera::new(Point::new(536_870_912, 536_870_000), &headings());
    raycaster.key_down_event(Some(KeyCode::Right));
    raycaster.key_down_event(Some(KeyCode::Down));
    raycaster.handle_input(1_000_000);
    assert_eq!(raycaster.camera.position, Point::new(536_870_912, 536_870_000));
    raycaster.handle_input(3_000);
    assert_eq!(raycaster.camera.position, Point::new(536_870_912, 536_870_768));
}

#[test]
fn update_rays_casts_against_the_built_in_walls() {
    let mut raycaster = Raycaster::new(&headings());
    raycaster.update_rays();
    let rays = &raycaster.camera.rays;
    // +x: passes exactly through the end of the corner wall, which is no hit.
    assert!(!rays[0].intersecting);
    assert_eq!(rays[0].end_point(), Point::new(563_200, 512_000));
    // 45 degrees: meets the corner wall in its middle.
    assert!(rays[1].intersecting);
    assert_eq!(rays[1].end_point(), Point::new(716_800, 716_800));
    // +y: passes exactly through the start of the corner wall.
    assert!(!rays[2].intersecting);
    assert_eq!(rays[2].end_point(), Point::new(512_000, 563_200));
    // -x: nothing there.
    assert!(!rays[3].intersecting);
    assert_eq!(rays[3].end_point(), Point::new(460_800, 512_000));
    // -y: meets the top wall in its middle.
    assert!(rays[4].intersecting);
    assert_eq!(rays[4].end_point(), Point::new(512_000, 87_040));
}

#[test]
fn update_moves_then_casts() {
    let mut raycaster = Raycaster::new(&headings());
    raycaster.map.walls = vec![
        Wall::new(&Point::new(600_000, 0), &Point::new(600_000, 1_000_000)),
        Wall::new(&Point::new(580_000, 0), &Point::new(580_000, 1_000_000)),
    ];
    raycaster.key_down_event(Some(KeyCode::Right));
    raycaster.update(100_000);
    assert_eq!(raycaster.camera.position, Point::new(537_600, 512_000));
    let rays = &raycaster.camera.rays;
    assert!(rays[0].intersecting);
    assert_eq!(rays[0].end_point(), Point::new(580_000, 512_000));
    assert!(rays[1].intersecting);
    assert_eq!(rays[1].end_point(), Point::new(580_000, 554_400));
    assert!(!rays[2].intersecting);
    assert_eq!(rays[2].end_point(), Point::new(537_600, 563_200));
    assert!(!rays[3].intersecting);
    assert!(!rays[4].intersecting);

    // The same walls in the other order give the same rays.
    let mut other = Raycaster::new(&headings());
    other.map.walls = vec![
        Wall::new(&Point::new(580_000, 0), &Point::new(580_000, 1_000_000)),
        Wall::new(&Point::new(600_000, 0), &Point::new(600_000, 1_000_000)),
    ];
    other.key_down_event(Some(KeyCode::Right));
    other.update(100_000);
    for (a, b) in raycaster.camera.rays.iter().zip(other.camera.rays.iter()) {
        assert_eq!(a.intersecting, b.intersecting);
        assert_eq!(a.end_point(), b.end_point());
    }
}

#[test]
fn update_does_nothing_while_halted() {
    let mut raycaster = Raycaster::new(&headings());
    raycaster.key_down_event(Some(KeyCode::Right));
    raycaster.paused = true;
    raycaster.update(1_000_000);
    assert_eq!(raycaster.camera.position, Point::new(512_000, 512_000));
    for ray in &raycaster.camera.rays {
        assert!(ray.intersecting);
    }
    raycaster.paused = false;
    raycaster.game_over = true;
    raycaster.update(1_000_000);
    assert_eq!(raycaster.camera.position, Point::new(512_000, 512_000));
    raycaster.game_over = false;
    raycaster.update(1_000_000);
    assert_eq!(raycaster.camera.position, Point::new(768_000, 512_000));
}

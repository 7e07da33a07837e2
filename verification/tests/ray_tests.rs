use raycaster::point::Point;
use raycaster::ray::Ray;
use raycaster::wall::Wall;

fn forward_ray() -> Ray {
    // From (500, 500), pointing in +x, full length 50.
    let mut ray = Ray::new(&Point::new(500, 500), &Point::new(550, 500), 0);
    ray.reset_end_point();
    ray
}

#[test]
fn new_ray_is_at_full_length_and_marked() {
    let ray = Ray::new(&Point::new(500, 500), &Point::new(550, 500), 0);
    assert!(ray.is_valid());
    assert!(ray.intersecting);
    assert_eq!(ray.start_point, Point::new(500, 500));
    assert_eq!(ray.reach, Point::new(50, 0));
    assert_eq!(ray.end_point(), Point::new(550, 500));
    assert_eq!(ray.angle, 0);
}

#[test]
fn with_reach_matches_new() {
    let a = Ray::new(&Point::new(10, -20), &Point::new(13, -16), 53);
    let b = Ray::with_reach(&Point::new(10, -20), &Point::new(3, 4), 53);
    assert_eq!(a, b);
}

#[test]
fn wall_ahead_is_hit() {
    let mut ray = forward_ray();
    ray.check_intersects(Point::new(520, 480), Point::new(520, 520));
    assert!(ray.intersecting);
    assert_eq!(ray.end_point(), Point::new(520, 500));
    assert_eq!(ray.hit_num * 50, ray.hit_den * 20);
    assert!(ray.is_valid());
}

#[test]
fn nearer_wall_wins_near_first() {
    let mut ray = forward_ray();
    ray.check_intersects(Point::new(520, 480), Point::new(520, 520));
    ray.check_intersects(Point::new(530, 480), Point::new(530, 520));
    assert!(ray.intersecting);
    assert_eq!(ray.end_point(), Point::new(520, 500));
}

#[test]
fn nearer_wall_wins_far_first() {
    let mut ray = forward_ray();
    ray.check_intersects(Point::new(530, 480), Point::new(530, 520));
    assert_eq!(ray.end_point(), Point::new(530, 500));
    ray.check_intersects(Point::new(520, 480), Point::new(520, 520));
    assert!(ray.intersecting);
    assert_eq!(ray.end_point(), Point::new(520, 500));
}

#[test]
fn wall_behind_is_not_hit() {
    let mut ray = forward_ray();
    let before = ray;
    ray.check_intersects(Point::new(480, 480), Point::new(480, 520));
    assert!(!ray.intersecting);
    assert_eq!(ray.end_point(), Point::new(550, 500));
    assert_eq!(ray, before);
}

#[test]
fn forward_half_is_negative_u() {
    // With the wall's points and the ray's points in this order, u is
    // -0.4 for the wall 20 ahead of a ray of length 50, and +0.4 for the wall
    // 20 behind: only the negative one counts.
    let mut ahead = forward_ray();
    ahead.check_intersects(Point::new(520, 480), Point::new(520, 520));
    assert_eq!((ahead.hit_num, ahead.hit_den), (800, 2000));
    let mut behind = forward_ray();
    behind.check_intersects(Point::new(480, 480), Point::new(480, 520));
    assert_eq!((behind.hit_num, behind.hit_den), (1, 1));
    assert!(!behind.intersecting);
}

#[test]
fn wall_beyond_full_length_is_hit_after_reset() {
    let mut ray = forward_ray();
    ray.check_intersects(Point::new(800, 400), Point::new(800, 600));
    assert!(ray.intersecting);
    assert_eq!(ray.end_point(), Point::new(800, 500));
}

#[test]
fn wall_beyond_full_length_is_ignored_without_reset() {
    let mut ray = Ray::new(&Point::new(500, 500), &Point::new(550, 500), 0);
    ray.check_intersects(Point::new(800, 400), Point::new(800, 600));
    assert!(ray.intersecting);
    assert_eq!(ray.end_point(), Point::new(550, 500));
    ray.check_intersects(Point::new(520, 480), Point::new(520, 520));
    assert_eq!(ray.end_point(), Point::new(520, 500));
}

#[test]
fn parallel_wall_changes_nothing() {
    let mut ray = forward_ray();
    let before = ray;
    ray.check_intersects(Point::new(510, 490), Point::new(560, 490));
    assert_eq!(ray, before);
    assert!(!ray.intersecting);
}

#[test]
fn coincident_wall_changes_nothing() {
    let mut ray = forward_ray();
    let before = ray;
    ray.check_intersects(Point::new(510, 500), Point::new(560, 500));
    assert_eq!(ray, before);
}

#[test]
fn zero_length_wall_changes_nothing() {
    let mut ray = forward_ray();
    let before = ray;
    ray.check_intersects(Point::new(520, 500), Point::new(520, 500));
    assert_eq!(ray, before);
}

#[test]
fn wall_endpoints_are_not_hits() {
    let mut ray = forward_ray();
    let before = ray;
    // The ray passes exactly through the wall's first point (t = 0).
    ray.check_intersects(Point::new(520, 500), Point::new(520, 540));
    assert_eq!(ray, before);
    // ... and exactly through its second point (t = 1).
    ray.check_intersects(Point::new(520, 460), Point::new(520, 500));
    assert_eq!(ray, before);
    // One unit further the wall is hit.
    ray.check_intersects(Point::new(520, 460), Point::new(520, 501));
    assert!(ray.intersecting);
    assert_eq!(ray.end_point(), Point::new(520, 500));
}

#[test]
fn equally_near_wall_does_not_replace() {
    let mut ray = forward_ray();
    ray.check_intersects(Point::new(520, 480), Point::new(520, 520));
    let first = ray;
    ray.check_intersects(Point::new(510, 490), Point::new(530, 510));
    assert_eq!(ray, first);

    let mut other = forward_ray();
    other.check_intersects(Point::new(510, 490), Point::new(530, 510));
    other.check_intersects(Point::new(520, 480), Point::new(520, 520));
    assert_eq!(other.end_point(), first.end_point());
    assert_eq!(other.intersecting, first.intersecting);
    assert_eq!(other.hit_num * first.hit_den, first.hit_num * other.hit_den);
}

#[test]
fn end_is_rounded_down() {
    // Meets x = 1 at y = 1/3.
    let mut up = Ray::new(&Point::new(0, 0), &Point::new(3, 1), 18);
    up.reset_end_point();
    up.check_intersects(Point::new(1, -5), Point::new(1, 5));
    assert!(up.intersecting);
    assert_eq!(up.end_point(), Point::new(1, 0));
    assert_eq!(up.hit_num * 3, up.hit_den);

    // Meets x = 1 at y = -1/3.
    let mut down = Ray::new(&Point::new(0, 0), &Point::new(3, -1), 342);
    down.reset_end_point();
    down.check_intersects(Point::new(1, -5), Point::new(1, 5));
    assert!(down.intersecting);
    assert_eq!(down.end_point(), Point::new(1, -1));
    assert_eq!((down.hit_num, down.hit_den), (10, 30));
    assert!(down.is_valid());
}

#[test]
fn order_of_walls_does_not_matter() {
    let walls = [
        Wall::new(&Point::new(540, 400), &Point::new(540, 600)),
        Wall::new(&Point::new(515, 490), &Point::new(535, 510)),
        Wall::new(&Point::new(480, 480), &Point::new(480, 520)),
        Wall::new(&Point::new(510, 490), &Point::new(560, 490)),
        Wall::new(&Point::new(530, 520), &Point::new(530, 480)),
    ];
    let orders: [[usize; 5]; 4] =
        [[0, 1, 2, 3, 4], [4, 3, 2, 1, 0], [1, 0, 4, 2, 3], [2, 4, 0, 3, 1]];
    for order in orders {
        let mut ray = forward_ray();
        for i in order {
            ray.check_intersects(walls[i].start_point, walls[i].end_point);
        }
        assert!(ray.intersecting);
        assert_eq!(ray.end_point(), Point::new(525, 500));
    }
}

#[test]
fn reset_twice_is_reset_once() {
    let mut ray = Ray::new(&Point::new(500, 500), &Point::new(530, 540), 53);
    ray.check_intersects(Point::new(400, 520), Point::new(600, 520));
    assert_eq!(ray.end_point(), Point::new(515, 520));
    ray.reset_end_point();
    assert!(!ray.intersecting);
    assert_eq!(ray.end_point(), Point::new(530, 540));
    let once = ray;
    ray.reset_end_point();
    assert_eq!(ray, once);
    assert!(!ray.intersecting);
    assert_eq!(ray.end_point(), Point::new(530, 540));
}

#[test]
fn translation_keeps_shape() {
    let mut ray = forward_ray();
    ray.check_intersects(Point::new(520, 480), Point::new(520, 520));
    let before = ray;
    ray.translate_origin(Point::new(510, 495));
    assert_eq!(ray.start_point, Point::new(510, 495));
    assert_eq!(ray.end_point(), Point::new(530, 495));
    assert_eq!(ray.offset, before.offset);
    assert_eq!(ray.intersecting, before.intersecting);
    assert_eq!(ray.reach, before.reach);
    assert_eq!(ray.angle, before.angle);
    assert!(ray.is_valid());
}

#[test]
fn update_ray_moves_then_tests() {
    let mut ray = forward_ray();
    ray.update_ray(Point::new(490, 500), Point::new(520, 480), Point::new(520, 520));
    assert_eq!(ray.start_point, Point::new(490, 500));
    assert!(ray.intersecting);
    assert_eq!(ray.end_point(), Point::new(520, 500));

    let mut missed = forward_ray();
    missed.update_ray(Point::new(530, 500), Point::new(520, 480), Point::new(520, 520));
    assert!(!missed.intersecting);
    assert_eq!(missed.end_point(), Point::new(580, 500));
}

#[test]
fn validity_checks() {
    assert!(Point::new(536_870_912, -536_870_912).is_in_range());
    assert!(!Point::new(536_870_913, 0).is_in_range());
    assert!(!Point::new(0, -536_870_913).is_in_range());
    assert!(Point::new(1_073_741_824, -1_073_741_824).is_within_offset());
    assert!(!Point::new(1_073_741_825, 0).is_within_offset());
    assert!(Wall::new(&Point::new(1, 2), &Point::new(3, 4)).is_valid());
    assert!(!Wall::new(&Point::new(1, 2), &Point::new(3, 536_870_913)).is_valid());
    let mut ray = forward_ray();
    assert!(ray.is_valid());
    ray.offset = Point::new(49, 0);
    assert!(!ray.is_valid());
    ray.offset = Point::new(50, 0);
    ray.hit_den = 0;
    assert!(!ray.is_valid());
}

#[test]
fn far_corners_stay_exact() {
    let limit = 536_870_912;
    let mut ray = Ray::new(&Point::new(-limit, -limit), &Point::new(limit, limit), 45);
    ray.reset_end_point();
    ray.check_intersects(Point::new(-limit, limit), Point::new(limit, -limit));
    assert!(ray.intersecting);
    assert_eq!(ray.end_point(), Point::new(0, 0));
    assert_eq!(ray.hit_num * 2, ray.hit_den);
    assert!(ray.is_valid());
}

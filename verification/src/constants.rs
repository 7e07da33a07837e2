use vstd::prelude::*;

verus! {

/// Length units per screen pixel: every coordinate of the library is an
/// integer count of these units.
pub const UNITS_PER_PIXEL: i32 = 1024;

/// Largest magnitude a coordinate of a position may have, in length units.
pub const COORD_LIMIT: i32 = 536_870_912;

/// Largest magnitude a coordinate of a displacement between two positions
/// may have, in length units.
pub const OFFSET_LIMIT: i32 = 1_073_741_824;

/// Largest numerator or denominator of the fraction that places a hit
/// along a ray.
pub const FRACTION_LIMIT: i64 = 2_305_843_009_213_693_952;

/// Number of grid cells along each axis of the screen.
pub const GRID_SIZE: i32 = 100;

/// Side of one grid cell, in pixels.
pub const GRID_CELL_DIM: i32 = 10;

/// Side of the square screen, in length units.
pub const SCREEN_SIZE: i32 = GRID_SIZE * GRID_CELL_DIM * UNITS_PER_PIXEL;

/// Speed of the camera, in pixels per second.
pub const CAMERA_SPEED: i32 = 250;

/// Angle that the fan of rays spans, in degrees.
pub const CAMERA_FIELD_OF_VIEW: u32 = 360;

/// Angle between neighbouring rays of the fan, in degrees.
pub const RAY_ANGLE_INCREMENT: u32 = 10;

/// Full length of a ray, in length units.
pub const RAY_LENGTH: i32 = 50 * UNITS_PER_PIXEL;

/// Microseconds in a second: elapsed time is counted in microseconds.
pub const MICROS_PER_SECOND: i64 = 1_000_000;

} // verus!

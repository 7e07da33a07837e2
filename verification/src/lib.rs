//! Ray casting in the plane: a camera casts a fan of rays, and each ray ends
//! at the nearest wall that it meets.
//!
//! All coordinates are whole numbers of length units, and every test is made
//! in exact integer arithmetic: the place where a ray ends is kept as a
//! fraction of its full length, so that the result of testing a set of walls
//! does not depend on the order in which they are tested.

pub mod arith;
pub mod camera;
pub mod constants;
pub mod intersect;
pub mod keys;
pub mod point;
pub mod ray;
pub mod raycaster;
pub mod sweep;
pub mod wall;
pub mod wall_map;

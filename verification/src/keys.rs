use vstd::prelude::*;
use ggez::input::keyboard::KeyCode;
use crate::camera::Direction;

verus! {

#[verifier::external_type_specification]
#[verifier::external_body]
pub struct ExKeyCode(ggez::input::keyboard::KeyCode);

/// The direction that a key stands for: the four arrow keys stand for the
/// four directions, any other key for none.
pub uninterp spec fn key_direction(key: KeyCode) -> Option<Direction>;

/// Tells the arrow keys of `ggez::input::keyboard::KeyCode` apart: `Up`,
/// `Down`, `Left` and `Right` give their direction, every other key gives
/// `None`. The result is named `key_direction`.
#[verifier::external_body]
pub(crate) fn direction_of_key(key: KeyCode) -> (direction: Option<Direction>)
    ensures
        direction == key_direction(key),
{
    match key {
        KeyCode::Up => Some(Direction::UP),
        KeyCode::Down => Some(Direction::DOWN),
        KeyCode::Left => Some(Direction::LEFT),
        KeyCode::Right => Some(Direction::RIGHT),
        _ => None,
    }
}

} // verus!

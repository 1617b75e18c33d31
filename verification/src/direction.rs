//! The four directions in which the cursor moves over the board.

use vstd::prelude::*;
use vstd::string::*;

verus! {

/// A direction on the board, seen from the side of white.
#[derive(Debug, PartialEq, Eq, Copy, Clone, Structural)]
pub enum Direction {
    Up,
    Right,
    Down,
    Left,
}

/// The English name of a direction.
pub open spec fn name_of(direction: Direction) -> Seq<char> {
    match direction {
        Direction::Up => "Up"@,
        Direction::Right => "Right"@,
        Direction::Down => "Down"@,
        Direction::Left => "Left"@,
    }
}

/// Convert a `Direction` to a `String`.
pub fn to_str(direction: Direction) -> (name: String)
    ensures
        name@ == name_of(direction),
{
    match direction {
        Direction::Up => "Up".to_string(),
        Direction::Right => "Right".to_string(),
        Direction::Down => "Down".to_string(),
        Direction::Left => "Left".to_string(),
    }
}

} // verus!

//! The two sides of a chess game. Squares are coloured with the same type.

use vstd::prelude::*;
use vstd::string::*;

verus! {

/// A side, or the shade of a square.
#[derive(Debug, PartialEq, Eq, Copy, Clone, Structural)]
pub enum Color {
    Black,
    White,
}

/// The English name of a colour.
pub open spec fn name_of(color: Color) -> Seq<char> {
    match color {
        Color::Black => "Black"@,
        Color::White => "White"@,
    }
}

/// Convert a `Color` to a `String`.
pub fn to_str(color: Color) -> (name: String)
    ensures
        name@ == name_of(color),
{
    match color {
        Color::Black => "Black".to_string(),
        Color::White => "White".to_string(),
    }
}

} // verus!

//! The ways in which a request to this library can be refused.

use vstd::prelude::*;
use vstd::string::*;

verus! {

/// What is wrong with a text that should name a square.
#[derive(Debug, PartialEq, Eq, Copy, Clone, Structural)]
pub enum CoordinateFault {
    /// The text is not two bytes long.
    Length,
    /// The text does not start with a file letter followed by one more
    /// character on the same line.
    File,
    /// The text does not end in a rank digit.
    Rank,
}

/// What a request needed and did not find.
#[derive(Debug, PartialEq, Eq, Copy, Clone, Structural)]
pub enum Precondition {
    /// A piece on the square that the request names.
    PieceAtSquare,
    /// A piece of the current player under the cursor.
    SelectablePiece,
}

/// A refused request.
#[derive(Debug, PartialEq, Eq, Copy, Clone, Structural)]
pub enum Error {
    /// A text does not name a square.
    InvalidCoordinate(CoordinateFault),
    /// An index does not lie on the board.
    OutOfRange,
    /// The board or the cursor is not in the state that the request needs.
    PreconditionViolated(Precondition),
}

/// The message that belongs to an error.
pub open spec fn message_of(error: Error) -> Seq<char> {
    match error {
        Error::InvalidCoordinate(CoordinateFault::Length) => "A coordinat has two characters"@,
        Error::InvalidCoordinate(CoordinateFault::File) => "The file must be 'a..h'"@,
        Error::InvalidCoordinate(CoordinateFault::Rank) => "The rank must be '1..8'"@,
        Error::OutOfRange => "Use a rank_index from [0..8]"@,
        Error::PreconditionViolated(Precondition::PieceAtSquare) => "There must be a piece at the square"@,
        Error::PreconditionViolated(Precondition::SelectablePiece) => "There must be a piece of the current player at the cursor"@,
    }
}

/// Convert an `Error` to the `String` that describes it.
pub fn to_str(error: Error) -> (message: String)
    ensures
        message@ == message_of(error),
{
    match error {
        Error::InvalidCoordinate(CoordinateFault::Length) => "A coordinat has two characters".to_string(),
        Error::InvalidCoordinate(CoordinateFault::File) => "The file must be 'a..h'".to_string(),
        Error::InvalidCoordinate(CoordinateFault::Rank) => "The rank must be '1..8'".to_string(),
        Error::OutOfRange => "Use a rank_index from [0..8]".to_string(),
        Error::PreconditionViolated(Precondition::PieceAtSquare) => "There must be a piece at the square".to_string(),
        Error::PreconditionViolated(Precondition::SelectablePiece) => "There must be a piece of the current player at the cursor".to_string(),
    }
}

} // verus!

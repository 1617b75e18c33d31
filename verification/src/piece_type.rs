//! The six kinds of chess piece.

use vstd::prelude::*;
use vstd::string::*;

verus! {

/// The type of a chess piece.
#[derive(Debug, PartialEq, Eq, Copy, Clone, Structural)]
pub enum PieceType {
    Bishop,
    King,
    Knight,
    Pawn,
    Queen,
    Rook,
}

/// The English name of a piece type.
pub open spec fn name_of(piece_type: PieceType) -> Seq<char> {
    match piece_type {
        PieceType::Bishop => "Bishop"@,
        PieceType::King => "King"@,
        PieceType::Knight => "Knight"@,
        PieceType::Pawn => "Pawn"@,
        PieceType::Queen => "Queen"@,
        PieceType::Rook => "Rook"@,
    }
}

/// Convert a `PieceType` to a `String`.
pub fn to_str(piece_type: PieceType) -> (name: String)
    ensures
        name@ == name_of(piece_type),
{
    match piece_type {
        PieceType::Bishop => "Bishop".to_string(),
        PieceType::King => "King".to_string(),
        PieceType::Knight => "Knight".to_string(),
        PieceType::Pawn => "Pawn".to_string(),
        PieceType::Queen => "Queen".to_string(),
        PieceType::Rook => "Rook".to_string(),
    }
}

} // verus!

//! Chess pieces.

use vstd::prelude::*;

use crate::color::Color;
use crate::piece_type::PieceType;

verus! {

/// A chess piece: a piece type in one of the two colours.
#[derive(Debug, PartialEq, Eq, Copy, Clone, Structural)]
pub struct Piece {
    pub color: Color,
    pub piece_type: PieceType,
}

impl Piece {
    /// A copy of the piece.
    pub fn clone(&self) -> (copy: Piece)
        ensures
            copy == *self,
    {
        Piece { color: self.color, piece_type: self.piece_type }
    }

    /// The colour of the piece.
    pub fn get_color(&self) -> (color: Color)
        ensures
            color == self.color,
    {
        self.color
    }

    /// The type of the piece.
    pub fn get_type(&self) -> (piece_type: PieceType)
        ensures
            piece_type == self.piece_type,
    {
        self.piece_type
    }
}

/// Create a black bishop.
pub fn create_black_bishop() -> (piece: Piece)
    ensures
        piece == (Piece { color: Color::Black, piece_type: PieceType::Bishop }),
{
    Piece { color: Color::Black, piece_type: PieceType::Bishop }
}

/// Create a black king.
pub fn create_black_king() -> (piece: Piece)
    ensures
        piece == (Piece { color: Color::Black, piece_type: PieceType::King }),
{
    Piece { color: Color::Black, piece_type: PieceType::King }
}

/// Create a black knight.
pub fn create_black_knight() -> (piece: Piece)
    ensures
        piece == (Piece { color: Color::Black, piece_type: PieceType::Knight }),
{
    Piece { color: Color::Black, piece_type: PieceType::Knight }
}

/// Create a black pawn.
pub fn create_black_pawn() -> (piece: Piece)
    ensures
        piece == (Piece { color: Color::Black, piece_type: PieceType::Pawn }),
{
    Piece { color: Color::Black, piece_type: PieceType::Pawn }
}

/// Create a black queen.
pub fn create_black_queen() -> (piece: Piece)
    ensures
        piece == (Piece { color: Color::Black, piece_type: PieceType::Queen }),
{
    Piece { color: Color::Black, piece_type: PieceType::Queen }
}

/// Create a black rook.
pub fn create_black_rook() -> (piece: Piece)
    ensures
        piece == (Piece { color: Color::Black, piece_type: PieceType::Rook }),
{
    Piece { color: Color::Black, piece_type: PieceType::Rook }
}

/// Create the eight pawns with which black starts.
pub fn create_black_starting_pawns() -> (pieces: Vec<Piece>)
    ensures
        pieces@ == Seq::new(8, |i: int| Piece { color: Color::Black, piece_type: PieceType::Pawn }),
{
    let pawn = create_black_pawn();
    vec![pawn, pawn, pawn, pawn, pawn, pawn, pawn, pawn]
}

/// Create a white bishop.
pub fn create_white_bishop() -> (piece: Piece)
    ensures
        piece == (Piece { color: Color::White, piece_type: PieceType::Bishop }),
{
    Piece { color: Color::White, piece_type: PieceType::Bishop }
}

/// Create a white king.
pub fn create_white_king() -> (piece: Piece)
    ensures
        piece == (Piece { color: Color::White, piece_type: PieceType::King }),
{
    Piece { color: Color::White, piece_type: PieceType::King }
}

/// Create a white knight.
pub fn create_white_knight() -> (piece: Piece)
    ensures
        piece == (Piece { color: Color::White, piece_type: PieceType::Knight }),
{
    Piece { color: Color::White, piece_type: PieceType::Knight }
}

/// Create a white pawn.
pub fn create_white_pawn() -> (piece: Piece)
    ensures
        piece == (Piece { color: Color::White, piece_type: PieceType::Pawn }),
{
    Piece { color: Color::White, piece_type: PieceType::Pawn }
}

/// Create a white queen.
pub fn create_white_queen() -> (piece: Piece)
    ensures
        piece == (Piece { color: Color::White, piece_type: PieceType::Queen }),
{
    Piece { color: Color::White, piece_type: PieceType::Queen }
}

/// Create a white rook.
pub fn create_white_rook() -> (piece: Piece)
    ensures
        piece == (Piece { color: Color::White, piece_type: PieceType::Rook }),
{
    Piece { color: Color::White, piece_type: PieceType::Rook }
}

/// Create the eight pawns with which white starts.
pub fn create_white_starting_pawns() -> (pieces: Vec<Piece>)
    ensures
        pieces@ == Seq::new(8, |i: int| Piece { color: Color::White, piece_type: PieceType::Pawn }),
{
    let pawn = create_white_pawn();
    vec![pawn, pawn, pawn, pawn, pawn, pawn, pawn, pawn]
}

} // verus!

//! A rank, that is a row of the board, and the ranks of the starting
//! position.

use vstd::prelude::*;

use crate::color::Color;
use crate::file_index::FileIndex;
use crate::piece::{
    create_black_bishop, create_black_king, create_black_knight, create_black_pawn,
    create_black_queen, create_black_rook, create_white_bishop, create_white_king,
    create_white_knight, create_white_pawn, create_white_queen, create_white_rook, Piece,
};
use crate::piece_type::PieceType;
use crate::square::Position;

verus! {

/// The type of the piece that starts on the given file of a back rank.
pub open spec fn back_rank_piece_type(file: int) -> PieceType {
    if file == 0 || file == 7 {
        PieceType::Rook
    } else if file == 1 || file == 6 {
        PieceType::Knight
    } else if file == 2 || file == 5 {
        PieceType::Bishop
    } else if file == 3 {
        PieceType::Queen
    } else {
        PieceType::King
    }
}

/// The piece that stands at the given place when a game starts, if any.
pub open spec fn starting_piece(position: Position) -> Option<Piece> {
    if position.rank == 0 {
        Some(Piece { color: Color::White, piece_type: back_rank_piece_type(position.file) })
    } else if position.rank == 1 {
        Some(Piece { color: Color::White, piece_type: PieceType::Pawn })
    } else if position.rank == 6 {
        Some(Piece { color: Color::Black, piece_type: PieceType::Pawn })
    } else if position.rank == 7 {
        Some(Piece { color: Color::Black, piece_type: back_rank_piece_type(position.file) })
    } else {
        None
    }
}

/// The eight slots of the given rank when a game starts, from the 'a' file
/// to the 'h' file.
pub open spec fn starting_rank(rank: int) -> Seq<Option<Piece>> {
    Seq::new(8, |file: int| starting_piece(Position { file, rank }))
}

/// A rank, a row on a chessboard: eight slots that each hold a piece or
/// nothing.
#[derive(Debug, PartialEq, Eq)]
pub struct Rank {
    pieces: Vec<Option<Piece>>,
}

impl View for Rank {
    type V = Seq<Option<Piece>>;

    closed spec fn view(&self) -> Seq<Option<Piece>> {
        self.pieces@
    }
}

impl DeepView for Rank {
    type V = Seq<Option<Piece>>;

    open spec fn deep_view(&self) -> Seq<Option<Piece>> {
        self@
    }
}

impl Clone for Rank {
    /// A copy of the rank, slot by slot.
    fn clone(&self) -> (copy: Rank)
        ensures
            copy@ == self@,
    {
        proof {
            use_type_invariant(self);
        }
        let mut pieces: Vec<Option<Piece>> = Vec::new();
        for file in 0..8usize
            invariant
                self.pieces@.len() == 8,
                pieces@ == self.pieces@.take(file as int),
        {
            pieces.push(self.pieces[file]);
        }
        Rank { pieces }
    }
}

impl Rank {
    /// Every rank has eight slots.
    #[verifier::type_invariant]
    pub open spec fn has_eight_slots(self) -> bool {
        self@.len() == 8
    }

    /// Create a rank from its eight slots, from the 'a' file to the 'h'
    /// file.
    pub fn new(pieces: Vec<Option<Piece>>) -> (rank: Rank)
        requires
            pieces@.len() == 8,
        ensures
            rank@ == pieces@,
    {
        Rank { pieces }
    }

    /// The eight slots, from the 'a' file to the 'h' file.
    pub fn get(&self) -> (pieces: &Vec<Option<Piece>>)
        ensures
            pieces@ == self@,
            pieces@.len() == 8,
    {
        proof {
            use_type_invariant(self);
        }
        &self.pieces
    }
}

/// Get the piece on the given file of a rank, if there is one.
pub fn get_piece(rank: &Rank, file_index: &FileIndex) -> (piece: Option<Piece>)
    ensures
        0 <= file_index@ < 8,
        piece == rank@[file_index@],
{
    rank.get()[file_index.get()]
}

/// Create the slots of the given rank as they are when a game starts.
pub fn create_pieces_from_rank_index(rank_index: u8) -> (pieces: Vec<Option<Piece>>)
    requires
        rank_index <= 7,
    ensures
        pieces@ == starting_rank(rank_index as int),
{
    match rank_index {
        0 => vec![
            Some(create_white_rook()),
            Some(create_white_knight()),
            Some(create_white_bishop()),
            Some(create_white_queen()),
            Some(create_white_king()),
            Some(create_white_bishop()),
            Some(create_white_knight()),
            Some(create_white_rook()),
        ],
        1 => vec![
            Some(create_white_pawn()),
            Some(create_white_pawn()),
            Some(create_white_pawn()),
            Some(create_white_pawn()),
            Some(create_white_pawn()),
            Some(create_white_pawn()),
            Some(create_white_pawn()),
            Some(create_white_pawn()),
        ],
        6 => vec![
            Some(create_black_pawn()),
            Some(create_black_pawn()),
            Some(create_black_pawn()),
            Some(create_black_pawn()),
            Some(create_black_pawn()),
            Some(create_black_pawn()),
            Some(create_black_pawn()),
            Some(create_black_pawn()),
        ],
        7 => vec![
            Some(create_black_rook()),
            Some(create_black_knight()),
            Some(create_black_bishop()),
            Some(create_black_queen()),
            Some(create_black_king()),
            Some(create_black_bishop()),
            Some(create_black_knight()),
            Some(create_black_rook()),
        ],
        _ => vec![None, None, None, None, None, None, None, None],
    }
}

/// Create the eight ranks of the starting position, from the bottom rank
/// to the top rank.
pub fn create_starting_ranks() -> (ranks: Vec<Rank>)
    ensures
        ranks@.len() == 8,
        forall|rank: int| 0 <= rank < 8 ==> (#[trigger] ranks@[rank])@ == starting_rank(rank),
{
    vec![
        Rank::new(create_pieces_from_rank_index(0)),
        Rank::new(create_pieces_from_rank_index(1)),
        Rank::new(create_pieces_from_rank_index(2)),
        Rank::new(create_pieces_from_rank_index(3)),
        Rank::new(create_pieces_from_rank_index(4)),
        Rank::new(create_pieces_from_rank_index(5)),
        Rank::new(create_pieces_from_rank_index(6)),
        Rank::new(create_pieces_from_rank_index(7)),
    ]
}

} // verus!

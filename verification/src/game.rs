//! A game: a board, the player whose turn it is, and the selector with
//! which that player picks a piece.

use vstd::prelude::*;

use crate::board::{
    get_piece_at_square, invisible_positions, starting_board, target_positions, Board,
};
use crate::color::Color;
use crate::direction::Direction;
use crate::error::{Error, Precondition};
use crate::file_index::FileIndex;
use crate::piece::Piece;
use crate::selector::Selector;
use crate::square::{get_random_square, Position, Square};

verus! {

/// What a player can ask of a game.
#[derive(Debug, PartialEq, Eq, Copy, Clone, Structural)]
pub enum Command {
    /// Move the cursor one square.
    MoveCursor(Direction),
    /// Pick the piece under the cursor.
    Select,
    /// End the game.
    Quit,
}

/// What is left to do for the one who gave a command.
#[derive(Debug, PartialEq, Eq, Copy, Clone, Structural)]
pub enum Reaction {
    /// Nothing but to show the game again.
    Proceed,
    /// A piece was picked: say so, and show the game again.
    Confirm,
    /// Stop.
    Quit,
}

/// A chess game.
#[derive(Debug, PartialEq, Eq)]
pub struct Game {
    board: Board,
    current_player: Color,
    selector: Selector,
}

impl Clone for Game {
    /// A copy of the game.
    fn clone(&self) -> (copy: Game)
        ensures
            copy.board()@ == self.board()@,
            copy.current_player() == self.current_player(),
            copy.selector() == self.selector(),
    {
        Game {
            board: self.board.clone(),
            current_player: self.current_player,
            selector: self.selector.clone(),
        }
    }
}

impl Game {
    /// The board of the game.
    pub closed spec fn board(self) -> Board {
        self.board
    }

    /// The player whose turn it is.
    pub closed spec fn current_player(self) -> Color {
        self.current_player
    }

    /// The selector of the game.
    pub closed spec fn selector(self) -> Selector {
        self.selector
    }

    /// The piece under the cursor, if any.
    pub open spec fn piece_at_cursor(self) -> Option<Piece> {
        self.board().piece_at(self.selector().cursor_square()@)
    }

    /// Whether the piece under the cursor can be picked: there is one, and
    /// it belongs to the player whose turn it is.
    pub open spec fn selectable(self) -> bool {
        self.piece_at_cursor() matches Some(piece) && piece.color == self.current_player()
    }

    /// Whether only the selector sets this game apart from another.
    pub open spec fn same_position_as(self, other: Game) -> bool {
        self.board() == other.board() && self.current_player() == other.current_player()
    }

    /// Whether only the cursor sets this game apart from another.
    pub open spec fn same_selection_as(self, other: Game) -> bool {
        &&& self.same_position_as(other)
        &&& self.selector().from_square() == other.selector().from_square()
        &&& self.selector().to_square() == other.selector().to_square()
    }

    /// Whether only the 'from' square sets this game apart from another.
    pub open spec fn same_cursor_as(self, other: Game) -> bool {
        &&& self.same_position_as(other)
        &&& self.selector().cursor_square() == other.selector().cursor_square()
        &&& self.selector().to_square() == other.selector().to_square()
    }

    /// Create a new game: the pieces in their starting position, white to
    /// move, nothing picked, and the cursor on a square of the fifth rank,
    /// on a file picked at random.
    pub fn new() -> (game: Game)
        ensures
            game.board()@ == starting_board(),
            game.current_player() == Color::White,
            game.selector().cursor_square()@.rank == 4,
            game.selector().from_square() is None,
            game.selector().to_square() is None,
    {
        let mut selector = Selector::new();
        selector.set_cursor(get_random_square());
        Game { board: Board::new(), current_player: Color::White, selector }
    }

    /// Get a copy of the board.
    pub fn get_board(&self) -> (board: Board)
        ensures
            board@ == self.board()@,
    {
        self.board.clone()
    }

    /// Get the player whose turn it is.
    pub fn get_current_player(&self) -> (color: Color)
        ensures
            color == self.current_player(),
    {
        self.current_player
    }

    /// Get the selector.
    pub fn get_selector(&self) -> (selector: &Selector)
        ensures
            *selector == self.selector(),
    {
        &self.selector
    }
}

/// Get the squares on which the pieces of the given colour are to be
/// hidden.
pub fn get_invisible_squares(game: &Game, color: Color) -> (squares: Vec<Square>)
    ensures
        squares.deep_view() == invisible_positions(game.board(), color),
{
    crate::board::get_invisible_squares(&game.board, color)
}

/// Get the target squares for the piece at the square.
///
/// A square without a piece is refused.
pub fn get_target_squares(game: &Game, square: Square) -> (result: Result<Vec<Square>, Error>)
    ensures
        match game.board().piece_at(square@) {
            Some(piece) => result matches Ok(squares) && squares.deep_view() == target_positions(
                piece.piece_type,
                square@,
            ),
            None => result matches Err(error) && error == Error::PreconditionViolated(
                Precondition::PieceAtSquare,
            ),
        },
{
    crate::board::get_target_squares(&game.board, square)
}

/// Get a piece based on the indices of its square.
pub fn get_piece_from_indices(game: &Game, file_index: &FileIndex, rank_index: usize) -> (piece:
    Option<Piece>)
    ensures
        0 <= file_index@ < 8,
        rank_index < 8 ==> piece == game.board().piece_at(
            Position { file: file_index@, rank: rank_index as int },
        ),
        rank_index >= 8 ==> piece is None,
{
    game.board.get_piece_from_indices(file_index, rank_index)
}

/// Get the square that is selected to move a piece from, if any.
pub fn get_cursor_from(game: &Game) -> (from: Option<Square>)
    ensures
        from == game.selector().from_square(),
{
    game.selector.get_from()
}

/// Get the square where the cursor is now.
pub fn get_cursor_square(game: &Game) -> (cursor: Option<Square>)
    ensures
        cursor == Some(game.selector().cursor_square()),
{
    Some(game.selector.get_cursor())
}

/// Get the square that is selected to move a piece to, if any.
pub fn get_cursor_to(game: &Game) -> (to: Option<Square>)
    ensures
        to == game.selector().to_square(),
{
    game.selector.get_to()
}

/// Get the piece under the cursor, if any.
pub fn get_piece_at_cursor(game: &Game) -> (piece: Option<Piece>)
    ensures
        piece == game.piece_at_cursor(),
{
    let square = game.selector.get_cursor();
    get_piece_at_square(&game.board, &square)
}

/// Tell whether the piece under the cursor can be picked.
pub fn can_select(game: &Game) -> (selectable: bool)
    ensures
        selectable == game.selectable(),
{
    match get_piece_at_cursor(game) {
        Some(piece) => piece.get_color() == game.current_player,
        None => false,
    }
}

/// Select the square under the cursor, e.g. by pressing space.
/// * if there is no piece at that square, no square is selected as 'from'
///   any more
/// * if there is a piece of the current player at that square, the square is
///   selected as 'from'
/// * if there is a piece of the other player at that square, the request is
///   refused and nothing changes
pub fn do_select(game: &mut Game) -> (result: Result<(), Error>)
    ensures
        final(game).same_cursor_as(*old(game)),
        old(game).selectable() <==> result is Ok && final(game).selector().from_square() == Some(
            old(game).selector().cursor_square(),
        ),
        match old(game).piece_at_cursor() {
            None => result is Ok && final(game).selector().from_square() is None,
            Some(piece) => if piece.color == old(game).current_player() {
                result is Ok && final(game).selector().from_square() == Some(
                    old(game).selector().cursor_square(),
                )
            } else {
                &&& result == Err::<(), Error>(
                    Error::PreconditionViolated(Precondition::SelectablePiece),
                )
                &&& final(game).selector().from_square() == old(game).selector().from_square()
            },
        },
{
    let cursor_square = game.selector.get_cursor();
    match get_piece_at_cursor(game) {
        None => {
            game.selector.set_from(None);
            Ok(())
        },
        Some(piece) => {
            if piece.get_color() == game.current_player {
                game.selector.set_from(Some(cursor_square));
                Ok(())
            } else {
                Err(Error::PreconditionViolated(Precondition::SelectablePiece))
            }
        },
    }
}

/// Move the cursor one square in the given direction.
pub fn move_cursor(game: &mut Game, direction: Direction)
    ensures
        final(game).same_selection_as(*old(game)),
        final(game).selector().cursor_square()@ == old(game).selector().cursor_square()@.at(
            direction,
        ),
{
    game.selector.move_cursor(direction);
}

/// Move the cursor one square up.
pub fn move_cursor_up(game: &mut Game)
    ensures
        final(game).same_selection_as(*old(game)),
        final(game).selector().cursor_square()@ == old(game).selector().cursor_square()@.above(),
{
    game.selector.move_cursor(Direction::Up);
}

/// Put the cursor on the given square.
pub fn set_cursor_at(game: &mut Game, square: Square)
    ensures
        final(game).same_selection_as(*old(game)),
        final(game).selector().cursor_square() == square,
{
    game.selector.set_cursor(square);
}

/// Carry out a command and tell what is left to do.
/// * `Quit` changes nothing and asks to stop
/// * `MoveCursor` moves the cursor
/// * `Select` picks the piece under the cursor where it can be picked, and
///   asks to confirm that; elsewhere it changes nothing
pub fn do_command(game: &mut Game, command: Command) -> (reaction: Reaction)
    ensures
        match command {
            Command::Quit => reaction == Reaction::Quit && *final(game) == *old(game),
            Command::MoveCursor(direction) => {
                &&& reaction == Reaction::Proceed
                &&& final(game).same_selection_as(*old(game))
                &&& final(game).selector().cursor_square()@ == old(
                    game,
                ).selector().cursor_square()@.at(direction)
            },
            Command::Select => if old(game).selectable() {
                &&& reaction == Reaction::Confirm
                &&& final(game).same_cursor_as(*old(game))
                &&& final(game).selector().from_square() == Some(
                    old(game).selector().cursor_square(),
                )
            } else {
                reaction == Reaction::Proceed && *final(game) == *old(game)
            },
        },
{
    match command {
        Command::Quit => Reaction::Quit,
        Command::MoveCursor(direction) => {
            move_cursor(game, direction);
            Reaction::Proceed
        },
        Command::Select => {
            if can_select(game) {
                match do_select(game) {
                    Ok(()) => Reaction::Confirm,
                    Err(_) => Reaction::Proceed,
                }
            } else {
                Reaction::Proceed
            }
        },
    }
}

} // verus!

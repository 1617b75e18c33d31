//! The board: where the pieces stand, which squares their moves reach, and
//! which squares are hidden from the other player.

use vstd::prelude::*;

use crate::color::Color;
use crate::direction::Direction;
use crate::error::{Error, Precondition};
use crate::file_index::{get_all_file_indices, FileIndex};
use crate::piece::Piece;
use crate::piece_type::PieceType;
use crate::rank::{create_starting_ranks, get_piece, starting_rank, Rank};
use crate::square::{
    create_square_from_indices, get_nth_file, get_nth_rank, get_square_at, Position, Square,
};

verus! {

/// The eight ranks of the starting position, from the bottom rank to the
/// top rank.
pub open spec fn starting_board() -> Seq<Seq<Option<Piece>>> {
    Seq::new(8, |rank: int| starting_rank(rank))
}

/// The colour of the square at the given place: a1 is black, and squares
/// that share a side differ in colour.
pub open spec fn square_color(position: Position) -> Color {
    if (position.file + position.rank) % 2 == 0 {
        Color::Black
    } else {
        Color::White
    }
}

/// The number of steps from an index to the edge of the board: to index 0
/// for a step downwards, to index 7 for a step upwards.
pub open spec fn steps_to_edge(index: int, step: int) -> int {
    if step < 0 {
        index
    } else {
        7 - index
    }
}

/// The index reached from `index` after `distance` steps.
pub open spec fn shifted(index: int, step: int, distance: int) -> int {
    if step < 0 {
        index - distance
    } else {
        index + distance
    }
}

/// The number of squares on the diagonal that leaves `start` by
/// `file_step` and `rank_step`, not counting `start`.
pub open spec fn ray_length(start: Position, file_step: int, rank_step: int) -> nat {
    let files = steps_to_edge(start.file, file_step);
    let ranks = steps_to_edge(start.rank, rank_step);
    if files < 0 || ranks < 0 {
        0
    } else if files <= ranks {
        files as nat
    } else {
        ranks as nat
    }
}

/// The places on the diagonal that leaves `start` by one file and one rank
/// at a time, nearest first, up to and including the edge of the board.
/// `start` itself is not among them, and no heed is paid to the pieces that
/// stand in the way. A negative step goes left or down, any other right or
/// up.
pub open spec fn diagonal_ray(start: Position, file_step: int, rank_step: int) -> Seq<Position> {
    Seq::new(
        ray_length(start, file_step, rank_step),
        |k: int|
            Position {
                file: shifted(start.file, file_step, k + 1),
                rank: shifted(start.rank, rank_step, k + 1),
            },
    )
}

/// The places that a bishop at `start` can go to on a board without other
/// pieces: the diagonal to the top left, then to the top right, to the
/// bottom left and to the bottom right.
pub open spec fn bishop_targets(start: Position) -> Seq<Position> {
    diagonal_ray(start, -1, 1) + diagonal_ray(start, 1, 1) + diagonal_ray(start, -1, -1)
        + diagonal_ray(start, 1, -1)
}

/// The places that a piece of the given type at `start` can go to, as far
/// as move generation goes: only the bishop moves.
pub open spec fn target_positions(piece_type: PieceType, start: Position) -> Seq<Position> {
    match piece_type {
        PieceType::Bishop => bishop_targets(start),
        _ => Seq::empty(),
    }
}

/// The places that are looked at for hidden pieces, in the order in which
/// they are looked at: rank by rank from the second rank up, each rank from
/// the 'a' file to the 'h' file. The bottom rank is not looked at.
pub open spec fn scan_order() -> Seq<Position> {
    Seq::new(56, |i: int| Position { file: i % 8, rank: 1 + i / 8 })
}

/// Tells of a place whether a piece of the given colour stands there.
pub open spec fn holds_piece_of(board: Board, color: Color) -> spec_fn(Position) -> bool {
    |position: Position|
        board.piece_at(position) matches Some(piece) && piece.color == color
}

/// The places that are hidden when the pieces of the given colour are: the
/// places in scan order at which such a piece stands.
pub open spec fn invisible_positions(board: Board, color: Color) -> Seq<Position> {
    scan_order().filter(holds_piece_of(board, color))
}

/// The position of pieces on a board.
/// Does not include any temporary information, such as
/// the possibility of en-passant or castling.
#[derive(Debug, PartialEq, Eq)]
pub struct Board {
    ranks: Vec<Rank>,
}

impl View for Board {
    type V = Seq<Seq<Option<Piece>>>;

    closed spec fn view(&self) -> Seq<Seq<Option<Piece>>> {
        self.ranks.deep_view()
    }
}

impl Clone for Board {
    /// A copy of the board, rank by rank.
    fn clone(&self) -> (copy: Board)
        ensures
            copy@ == self@,
    {
        proof {
            use_type_invariant(self);
        }
        let mut ranks: Vec<Rank> = Vec::new();
        for rank_index in 0..8usize
            invariant
                self.ranks@.len() == 8,
                ranks@.len() == rank_index,
                forall|i: int| 0 <= i < rank_index ==> (#[trigger] ranks@[i])@ == self.ranks@[i]@,
        {
            ranks.push(self.ranks[rank_index].clone());
        }
        assert(ranks.deep_view() =~= self.ranks.deep_view());
        Board { ranks }
    }
}

impl Board {
    /// Every board has eight ranks of eight slots.
    #[verifier::type_invariant]
    pub open spec fn is_eight_by_eight(self) -> bool {
        self@.len() == 8 && forall|rank: int| 0 <= rank < 8 ==> (#[trigger] self@[rank]).len() == 8
    }

    /// The piece at the given place, if there is one.
    pub open spec fn piece_at(self, position: Position) -> Option<Piece> {
        self@[position.rank][position.file]
    }

    /// Create a board with the pieces in their starting position.
    pub fn new() -> (board: Board)
        ensures
            board@ == starting_board(),
    {
        Board { ranks: create_starting_ranks() }
    }

    /// Get a piece based on the indices of its square. There is none where
    /// the square is empty, and none beyond the top rank.
    pub fn get_piece_from_indices(&self, file_index: &FileIndex, rank_index: usize) -> (piece:
        Option<Piece>)
        ensures
            0 <= file_index@ < 8,
            rank_index < 8 ==> piece == self.piece_at(
                Position { file: file_index@, rank: rank_index as int },
            ),
            rank_index >= 8 ==> piece is None,
    {
        proof {
            use_type_invariant(self);
            use_type_invariant(file_index);
        }
        if rank_index < self.ranks.len() {
            get_piece(&self.ranks[rank_index], file_index)
        } else {
            None
        }
    }

    /// Get the ranks of the board, from the bottom rank to the top rank.
    pub fn get_ranks(&self) -> (ranks: &Vec<Rank>)
        ensures
            ranks.deep_view() == self@,
            ranks@.len() == 8,
    {
        proof {
            use_type_invariant(self);
        }
        &self.ranks
    }
}

/// Get the squares on which a piece of the given colour stands, the bottom
/// rank left aside: these are the squares to hide from the other player.
/// They come rank by rank from the second rank up, each rank from the 'a'
/// file to the 'h' file.
pub fn get_invisible_squares(board: &Board, color: Color) -> (squares: Vec<Square>)
    ensures
        squares.deep_view() == invisible_positions(*board, color),
{
    let mut invisible_squares: Vec<Square> = Vec::new();
    let file_indices = get_all_file_indices();
    let ranks = board.get_ranks();
    let ghost hides = holds_piece_of(*board, color);
    proof {
        use_type_invariant(board);
        assert(scan_order().take(0).filter(hides) =~= Seq::<Position>::empty()) by {
            reveal_with_fuel(Seq::filter, 2);
        }
    }
    for rank_index in 1..8usize
        invariant
            hides == holds_piece_of(*board, color),
            board.is_eight_by_eight(),
            ranks.deep_view() == board@,
            file_indices@.len() == 8,
            forall|i: int| 0 <= i < 8 ==> (#[trigger] file_indices@[i])@ == i,
            invisible_squares.deep_view() == scan_order().take((rank_index - 1) * 8).filter(hides),
    {
        let rank = &ranks[rank_index];
        for file in 0..8usize
            invariant
                1 <= rank_index < 8,
                hides == holds_piece_of(*board, color),
                board.is_eight_by_eight(),
                *rank == ranks@[rank_index as int],
                ranks.deep_view() == board@,
                file_indices@.len() == 8,
                forall|i: int| 0 <= i < 8 ==> (#[trigger] file_indices@[i])@ == i,
                invisible_squares.deep_view() == scan_order().take(
                    (rank_index - 1) * 8 + file,
                ).filter(hides),
        {
            let file_index = &file_indices[file];
            let ghost scanned = (rank_index - 1) * 8 + file;
            proof {
                assert(scan_order().take(scanned + 1).drop_last() =~= scan_order().take(scanned));
                reveal_with_fuel(Seq::filter, 2);
            }
            if let Some(piece) = get_piece(rank, file_index) {
                if piece.get_color() == color {
                    let square = create_square_from_indices(file_index, rank_index as u8).unwrap();
                    invisible_squares.push(square);
                }
            }
        }
    }
    assert(scan_order().take(56) =~= scan_order());
    invisible_squares
}

/// Get the piece on a square, if there is one.
pub fn get_piece_at_square(board: &Board, square: &Square) -> (piece: Option<Piece>)
    ensures
        piece == board.piece_at(square@),
{
    board.get_piece_from_indices(&get_nth_file(square), get_nth_rank(square))
}

/// Get the colour of a square.
pub fn get_square_color_from_square(square: &Square) -> (color: Color)
    ensures
        color == square_color(square@),
{
    let file_index = get_nth_file(square);
    let rank_index = get_nth_rank(square);
    get_square_color_from_indices(&file_index, rank_index)
}

/// Get the colour of a square, based on its indices,
/// i.e. square a1 is `(0, 0)`, d1 is `(3, 0)`.
pub fn get_square_color_from_indices(file_index: &FileIndex, rank_index: usize) -> (color: Color)
    ensures
        color == square_color(Position { file: file_index@, rank: rank_index as int }),
{
    let file_bit = file_index.get() % 2;
    let rank_bit = rank_index % 2;
    let bit_int = (rank_bit + file_bit) % 2;
    let bit = bit_int == 0;
    match bit {
        false => Color::White,
        true => Color::Black,
    }
}

/// The step to the left or downwards is -1, any other step is 1.
pub open spec fn step_of(direction: Direction) -> int {
    match direction {
        Direction::Left | Direction::Down => -1,
        _ => 1,
    }
}

/// Away from the edges that lie in its way, a step sideways followed by a
/// step upwards or downwards leads to the next place on the diagonal.
proof fn lemma_diagonal_step(place: Position, sideways: Direction, upwards: Direction)
    requires
        place.on_board(),
        sideways == Direction::Left || sideways == Direction::Right,
        upwards == Direction::Up || upwards == Direction::Down,
        steps_to_edge(place.file, step_of(sideways)) > 0,
        steps_to_edge(place.rank, step_of(upwards)) > 0,
    ensures
        place.at(sideways).at(upwards) == (Position {
            file: shifted(place.file, step_of(sideways), 1),
            rank: shifted(place.rank, step_of(upwards), 1),
        }),
{
}

/// Walks from a square along a diagonal to the edge of the board, one step
/// sideways and one step upwards or downwards at a time, and lists the
/// squares it comes by.
fn get_squares_going(square: &Square, sideways: Direction, upwards: Direction) -> (squares: Vec<
    Square,
>)
    requires
        sideways == Direction::Left || sideways == Direction::Right,
        upwards == Direction::Up || upwards == Direction::Down,
    ensures
        squares.deep_view() == diagonal_ray(square@, step_of(sideways), step_of(upwards)),
{
    let ghost file_step = step_of(sideways);
    let ghost rank_step = step_of(upwards);
    let ghost ray = diagonal_ray(square@, file_step, rank_step);
    let last_file: usize = match sideways {
        Direction::Left => 0,
        _ => 7,
    };
    let last_rank: usize = match upwards {
        Direction::Down => 0,
        _ => 7,
    };
    let mut there = square.clone();
    let mut squares: Vec<Square> = Vec::new();
    proof {
        use_type_invariant(square);
    }
    while get_nth_file(&there).get() != last_file && get_nth_rank(&there) != last_rank
        invariant
            sideways == Direction::Left || sideways == Direction::Right,
            upwards == Direction::Up || upwards == Direction::Down,
            file_step == step_of(sideways),
            rank_step == step_of(upwards),
            last_file == 7 - steps_to_edge(7, file_step),
            last_rank == 7 - steps_to_edge(7, rank_step),
            ray == diagonal_ray(square@, file_step, rank_step),
            square@.on_board(),
            there@.on_board(),
            squares@.len() <= ray.len(),
            there@.file == shifted(square@.file, file_step, squares@.len() as int),
            there@.rank == shifted(square@.rank, rank_step, squares@.len() as int),
            squares.deep_view() == ray.take(squares@.len() as int),
        decreases ray.len() - squares@.len(),
    {
        proof {
            lemma_diagonal_step(there@, sideways, upwards);
        }
        there = get_square_at(get_square_at(there, sideways), upwards);
        proof {
            use_type_invariant(&there);
        }
        squares.push(there);
    }
    squares
}

/// Get the squares when going bottom-left, excluding the square itself.
pub fn get_squares_going_bottom_left(square: &Square) -> (squares: Vec<Square>)
    ensures
        squares.deep_view() == diagonal_ray(square@, -1, -1),
{
    get_squares_going(square, Direction::Left, Direction::Down)
}

/// Get the squares when going bottom-right, excluding the square itself.
pub fn get_squares_going_bottom_right(square: &Square) -> (squares: Vec<Square>)
    ensures
        squares.deep_view() == diagonal_ray(square@, 1, -1),
{
    get_squares_going(square, Direction::Right, Direction::Down)
}

/// Get the squares when going top-left, excluding the square itself.
pub fn get_squares_going_top_left(square: &Square) -> (squares: Vec<Square>)
    ensures
        squares.deep_view() == diagonal_ray(square@, -1, 1),
{
    get_squares_going(square, Direction::Left, Direction::Up)
}

/// Get the squares when going top-right, excluding the square itself.
pub fn get_squares_going_top_right(square: &Square) -> (squares: Vec<Square>)
    ensures
        squares.deep_view() == diagonal_ray(square@, 1, 1),
{
    get_squares_going(square, Direction::Right, Direction::Up)
}

/// Get the target squares for the piece at the square, using only the
/// knowledge of the current board, i.e. this excludes en passant (requires
/// knowledge of the previous move) and castling (requires knowledge of the
/// king and rook's past movements).
///
/// A square without a piece is refused.
pub fn get_target_squares(board: &Board, square: Square) -> (result: Result<Vec<Square>, Error>)
    ensures
        match board.piece_at(square@) {
            Some(piece) => result matches Ok(squares) && squares.deep_view() == target_positions(
                piece.piece_type,
                square@,
            ),
            None => result matches Err(error) && error == Error::PreconditionViolated(
                Precondition::PieceAtSquare,
            ),
        },
{
    let piece_option = get_piece_at_square(board, &square);
    let piece = match piece_option {
        Some(piece) => piece,
        None => {
            return Err(Error::PreconditionViolated(Precondition::PieceAtSquare));
        },
    };
    let squares = match piece.get_type() {
        PieceType::Bishop => get_target_squares_for_bishop(board, square),
        PieceType::King => get_target_squares_for_king(board, square),
        PieceType::Knight => get_target_squares_for_knight(board, square),
        PieceType::Pawn => get_target_squares_for_pawn(board, square),
        PieceType::Queen => get_target_squares_for_queen(board, square),
        PieceType::Rook => get_target_squares_for_rook(board, square),
    };
    Ok(squares)
}

/// Get the target squares for the bishop at the square: the squares of
/// its four diagonals, whatever stands on them.
pub fn get_target_squares_for_bishop(board: &Board, square: Square) -> (squares: Vec<Square>)
    requires
        board.piece_at(square@) matches Some(piece) && piece.piece_type == PieceType::Bishop,
    ensures
        squares.deep_view() == bishop_targets(square@),
{
    let mut squares: Vec<Square> = Vec::new();
    let mut squares_top_left = get_squares_going_top_left(&square);
    let mut squares_top_right = get_squares_going_top_right(&square);
    let mut squares_bottom_left = get_squares_going_bottom_left(&square);
    let mut squares_bottom_right = get_squares_going_bottom_right(&square);
    squares.append(&mut squares_top_left);
    squares.append(&mut squares_top_right);
    squares.append(&mut squares_bottom_left);
    squares.append(&mut squares_bottom_right);
    squares
}

/// Get the target squares for the king at the square: none, as the moves
/// of a king are not worked out.
pub fn get_target_squares_for_king(board: &Board, square: Square) -> (squares: Vec<Square>)
    ensures
        squares@.len() == 0,
{
    Vec::new()
}

/// Get the target squares for the knight at the square: none, as the moves
/// of a knight are not worked out.
pub fn get_target_squares_for_knight(board: &Board, square: Square) -> (squares: Vec<Square>)
    ensures
        squares@.len() == 0,
{
    Vec::new()
}

/// Get the target squares for the pawn at the square: none, as the moves
/// of a pawn are not worked out.
pub fn get_target_squares_for_pawn(board: &Board, square: Square) -> (squares: Vec<Square>)
    ensures
        squares@.len() == 0,
{
    Vec::new()
}

/// Get the target squares for the queen at the square: none, as the moves
/// of a queen are not worked out.
pub fn get_target_squares_for_queen(board: &Board, square: Square) -> (squares: Vec<Square>)
    ensures
        squares@.len() == 0,
{
    Vec::new()
}

/// Get the target squares for the rook at the square: none, as the moves
/// of a rook are not worked out.
pub fn get_target_squares_for_rook(board: &Board, square: Square) -> (squares: Vec<Square>)
    ensures
        squares@.len() == 0,
{
    Vec::new()
}

/// Detect if a square on the board contains a pawn.
pub fn is_pawn(board: &Board, square: Square) -> (found: bool)
    ensures
        found == (board.piece_at(square@) matches Some(piece) && piece.piece_type
            == PieceType::Pawn),
{
    let piece_option = board.get_piece_from_indices(&get_nth_file(&square), get_nth_rank(&square));
    match piece_option {
        Some(piece) => piece.get_type() == PieceType::Pawn,
        None => false,
    }
}

/// The square a1 is black, and every square differs in colour from the
/// square to its right and from the square above it.
pub proof fn lemma_square_colors_alternate(position: Position)
    ensures
        square_color(Position { file: 0, rank: 0 }) == Color::Black,
        square_color(Position { file: position.file + 1, rank: position.rank }) != square_color(
            position,
        ),
        square_color(Position { file: position.file, rank: position.rank + 1 }) != square_color(
            position,
        ),
{
}

/// On a board in the starting position a rook stands in each corner, a
/// pawn on every square of the second and of the seventh rank, white below
/// and black above, and nothing on the four ranks between them.
pub proof fn lemma_starting_position(board: Board, file: int)
    requires
        board@ == starting_board(),
        0 <= file < 8,
    ensures
        board.piece_at(Position { file: 0, rank: 0 }) == Some(
            Piece { color: Color::White, piece_type: PieceType::Rook },
        ),
        board.piece_at(Position { file: 7, rank: 0 }) == Some(
            Piece { color: Color::White, piece_type: PieceType::Rook },
        ),
        board.piece_at(Position { file: 0, rank: 7 }) == Some(
            Piece { color: Color::Black, piece_type: PieceType::Rook },
        ),
        board.piece_at(Position { file: 7, rank: 7 }) == Some(
            Piece { color: Color::Black, piece_type: PieceType::Rook },
        ),
        board.piece_at(Position { file, rank: 1 }) == Some(
            Piece { color: Color::White, piece_type: PieceType::Pawn },
        ),
        board.piece_at(Position { file, rank: 6 }) == Some(
            Piece { color: Color::Black, piece_type: PieceType::Pawn },
        ),
        forall|rank: int| 2 <= rank <= 5 ==> board.piece_at(Position { file, rank }) is None,
{
}

/// A diagonal that starts on the board stays on it and ends on its edge:
/// the place at index `k` lies `k + 1` files and `k + 1` ranks from the
/// start, the last place lies on the last file or rank in the direction of
/// the diagonal, and there is no place at all exactly when the start lies
/// there.
pub proof fn lemma_diagonal_ray_ends_at_the_edge(start: Position, file_step: int, rank_step: int)
    requires
        start.on_board(),
    ensures
        forall|k: int|
            0 <= k < diagonal_ray(start, file_step, rank_step).len() ==> {
                let place = #[trigger] diagonal_ray(start, file_step, rank_step)[k];
                &&& place.on_board()
                &&& place.file == shifted(start.file, file_step, k + 1)
                &&& place.rank == shifted(start.rank, rank_step, k + 1)
            },
        ({
            let far = shifted(start.file, file_step, ray_length(start, file_step, rank_step) as int);
            let high = shifted(
                start.rank,
                rank_step,
                ray_length(start, file_step, rank_step) as int,
            );
            steps_to_edge(far, file_step) == 0 || steps_to_edge(high, rank_step) == 0
        }),
        diagonal_ray(start, file_step, rank_step).len() == 0 <==> steps_to_edge(
            start.file,
            file_step,
        ) == 0 || steps_to_edge(start.rank, rank_step) == 0,
{
}

/// What passes a test is there before and after the places that fail it
/// are dropped, and nothing else is there afterwards.
proof fn lemma_filter_keeps_what_passes<A>(places: Seq<A>, passes: spec_fn(A) -> bool, place: A)
    ensures
        places.filter(passes).contains(place) <==> places.contains(place) && passes(place),
    decreases places.len(),
{
    reveal(Seq::filter);
    if places.len() > 0 {
        let front = places.drop_last();
        lemma_filter_keeps_what_passes(front, passes, place);
        if places.contains(place) && places.last() != place {
            let j = choose|j: int| 0 <= j < places.len() && places[j] == place;
            assert(front[j] == place);
        }
    }
}

/// A place is hidden exactly when it lies on the board above the bottom
/// rank and a piece of the given colour stands there.
pub proof fn lemma_hidden_places_hold_a_piece(board: Board, color: Color, position: Position)
    ensures
        invisible_positions(board, color).contains(position) <==> {
            &&& position.on_board()
            &&& position.rank >= 1
            &&& board.piece_at(position) matches Some(piece)
            &&& piece.color == color
        },
{
    lemma_filter_keeps_what_passes(scan_order(), holds_piece_of(board, color), position);
    if position.on_board() && position.rank >= 1 {
        let i = (position.rank - 1) * 8 + position.file;
        assert(scan_order()[i] == position);
    }
}

} // verus!

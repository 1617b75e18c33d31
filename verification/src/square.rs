//! Squares of the board, their algebraic names and their neighbours.

use vstd::prelude::*;
use vstd::string::*;
use vstd::utf8::*;

use crate::direction::Direction;
use crate::error::{CoordinateFault, Error};
use crate::file_index::FileIndex;

verus! {

/// The place of a square: its file (column) and rank (row), both counted
/// from zero, so that a1 is at file 0 and rank 0.
pub struct Position {
    pub file: int,
    pub rank: int,
}

impl Position {
    /// Whether the place lies on the 8x8 board.
    pub open spec fn on_board(self) -> bool {
        0 <= self.file < 8 && 0 <= self.rank < 8
    }

    /// The algebraic name of the place, such as "e4".
    pub open spec fn coordinate(self) -> Seq<char> {
        seq![file_letter(self.file), rank_digit(self.rank)]
    }

    /// One rank up; from the top rank to the bottom rank.
    pub open spec fn above(self) -> Position {
        Position { file: self.file, rank: (self.rank + 1) % 8 }
    }

    /// One rank down; from the bottom rank to the top rank.
    pub open spec fn below(self) -> Position {
        Position { file: self.file, rank: (self.rank + 7) % 8 }
    }

    /// One file to the left; from the 'a' file to the 'h' file.
    pub open spec fn at_lhs(self) -> Position {
        Position { file: (self.file + 7) % 8, rank: self.rank }
    }

    /// One file to the right; from the 'h' file to the 'a' file.
    pub open spec fn at_rhs(self) -> Position {
        Position { file: (self.file + 1) % 8, rank: self.rank }
    }

    /// One step in the given direction, leaving the board on one side and
    /// entering it on the other.
    pub open spec fn at(self, direction: Direction) -> Position {
        match direction {
            Direction::Up => self.above(),
            Direction::Right => self.at_rhs(),
            Direction::Down => self.below(),
            Direction::Left => self.at_lhs(),
        }
    }
}

/// The letter of a file: 'a' for file 0 up to 'h' for file 7.
pub open spec fn file_letter(file: int) -> char {
    ('a' as int + file) as char
}

/// The digit of a rank: '1' for rank 0 up to '8' for rank 7.
pub open spec fn rank_digit(rank: int) -> char {
    ('1' as int + rank) as char
}

/// Whether a character names a file.
pub open spec fn is_file_letter(c: char) -> bool {
    'a' <= c <= 'h'
}

/// Whether a character names a rank.
pub open spec fn is_rank_digit(c: char) -> bool {
    '1' <= c <= '8'
}

/// Whether a text is the algebraic name of a square.
pub open spec fn is_coordinate(text: Seq<char>) -> bool {
    text.len() == 2 && is_file_letter(text[0]) && is_rank_digit(text[1])
}

/// The place that an algebraic name stands for.
pub open spec fn position_of(text: Seq<char>) -> Position
    recommends
        is_coordinate(text),
{
    Position { file: text[0] as int - 'a' as int, rank: text[1] as int - '1' as int }
}

/// The number of bytes that a text takes in memory.
pub open spec fn byte_length(text: Seq<char>) -> nat {
    encode_utf8(text).len()
}

/// Whether a text is a file letter followed by one character that does not
/// end the line.
pub open spec fn file_pattern_accepts(text: Seq<char>) -> bool {
    text.len() == 2 && is_file_letter(text[0]) && text[1] != '\n'
}

/// Whether a text is one character that does not end the line, followed by
/// a rank digit.
pub open spec fn rank_pattern_accepts(text: Seq<char>) -> bool {
    text.len() == 2 && text[0] != '\n' && is_rank_digit(text[1])
}

/// The first thing wrong with a text that should name a square, if any.
/// The length is looked at first, then the file, then the rank.
pub open spec fn coordinate_fault(text: Seq<char>) -> Option<CoordinateFault> {
    if byte_length(text) != 2 {
        Some(CoordinateFault::Length)
    } else if !file_pattern_accepts(text) {
        Some(CoordinateFault::File)
    } else if !rank_pattern_accepts(text) {
        Some(CoordinateFault::Rank)
    } else {
        None
    }
}

/// Tells whether the regular expression `pattern` matches somewhere in
/// `text`, by `regex::Regex::new` and `regex::Regex::is_match`.
///
/// Trusted, and claimed for two patterns only. In both, `^` and `$` stand
/// for the two ends of the text, a class in square brackets for one
/// character of its range, and `.` for one character other than a line
/// feed. So `^[a-h].$` matches exactly the texts of two characters that
/// start with a file letter and do not end in a line feed, and `^.[1-8]$`
/// exactly those of two characters that do not start with a line feed and
/// end in a rank digit.
#[verifier::external_body]
fn pattern_is_match(pattern: &str, text: &str) -> (found: bool)
    requires
        pattern@ == "^[a-h].$"@ || pattern@ == "^.[1-8]$"@,
    ensures
        pattern@ == "^[a-h].$"@ ==> found == file_pattern_accepts(text@),
        pattern@ == "^.[1-8]$"@ ==> found == rank_pattern_accepts(text@),
{
    regex::Regex::new(pattern).unwrap().is_match(text)
}

/// A square on a chess board.
#[derive(Debug, PartialEq, Eq, Copy, Clone, Structural)]
pub struct Square {
    file: u8,
    rank: u8,
}

impl View for Square {
    type V = Position;

    closed spec fn view(&self) -> Position {
        Position { file: self.file as int, rank: self.rank as int }
    }
}

impl DeepView for Square {
    type V = Position;

    open spec fn deep_view(&self) -> Position {
        self@
    }
}

impl Square {
    /// Every square lies on the board.
    #[verifier::type_invariant]
    pub open spec fn on_board(self) -> bool {
        self@.on_board()
    }

    /// A copy of the square.
    pub fn clone(&self) -> (copy: Square)
        ensures
            copy == *self,
    {
        proof {
            use_type_invariant(self);
        }
        Square { file: self.file, rank: self.rank }
    }

    /// Create a square from its algebraic name, such as "a1".
    ///
    /// A text that is no such name is refused with the first fault found in
    /// it.
    pub fn new(coordinat_str: &str) -> (result: Result<Square, Error>)
        ensures
            match coordinate_fault(coordinat_str@) {
                Some(fault) => result == Err::<Square, Error>(Error::InvalidCoordinate(fault)),
                None => result matches Ok(square) && square@ == position_of(coordinat_str@),
            },
    {
        if coordinat_str.as_bytes().len() != 2 {
            return Err(Error::InvalidCoordinate(CoordinateFault::Length));
        }
        if !pattern_is_match("^[a-h].$", coordinat_str) {
            return Err(Error::InvalidCoordinate(CoordinateFault::File));
        }
        if !pattern_is_match("^.[1-8]$", coordinat_str) {
            return Err(Error::InvalidCoordinate(CoordinateFault::Rank));
        }
        let file_char = coordinat_str.get_char(0);
        let rank_char = coordinat_str.get_char(1);
        Ok(Square { file: file_char as u8 - 'a' as u8, rank: rank_char as u8 - '1' as u8 })
    }

    /// The algebraic name of the square, such as "a1".
    pub fn get(&self) -> (coordinat: String)
        ensures
            coordinat@ == self@.coordinate(),
    {
        proof {
            use_type_invariant(self);
        }
        let file_index = FileIndex::new(self.file as usize);
        create_coordinat_from_indices(&file_index, self.rank).unwrap()
    }

    /// The file of the square as a text, such as "a".
    pub fn get_file(&self) -> (file: String)
        ensures
            file@ == seq![file_letter(self@.file)],
    {
        let copy = self.get();
        let first = copy.as_str().substring_char(0, 1);
        first.to_string()
    }

    /// The rank of the square as it is written, such as 1 for the bottom
    /// rank.
    pub fn get_rank(&self) -> (rank: usize)
        ensures
            rank == self@.rank + 1,
    {
        proof {
            use_type_invariant(self);
        }
        self.rank as usize + 1
    }
}

/// Create the algebraic name of a square from the indices of its file and
/// rank.
///
/// A rank index above 7 is refused.
pub fn create_coordinat_from_indices(file_index: &FileIndex, rank_index: u8) -> (result: Result<
    String,
    Error,
>)
    ensures
        match result {
            Ok(coordinat) => rank_index <= 7 && coordinat@ == (Position {
                file: file_index@,
                rank: rank_index as int,
            }).coordinate(),
            Err(error) => rank_index > 7 && error == Error::OutOfRange,
        },
{
    proof {
        use_type_invariant(file_index);
        reveal_strlit("a");
        reveal_strlit("b");
        reveal_strlit("c");
        reveal_strlit("d");
        reveal_strlit("e");
        reveal_strlit("f");
        reveal_strlit("g");
        reveal_strlit("h");
        reveal_strlit("1");
        reveal_strlit("2");
        reveal_strlit("3");
        reveal_strlit("4");
        reveal_strlit("5");
        reveal_strlit("6");
        reveal_strlit("7");
        reveal_strlit("8");
    }
    let file_str = match file_index.get() {
        0 => "a",
        1 => "b",
        2 => "c",
        3 => "d",
        4 => "e",
        5 => "f",
        6 => "g",
        _ => "h",
    };
    let rank_str = match rank_index {
        0 => "1",
        1 => "2",
        2 => "3",
        3 => "4",
        4 => "5",
        5 => "6",
        6 => "7",
        7 => "8",
        _ => {
            return Err(Error::OutOfRange);
        },
    };
    Ok(file_str.to_string().concat(rank_str))
}

/// The place of the square that comes at the given index when the board is
/// listed file by file, each file from the bottom rank to the top rank.
pub open spec fn nth_position(index: int) -> Position {
    Position { file: index / 8, rank: index % 8 }
}

/// The square at the given indices.
pub fn create_square_from_indices(file_index: &FileIndex, rank_index: u8) -> (result: Result<
    Square,
    Error,
>)
    ensures
        match result {
            Ok(square) => rank_index <= 7 && square@ == (Position {
                file: file_index@,
                rank: rank_index as int,
            }),
            Err(error) => rank_index > 7 && error == Error::OutOfRange,
        },
{
    proof {
        use_type_invariant(file_index);
    }
    match create_coordinat_from_indices(file_index, rank_index) {
        Ok(coordinat) => {
            proof {
                lemma_indices_round_trip(Position { file: file_index@, rank: rank_index as int });
                lemma_names_are_accepted(coordinat@);
            }
            Square::new(coordinat.as_str())
        },
        Err(error) => Err(error),
    }
}

/// Get the names of all the 64 squares of a chess board: a1, a2 and so on
/// up to a8, then b1, up to h8.
pub fn get_all_coordinats() -> (coordinats: Vec<String>)
    ensures
        coordinats@.len() == 64,
        forall|i: int|
            0 <= i < 64 ==> (#[trigger] coordinats@[i])@ == nth_position(i).coordinate(),
{
    let mut squares: Vec<String> = Vec::new();
    let file_indices = crate::file_index::get_all_file_indices();
    for file in 0..8usize
        invariant
            file_indices@.len() == 8,
            forall|i: int| 0 <= i < 8 ==> (#[trigger] file_indices@[i])@ == i,
            squares@.len() == file * 8,
            forall|i: int|
                0 <= i < squares@.len() ==> (#[trigger] squares@[i])@ == nth_position(
                    i,
                ).coordinate(),
    {
        for rank_index in 0..8u8
            invariant
                file < 8,
                file_indices@.len() == 8,
                forall|i: int| 0 <= i < 8 ==> (#[trigger] file_indices@[i])@ == i,
                squares@.len() == file * 8 + rank_index,
                forall|i: int|
                    0 <= i < squares@.len() ==> (#[trigger] squares@[i])@ == nth_position(
                        i,
                    ).coordinate(),
        {
            let coordinat = create_coordinat_from_indices(&file_indices[file], rank_index).unwrap();
            squares.push(coordinat);
        }
    }
    squares
}

/// Get all the 64 squares of a chess board, in the order of their names in
/// `get_all_coordinats`.
pub fn get_all_squares() -> (squares: Vec<Square>)
    ensures
        squares@.len() == 64,
        forall|i: int| 0 <= i < 64 ==> (#[trigger] squares@[i])@ == nth_position(i),
{
    let coordinats = get_all_coordinats();
    let mut squares: Vec<Square> = Vec::new();
    for index in 0..64usize
        invariant
            coordinats@.len() == 64,
            forall|i: int|
                0 <= i < 64 ==> (#[trigger] coordinats@[i])@ == nth_position(i).coordinate(),
            squares@.len() == index,
            forall|i: int| 0 <= i < squares@.len() ==> (#[trigger] squares@[i])@ == nth_position(i),
    {
        proof {
            lemma_indices_round_trip(nth_position(index as int));
            lemma_names_are_accepted(coordinats@[index as int]@);
        }
        let square = Square::new(coordinats[index].as_str()).unwrap();
        squares.push(square);
    }
    squares
}

/// Get the index of the file of a square: 0 for the 'a' file.
pub fn get_nth_file(square: &Square) -> (file_index: FileIndex)
    ensures
        file_index@ == square@.file,
{
    proof {
        use_type_invariant(square);
    }
    FileIndex::new(square.file as usize)
}

/// Get the index of the rank of a square: 0 for the bottom rank.
pub fn get_nth_rank(square: &Square) -> (rank_index: usize)
    ensures
        rank_index == square@.rank,
        rank_index <= 7,
{
    proof {
        use_type_invariant(square);
    }
    square.rank as usize
}

/// Get the name of a square of the fifth rank, on a file picked at random.
pub fn get_random_coordinat() -> (coordinat: String)
    ensures
        is_coordinate(coordinat@),
        position_of(coordinat@).rank == 4,
{
    let file_index = crate::file_index::create_random_file_index();
    let rank_index = crate::rank_index::create_random_rank_index();
    proof {
        use_type_invariant(&file_index);
        lemma_indices_round_trip(Position { file: file_index@, rank: 4 });
    }
    create_coordinat_from_indices(&file_index, rank_index as u8).unwrap()
}

/// Get a square of the fifth rank, on a file picked at random.
pub fn get_random_square() -> (square: Square)
    ensures
        square@.rank == 4,
{
    let coordinat = get_random_coordinat();
    proof {
        lemma_names_are_accepted(coordinat@);
    }
    Square::new(coordinat.as_str()).unwrap()
}

/// Get the square above a square; above the top rank lies the bottom rank.
pub fn get_square_above(square: Square) -> (above: Square)
    ensures
        above@ == square@.above(),
{
    let file_index = get_nth_file(&square);
    let rank_index = ((get_nth_rank(&square) + 1) % 8) as u8;
    create_square_from_indices(&file_index, rank_index).unwrap()
}

/// Get the square at one step from a square in the given direction.
pub fn get_square_at(square: Square, direction: Direction) -> (neighbour: Square)
    ensures
        neighbour@ == square@.at(direction),
{
    match direction {
        Direction::Up => get_square_above(square),
        Direction::Right => get_square_at_rhs(square),
        Direction::Down => get_square_below(square),
        Direction::Left => get_square_at_lhs(square),
    }
}

/// Get the square at the left hand side of a square; left of the 'a' file
/// lies the 'h' file.
pub fn get_square_at_lhs(square: Square) -> (left: Square)
    ensures
        left@ == square@.at_lhs(),
{
    let file_index = FileIndex::new((get_nth_file(&square).get() + 7) % 8);
    let rank_index = get_nth_rank(&square) as u8;
    create_square_from_indices(&file_index, rank_index).unwrap()
}

/// Get the square at the right hand side of a square; right of the 'h'
/// file lies the 'a' file.
pub fn get_square_at_rhs(square: Square) -> (right: Square)
    ensures
        right@ == square@.at_rhs(),
{
    let file_index = FileIndex::new((get_nth_file(&square).get() + 1) % 8);
    let rank_index = get_nth_rank(&square) as u8;
    create_square_from_indices(&file_index, rank_index).unwrap()
}

/// Get the square below a square; below the bottom rank lies the top rank.
pub fn get_square_below(square: Square) -> (below: Square)
    ensures
        below@ == square@.below(),
{
    let file_index = get_nth_file(&square);
    let rank_index = ((get_nth_rank(&square) + 7) % 8) as u8;
    create_square_from_indices(&file_index, rank_index).unwrap()
}

/// Two squares are the same square exactly when they lie at the same
/// place.
pub proof fn lemma_place_determines_square(a: Square, b: Square)
    ensures
        a == b <==> a@ == b@,
{
}

/// Every algebraic name is accepted as a square, and the place that it
/// stands for lies on the board and is written as that same name.
pub proof fn lemma_names_are_accepted(text: Seq<char>)
    requires
        is_coordinate(text),
    ensures
        coordinate_fault(text) is None,
        position_of(text).on_board(),
        position_of(text).coordinate() == text,
{
    is_ascii_chars_encode_utf8(text);
}

/// Every text that is no algebraic name is refused. A text that is not two
/// bytes long has the wrong length. Of two plain characters, the first must
/// be a file letter, and then the second a rank digit; a line feed in the
/// second place counts against the file.
pub proof fn lemma_other_texts_are_refused(text: Seq<char>)
    requires
        !is_coordinate(text),
    ensures
        coordinate_fault(text) is Some,
        byte_length(text) != 2 ==> coordinate_fault(text) == Some(CoordinateFault::Length),
        is_ascii_chars(text) && text.len() == 2 && !is_file_letter(text[0]) ==> coordinate_fault(
            text,
        ) == Some(CoordinateFault::File),
        is_ascii_chars(text) && text.len() == 2 && is_file_letter(text[0]) && text[1] != '\n'
            ==> coordinate_fault(text) == Some(CoordinateFault::Rank),
        is_ascii_chars(text) && text.len() == 2 && is_file_letter(text[0]) && text[1] == '\n'
            ==> coordinate_fault(text) == Some(CoordinateFault::File),
{
    if is_ascii_chars(text) {
        is_ascii_chars_encode_utf8(text);
    }
}

/// The name of a place on the board is an algebraic name, and stands for
/// that place: naming a place and reading a name undo each other.
pub proof fn lemma_indices_round_trip(position: Position)
    requires
        position.on_board(),
    ensures
        is_coordinate(position.coordinate()),
        position_of(position.coordinate()) == position,
{
}

/// The list of all squares holds every place on the board once: the place
/// at file `f` and rank `r` at index `8 * f + r`, and nowhere else.
pub proof fn lemma_all_squares_cover_the_board()
    ensures
        forall|i: int| 0 <= i < 64 ==> (#[trigger] nth_position(i)).on_board(),
        forall|i: int, j: int|
            0 <= i < 64 && 0 <= j < 64 && i != j ==> nth_position(i) != nth_position(j),
        forall|position: Position|
            position.on_board() ==> 0 <= 8 * position.file + position.rank < 64 && nth_position(
                8 * position.file + position.rank,
            ) == position,
{
}

/// One step up from the top rank leads to the bottom rank of the same file,
/// and likewise over the other three edges of the board.
pub proof fn lemma_steps_wrap_at_the_edges(position: Position)
    requires
        position.on_board(),
    ensures
        position.rank == 7 ==> position.above() == (Position { file: position.file, rank: 0 }),
        position.rank == 0 ==> position.below() == (Position { file: position.file, rank: 7 }),
        position.file == 0 ==> position.at_lhs() == (Position { file: 7, rank: position.rank }),
        position.file == 7 ==> position.at_rhs() == (Position { file: 0, rank: position.rank }),
{
}

} // verus!

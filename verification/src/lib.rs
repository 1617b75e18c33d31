//! Board, square and piece model of a fog-of-war chess variant, together with
//! the cursor that a player moves over the board to pick a piece.
//!
//! * `square` and `file_index` turn the names of squares, such as "e4", into
//!   indices and back, and find the neighbours of a square.
//! * `color`, `piece_type` and `piece` describe the pieces; `rank` and `board`
//!   put them in their starting position, list the squares that a piece can
//!   go to, and the squares that are hidden from the other player.
//! * `direction`, `selector` and `game` follow the cursor of the player and
//!   what is picked with it.
//! * `error` names the ways in which a request is refused.
//!
//! Every function states what it returns, and Verus proves that it does. Two
//! private functions are believed rather than proved, because they call other
//! crates: `pattern_is_match` in `square`, and `random_in_range` in
//! `file_index`.

pub mod board;
pub mod color;
pub mod direction;
pub mod error;
pub mod even_number;
pub mod file_index;
pub mod game;
pub mod is_even;
pub mod piece;
pub mod piece_type;
pub mod rank;
pub mod rank_index;
pub mod selector;
pub mod square;

//! The selector: the cursor that a player moves over the board, and the
//! squares picked with it.

use vstd::prelude::*;

use crate::direction::Direction;
use crate::square::{get_random_square, get_square_at, Square};

verus! {

/// A selector: the square under the cursor, the square picked to move a
/// piece from, and the square picked to move it to.
#[derive(Debug, PartialEq, Eq)]
pub struct Selector {
    cursor: Square,
    from: Option<Square>,
    to: Option<Square>,
}

impl Clone for Selector {
    /// A copy of the selector.
    fn clone(&self) -> (copy: Selector)
        ensures
            copy == *self,
    {
        Selector { cursor: self.cursor, from: self.from, to: self.to }
    }
}

impl Selector {
    /// The square under the cursor.
    pub closed spec fn cursor_square(self) -> Square {
        self.cursor
    }

    /// The square picked to move a piece from, if any.
    pub closed spec fn from_square(self) -> Option<Square> {
        self.from
    }

    /// The square picked to move a piece to, if any.
    pub closed spec fn to_square(self) -> Option<Square> {
        self.to
    }

    /// Create a new selector with nothing picked. Its cursor is on a square
    /// of the fifth rank, on a file picked at random.
    pub fn new() -> (selector: Selector)
        ensures
            selector.cursor_square()@.rank == 4,
            selector.from_square() is None,
            selector.to_square() is None,
    {
        Selector { cursor: get_random_square(), from: None, to: None }
    }

    /// Get the square under the cursor.
    pub fn get_cursor(&self) -> (cursor: Square)
        ensures
            cursor == self.cursor_square(),
    {
        self.cursor.clone()
    }

    /// Get the selected 'from' square.
    pub fn get_from(&self) -> (from: Option<Square>)
        ensures
            from == self.from_square(),
    {
        self.from
    }

    /// Get the selected 'to' square.
    pub fn get_to(&self) -> (to: Option<Square>)
        ensures
            to == self.to_square(),
    {
        self.to
    }

    /// Moves the cursor one square in the given direction. A cursor that
    /// leaves the board on one side enters it on the other.
    pub fn move_cursor(&mut self, direction: Direction)
        ensures
            final(self).cursor_square()@ == old(self).cursor_square()@.at(direction),
            final(self).from_square() == old(self).from_square(),
            final(self).to_square() == old(self).to_square(),
    {
        self.cursor = get_square_at(self.cursor.clone(), direction);
    }

    /// Set the cursor.
    pub fn set_cursor(&mut self, cursor: Square)
        ensures
            final(self).cursor_square() == cursor,
            final(self).from_square() == old(self).from_square(),
            final(self).to_square() == old(self).to_square(),
    {
        self.cursor = cursor
    }

    /// Set the selected 'from' square.
    pub fn set_from(&mut self, from: Option<Square>)
        ensures
            final(self).cursor_square() == old(self).cursor_square(),
            final(self).from_square() == from,
            final(self).to_square() == old(self).to_square(),
    {
        self.from = from
    }

    /// Set the selected 'to' square.
    pub fn set_to(&mut self, to: Option<Square>)
        ensures
            final(self).cursor_square() == old(self).cursor_square(),
            final(self).from_square() == old(self).from_square(),
            final(self).to_square() == to,
    {
        self.to = to
    }
}

/// Set the cursor of a selector.
pub fn set_cursor(selector: &mut Selector, square: &Square)
    ensures
        final(selector).cursor_square() == *square,
        final(selector).from_square() == old(selector).from_square(),
        final(selector).to_square() == old(selector).to_square(),
{
    selector.set_cursor(square.clone());
}

} // verus!

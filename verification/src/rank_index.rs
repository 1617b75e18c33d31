//! The index of a rank, that is a row of the board: a plain number from 0
//! for the bottom rank up to 7 for the top rank.

use vstd::prelude::*;

verus! {

/// The rank index on which a new cursor starts: always the fifth rank.
pub fn create_random_rank_index() -> (rank_index: usize)
    ensures
        rank_index == 4,
{
    4
}

} // verus!

//! Telling even numbers from odd ones.

use vstd::prelude::*;

verus! {

/// Whether a number is even.
pub fn is_even(value: i32) -> (even: bool)
    ensures
        even == (value as int % 2 == 0),
{
    value % 2 == 0
}

} // verus!

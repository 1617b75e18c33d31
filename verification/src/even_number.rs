//! A number held for its parity.

use vstd::prelude::*;

verus! {

/// A number in a box. Nothing is asked of the number that goes in.
pub struct EvenNumber {
    pub value: i64,
}

impl EvenNumber {
    /// The number in the box.
    pub fn get(&self) -> (value: i64)
        ensures
            value == self.value,
    {
        self.value
    }
}

} // verus!

//! The index of a file, that is a column of the board.

use vstd::prelude::*;

verus! {

/// The index of a file: 0 for the 'a' file up to 7 for the 'h' file.
#[derive(Debug, PartialEq, Eq, Copy, Clone, Structural)]
pub struct FileIndex {
    index: usize,
}

impl View for FileIndex {
    type V = int;

    closed spec fn view(&self) -> int {
        self.index as int
    }
}

impl FileIndex {
    /// Every file index lies on the board.
    #[verifier::type_invariant]
    pub open spec fn in_range(self) -> bool {
        0 <= self@ <= 7
    }

    /// Create a `FileIndex` from a number of at most 7.
    pub fn new(index: usize) -> (file_index: FileIndex)
        requires
            index <= 7,
        ensures
            file_index@ == index,
    {
        FileIndex { index }
    }

    /// The index as a number.
    pub fn get(&self) -> (index: usize)
        ensures
            index == self@,
            index <= 7,
    {
        proof {
            use_type_invariant(self);
        }
        self.index
    }
}

/// Get all the file indices, from the 'a' file to the 'h' file.
pub fn get_all_file_indices() -> (file_indices: Vec<FileIndex>)
    ensures
        file_indices@.len() == 8,
        forall|i: int| 0 <= i < 8 ==> (#[trigger] file_indices@[i])@ == i,
{
    vec![
        FileIndex::new(0),
        FileIndex::new(1),
        FileIndex::new(2),
        FileIndex::new(3),
        FileIndex::new(4),
        FileIndex::new(5),
        FileIndex::new(6),
        FileIndex::new(7),
    ]
}

/// Draws a number from `low` up to, but not including, `high`, by
/// `rand::thread_rng` and `rand::Rng::gen_range`.
///
/// Trusted: the number lies in the range. Which number it is differs from
/// call to call, so nothing more is claimed. The range must not be empty.
/// The generator is seeded by the operating system when a thread first asks
/// for it, and gives up if the system has no entropy to offer.
#[verifier::external_body]
fn random_in_range(low: usize, high: usize) -> (number: usize)
    requires
        low < high,
    ensures
        low <= number < high,
{
    rand::Rng::gen_range(&mut rand::thread_rng(), low..high)
}

/// Pick one of the eight files at random.
pub fn create_random_file_index() -> (file_index: FileIndex)
    ensures
        0 <= file_index@ <= 7,
{
    FileIndex::new(random_in_range(0, 8))
}

} // verus!

use vstd::prelude::*;

verus! {

/// Whether a directory is empty, given the names of the entries that
/// reading it gave.
pub fn is_dir_empty(entries: &Vec<String>) -> (b: bool)
    ensures
        b == (entries@.len() == 0),
{
    entries.len() == 0
}

} // verus!

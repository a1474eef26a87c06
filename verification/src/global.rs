use vstd::prelude::*;

verus! {

/// The moment used as the edit time of every file that Hyrax creates:
/// ten seconds after the Unix epoch, written as whole seconds since the epoch.
pub fn magic_time() -> (secs: u64)
    ensures
        secs == 10,
{
    10
}

} // verus!

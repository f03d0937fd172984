use vstd::prelude::*;

verus! {

/// Whether a key's in-process lock entry may be dropped from the table, given
/// how many references to the lock exist, the table's own among them: only
/// when the table's is the last one, so that no holder or waiter loses it.
pub fn entry_is_idle(references: usize) -> (r: bool)
    ensures
        r == (references <= 1),
{
    references <= 1
}

} // verus!

//! Atomic primitives.
use vstd::prelude::*;

verus! {

/// Read-modify-write primitives on a one-bit cell.
pub trait AtomicPrimitive {
    /// Whether the cell is set.
    spec fn is_set(&self) -> bool;

    /// Sets the cell and returns whether it was set before.
    fn test_and_set(&mut self) -> (was_set: bool)
        ensures
            was_set == old(self).is_set(),
            final(self).is_set(),
    ;
}

/// A one-bit cell for `AtomicPrimitive`.
///
/// Its one read-modify-write operation takes `&mut self`, so no other thread
/// can see or change the bit during a call; the bit is a plain `bool`.
pub struct AtomicBool {
    v: bool,
}

impl View for AtomicBool {
    /// The bit.
    type V = bool;

    closed spec fn view(&self) -> bool {
        self.v
    }
}

impl AtomicBool {
    /// A cell holding `v`.
    pub fn new(v: bool) -> (cell: AtomicBool)
        ensures
            cell@ == v,
    {
        AtomicBool { v }
    }
}

impl AtomicPrimitive for AtomicBool {
    open spec fn is_set(&self) -> bool {
        self@
    }

    /// Swaps `true` in and returns the bit swapped out.
    fn test_and_set(&mut self) -> (was_set: bool) {
        let was_set = self.v;
        self.v = true;
        return was_set;
    }
}

/// On a cell that is already set, `test_and_set` reports it set and leaves it
/// as it was.
pub proof fn lemma_test_and_set_on_set_cell(before: AtomicBool, after: AtomicBool)
    requires
        before.is_set(),
        after.is_set(),
    ensures
        after@ == before@,
{
}

} // verus!

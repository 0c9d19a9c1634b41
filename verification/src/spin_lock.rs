//! A test-and-set spin lock.
use vstd::prelude::*;

use crate::Lock;

verus! {

/// A lock held in one flag, set while the lock is held.
///
/// Every operation that changes the flag takes `&mut self`, so no other
/// thread can see or change it during a call; the flag is a plain `bool`.
pub struct SpinLock {
    wait: bool,
}

impl View for SpinLock {
    /// Whether the lock is held.
    type V = bool;

    closed spec fn view(&self) -> bool {
        self.wait
    }
}

impl SpinLock {
    /// A free lock.
    pub fn new() -> (lock: SpinLock)
        ensures
            !lock@,
    {
        return SpinLock { wait: false };
    }

    /// Sets the flag to `new` if it equals `current`; returns the flag as it was.
    fn compare_and_swap(&mut self, current: bool, new: bool) -> (prev: bool)
        ensures
            prev == old(self).wait,
            final(self).wait == (if old(self).wait == current { new } else { old(self).wait }),
    {
        let prev = self.wait;
        if prev == current {
            self.wait = new;
        }
        prev
    }
}

impl Lock for SpinLock {
    /// The flag is clear.
    open spec fn can_acquire(&self) -> bool {
        !self@
    }

    /// The flag is set.
    open spec fn lock_post(before: &SpinLock, after: &SpinLock) -> bool {
        after@
    }

    /// The flag is clear.
    open spec fn unlock_post(before: &SpinLock, after: &SpinLock) -> bool {
        !after@
    }

    /// Swaps the flag from clear to set, and tries again while it was already set.
    fn lock(&mut self) {
        loop
            invariant_except_break
                !self.wait,
            ensures
                self.wait,
            decreases 0nat,
        {
            if !self.compare_and_swap(false, true) {
                break;
            }
        }
    }

    fn unlock(&mut self) {
        self.wait = false;
    }
}

/// Mutual exclusion: once `lock` has returned, a second `lock` would wait.
pub proof fn lemma_lock_excludes(before: SpinLock, after: SpinLock)
    requires
        before.can_acquire(),
        SpinLock::lock_post(&before, &after),
    ensures
        !after.can_acquire(),
{
}

/// After `unlock`, `lock` returns at once, whoever held the lock.
pub proof fn lemma_unlock_releases(before: SpinLock, after: SpinLock)
    requires
        SpinLock::unlock_post(&before, &after),
    ensures
        after.can_acquire(),
{
}

/// `lock` followed by `unlock` leaves a free lock as it found it.
pub proof fn lemma_lock_unlock_round_trip(s0: SpinLock, s1: SpinLock, s2: SpinLock)
    requires
        s0.can_acquire(),
        SpinLock::lock_post(&s0, &s1),
        SpinLock::unlock_post(&s1, &s2),
    ensures
        s2@ == s0@,
{
}

} // verus!

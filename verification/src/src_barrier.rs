//! A sense-reversing barrier.
use vstd::prelude::*;

use crate::{fetch_add_usize, usize_add_wrapping};

verus! {

/// A barrier for `n` threads: each arrival flips its own sense and counts
/// itself in; the last arrival resets the count and publishes the new sense.
///
/// Every operation that changes the barrier takes `&mut self`, so no other
/// thread can see or change it during a call; the count and the sense are
/// plain values.
pub struct Barrier {
    count: usize,
    n: usize,
    sense: bool,
    local_sense: Vec<bool>,
}

impl Barrier {
    /// Arrivals counted in the current round.
    pub closed spec fn count(&self) -> usize {
        self.count
    }

    /// The number of threads the barrier was made for.
    pub closed spec fn threads(&self) -> usize {
        self.n
    }

    /// The published sense.
    pub closed spec fn sense(&self) -> bool {
        self.sense
    }

    /// Each thread's own sense, by thread id.
    pub closed spec fn local_sense(&self) -> Seq<bool> {
        self.local_sense@
    }

    /// A barrier for `n_thread` threads, with no arrivals, the sense set and
    /// no per-thread sense recorded yet (the vector only has room reserved).
    pub fn new(n_thread: usize) -> (barrier: Barrier)
        ensures
            barrier.count() == 0,
            barrier.threads() == n_thread,
            barrier.sense(),
            barrier.local_sense() == Seq::<bool>::empty(),
    {
        Barrier {
            count: 0,
            n: n_thread,
            sense: true,
            local_sense: Vec::with_capacity(n_thread),
        }
    }

    /// Thread `id` arrives: its own sense flips, and the count goes up by one.
    /// The arrival that finds `n - 1` earlier arrivals resets the count to zero
    /// and publishes its new sense; any other arrival spins until the published
    /// sense equals its new one, which nothing can change while this call holds
    /// `&mut self`, so it must already.
    ///
    /// `id` must index a recorded sense and `n` must be at least one (the count
    /// is compared with `n - 1`). `new` records no sense and nothing adds one,
    /// so no barrier made by `new` meets this `requires`: on such a barrier the
    /// indexing would always be out of bounds.
    pub fn cycle(&mut self, id: usize)
        requires
            id < old(self).local_sense().len(),
            old(self).threads() >= 1,
            old(self).count() == old(self).threads() - 1 || old(self).sense()
                == !old(self).local_sense()[id as int],
        ensures
            final(self).local_sense() == old(self).local_sense().update(
                id as int,
                !old(self).local_sense()[id as int],
            ),
            final(self).threads() == old(self).threads(),
            old(self).count() == old(self).threads() - 1 ==> final(self).count() == 0
                && final(self).sense() == !old(self).local_sense()[id as int],
            old(self).count() != old(self).threads() - 1 ==> final(self).count()
                == usize_add_wrapping(old(self).count(), 1) && final(self).sense()
                == old(self).sense(),
    {
        let s = !self.local_sense[id];
        self.local_sense.set(id, s);
        if fetch_add_usize(&mut self.count, 1) == self.n - 1 {
            self.count = 0;
            self.sense = s;
        } else {
            while self.sense != s
                invariant
                    self.sense == s,
                decreases 0nat,
            {
            }
        }
    }
}

} // verus!

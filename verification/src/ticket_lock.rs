//! A ticket lock.
use vstd::prelude::*;

use crate::{fetch_add_usize, usize_add_wrapping, Lock};

verus! {

/// A lock that hands out tickets from `next` and serves them in `owner` order.
///
/// Every operation that changes the counters takes `&mut self`, so no other
/// thread can see or change them during a call; they are plain `usize`s.
pub struct TicketLock {
    next: usize,
    owner: usize,
}

impl View for TicketLock {
    /// The next ticket to hand out and the ticket being served.
    type V = (usize, usize);

    closed spec fn view(&self) -> (usize, usize) {
        (self.next, self.owner)
    }
}

impl TicketLock {
    /// A lock with both counters zero.
    pub fn new() -> (lock: TicketLock)
        ensures
            lock@ == (0usize, 0usize),
    {
        return TicketLock { next: 0, owner: 0 };
    }
}

impl Lock for TicketLock {
    /// The ticket taken is not below the one being served.
    open spec fn can_acquire(&self) -> bool {
        self@.0 >= self@.1
    }

    /// One more ticket has been handed out.
    open spec fn lock_post(before: &TicketLock, after: &TicketLock) -> bool {
        after@ == (usize_add_wrapping(before@.0, 1), before@.1)
    }

    /// The next ticket is being served.
    open spec fn unlock_post(before: &TicketLock, after: &TicketLock) -> bool {
        after@ == (before@.0, usize_add_wrapping(before@.1, 1))
    }

    /// Takes a ticket, then spins while it is below the ticket being served.
    fn lock(&mut self) {
        let next = fetch_add_usize(&mut self.next, 1);
        while next < self.owner
            invariant
                next >= self.owner,
            decreases 0nat,
        {
        }
    }

    /// Serves the next ticket.
    fn unlock(&mut self) {
        fetch_add_usize(&mut self.owner, 1);
    }
}

/// `lock` followed by `unlock` advances both counters by one, so a lock that
/// could be taken can be taken again, unless handing out the ticket wraps
/// `next` around (`next == usize::MAX`).
pub proof fn lemma_lock_unlock_keeps_acquirable(s0: TicketLock, s1: TicketLock, s2: TicketLock)
    requires
        s0.can_acquire(),
        s0@.0 < usize::MAX,
        TicketLock::lock_post(&s0, &s1),
        TicketLock::unlock_post(&s1, &s2),
    ensures
        s2@ == ((s0@.0 + 1) as usize, (s0@.1 + 1) as usize),
        s2.can_acquire(),
{
}

/// `unlock` never makes the counters cross: with `owner <= next` before and
/// `owner < next` (the lock was taken), `owner <= next` after.
pub proof fn lemma_unlock_keeps_order(before: TicketLock, after: TicketLock)
    requires
        before@.1 < before@.0,
        TicketLock::unlock_post(&before, &after),
    ensures
        after.can_acquire(),
{
}

/// `lock` hands out the next ticket: `next` goes up by one modulo the word
/// size and `owner` stays; `unlock` serves the next ticket: `owner` goes up by
/// one modulo the word size and `next` stays.
pub proof fn lemma_tickets_advance_by_one(before: TicketLock, after: TicketLock)
    ensures
        TicketLock::lock_post(&before, &after) ==> after@.0 as int == (before@.0 as int + 1) % (
        usize::MAX as int + 1) && after@.1 == before@.1,
        TicketLock::unlock_post(&before, &after) ==> after@.1 as int == (before@.1 as int + 1) % (
        usize::MAX as int + 1) && after@.0 == before@.0,
{
    crate::lemma_usize_add_wrapping_is_mod(before@.0, 1);
    crate::lemma_usize_add_wrapping_is_mod(before@.1, 1);
}

} // verus!

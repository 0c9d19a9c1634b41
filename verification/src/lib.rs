//! Spin-based mutual-exclusion locks, reader-writer locks, an event flag and a
//! barrier, each with its state in plain fields and every operation specified
//! over that state; and the decisions of the pointer-linked queue locks (CLH,
//! MCS, K42) as step functions over what a thread observes.
use vstd::prelude::*;

pub mod clh;
pub mod flag;
pub mod k42;
pub mod rw_lock;
pub mod rw_lock_fair;
pub mod rw_lock_w;
pub mod msc;
pub mod queue;
pub mod spin_lock;
pub mod src_barrier;
pub mod ticket_lock;
pub mod util;

verus! {

/// A mutual-exclusion lock.
///
/// `can_acquire` says when `lock` returns at once instead of spinning, and
/// `lock_post` / `unlock_post` relate the state before a call to the state after
/// it; each lock states all three.
pub trait Lock {
    /// `lock` returns without waiting for anyone to release the lock.
    spec fn can_acquire(&self) -> bool;

    /// `after` is the state that `lock` leaves when called on `before`.
    spec fn lock_post(before: &Self, after: &Self) -> bool;

    /// `after` is the state that `unlock` leaves when called on `before`.
    spec fn unlock_post(before: &Self, after: &Self) -> bool;

    fn lock(&mut self)
        requires
            old(self).can_acquire(),
        ensures
            Self::lock_post(old(self), final(self)),
    ;

    fn unlock(&mut self)
        ensures
            Self::unlock_post(old(self), final(self)),
    ;
}

/// `a + b` with the carry out of the word dropped.
pub open spec fn usize_add_wrapping(a: usize, b: usize) -> usize {
    if a + b > usize::MAX {
        (a + b - usize::MAX - 1) as usize
    } else {
        (a + b) as usize
    }
}

/// Adds `value` to `cell`, dropping the carry; returns what it held.
pub(crate) fn fetch_add_usize(cell: &mut usize, value: usize) -> (prev: usize)
    ensures
        prev == *old(cell),
        *final(cell) == usize_add_wrapping(*old(cell), value),
{
    let prev = *cell;
    *cell = prev.wrapping_add(value);
    prev
}

/// Stores `new` in `cell` if it holds `current`; returns what it held.
pub(crate) fn cas_usize(cell: &mut usize, current: usize, new: usize) -> (prev: usize)
    ensures
        prev == *old(cell),
        *final(cell) == if *old(cell) == current { new } else { *old(cell) },
{
    let prev = *cell;
    if prev == current {
        *cell = new;
    }
    prev
}

/// Stores `new` in `cell` if it holds `current`; returns what it held.
pub(crate) fn cas_u64(cell: &mut u64, current: u64, new: u64) -> (prev: u64)
    ensures
        prev == *old(cell),
        *final(cell) == if *old(cell) == current { new } else { *old(cell) },
{
    let prev = *cell;
    if prev == current {
        *cell = new;
    }
    prev
}

/// `usize_add_wrapping` is addition modulo the word size.
pub proof fn lemma_usize_add_wrapping_is_mod(a: usize, b: usize)
    ensures
        usize_add_wrapping(a, b) as int == (a as int + b as int) % (usize::MAX as int + 1),
{
    let m = usize::MAX as int + 1;
    if a + b > usize::MAX {
        vstd::arithmetic::div_mod::lemma_fundamental_div_mod_converse(a + b, m, 1, a + b - m);
    } else {
        vstd::arithmetic::div_mod::lemma_small_mod((a + b) as nat, m as nat);
    }
}

} // verus!

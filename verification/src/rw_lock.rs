//! A reader-writer lock in one word: bit 0 marks a writer, readers count in twos.
use vstd::prelude::*;

use crate::{cas_usize, fetch_add_usize, usize_add_wrapping};

verus! {

/// Reader-writer lock kept in one word `n`.
///
/// Every operation that changes the word takes `&mut self`, so no other
/// thread can see or change it during a call; it is a plain `usize`.
pub struct RWLock {
    n: usize,
}

/// The writer-active bit.
pub const WA_FLAG: usize = 1;
/// What one reader adds.
pub const RC_INC: usize = 2;

/// The writer bit is set.
pub open spec fn writer_active(word: usize) -> bool {
    word % 2 == 1
}

/// The word after one round of the write-lock loop: `WA_FLAG` swapped into a
/// zero word.
pub open spec fn wlock_swap(word: usize) -> usize {
    if word == 0 { WA_FLAG } else { word }
}

/// The word after `rlock`: `RC_INC` added, carry dropped.
pub open spec fn after_rlock(word: usize) -> usize {
    usize_add_wrapping(word, RC_INC)
}

impl View for RWLock {
    /// The raw word.
    type V = usize;

    closed spec fn view(&self) -> usize {
        self.n
    }
}

impl RWLock {
    /// A lock with a zero word.
    pub fn new() -> (lock: RWLock)
        ensures
            lock@ == 0,
    {
        RWLock { n: 0 }
    }

    /// One round of taking the write lock: swaps `WA_FLAG` into a zero word,
    /// then reads the word back, and returns whether the two differ, which is
    /// when the caller backs off and tries again.
    ///
    /// A zero word becomes `WA_FLAG` and asks for one more round; any other
    /// word is left alone and ends the loop.
    pub fn wlock_attempt(&mut self) -> (retry: bool)
        ensures
            retry == (old(self)@ == 0),
            final(self)@ == wlock_swap(old(self)@),
    {
        let prev = cas_usize(&mut self.n, 0, WA_FLAG);
        prev != self.n
    }

    /// Releases the write lock by adding `!WA_FLAG` to the word, which, with
    /// the carry dropped, takes two off it.
    pub fn wunlock(&mut self)
        ensures
            final(self)@ == usize_add_wrapping(old(self)@, (usize::MAX - 1) as usize),
    {
        assert((!1usize) as int + 1 == (!0usize) as int) by (bit_vector);
        let ghost top: usize = usize::MAX;
        assert(top <= !0usize) by (bit_vector);
        fetch_add_usize(&mut self.n, !WA_FLAG);
    }

    /// Takes a read lock: adds `RC_INC`, then spins while the writer bit is
    /// set. Nothing can clear it while this call holds `&mut self`, so the bit
    /// must be clear, that is, the word even.
    pub fn rlock(&mut self)
        requires
            !writer_active(old(self)@),
        ensures
            final(self)@ == after_rlock(old(self)@),
    {
        fetch_add_usize(&mut self.n, RC_INC);
        assert(self.n % 2 == 0);
        let ghost n: usize = self.n;
        assert((n & 1usize) == n % 2) by (bit_vector);
        while self.n & WA_FLAG == 1
            invariant
                self.n == n,
                (n & 1usize) == 0,
            decreases 0nat,
        {
        }
    }

    /// Releases a read lock by adding `!RC_INC` to the word, which, with the
    /// carry dropped, takes three off it.
    pub fn runlock(&mut self)
        ensures
            final(self)@ == usize_add_wrapping(old(self)@, (usize::MAX - 2) as usize),
    {
        assert((!2usize) as int + 2 == (!0usize) as int) by (bit_vector);
        let ghost top: usize = usize::MAX;
        assert(top <= !0usize) by (bit_vector);
        fetch_add_usize(&mut self.n, !RC_INC);
    }
}

/// The write-lock loop takes at most two rounds: on a zero word the first
/// round swaps in `WA_FLAG` and asks to retry, and the second round neither
/// changes the word nor asks again.
pub proof fn lemma_wlock_retries_once(word: usize)
    requires
        word == 0,
    ensures
        wlock_swap(word) != 0,
        wlock_swap(wlock_swap(word)) == wlock_swap(word),
{
}

/// A held write lock keeps readers out: once the write-lock loop has taken a
/// zero word, `rlock` would spin.
pub proof fn lemma_writer_excludes_readers(word: usize)
    requires
        word == 0,
    ensures
        writer_active(wlock_swap(word)),
{
}

/// Readers do not keep each other out: after `rlock` on a word with no
/// writer, another `rlock` returns too.
pub proof fn lemma_readers_share(word: usize)
    requires
        !writer_active(word),
    ensures
        !writer_active(after_rlock(word)),
{
}

/// `rlock` adds `RC_INC` to the word, dropping the carry: two more than the
/// word, modulo the word size.
pub proof fn lemma_rlock_adds_reader(word: usize)
    ensures
        after_rlock(word) as int == (word as int + 2) % (usize::MAX as int + 1),
        word + 2 <= usize::MAX ==> after_rlock(word) == word + 2,
{
    crate::lemma_usize_add_wrapping_is_mod(word, RC_INC);
}

/// Each reader is counted: two `rlock`s in a row add four (carry dropped).
pub proof fn lemma_rlock_twice(word: usize)
    ensures
        after_rlock(after_rlock(word)) as int == (word as int + 4) % (usize::MAX as int + 1),
{
    let m = usize::MAX as int + 1;
    crate::lemma_usize_add_wrapping_is_mod(word, RC_INC);
    crate::lemma_usize_add_wrapping_is_mod(after_rlock(word), RC_INC);
    vstd::arithmetic::div_mod::lemma_add_mod_noop(word as int + 2, 2, m);
    vstd::arithmetic::div_mod::lemma_small_mod(2, m as nat);
}

/// A write-lock round changes only a zero word, and stores the writer bit in it.
pub proof fn lemma_wlock_round_changes_only_free_word(word: usize)
    ensures
        word != 0 ==> wlock_swap(word) == word,
        wlock_swap(0) == 1,
{
}

/// The writer bit is bit 0 of the word.
pub proof fn lemma_writer_bit(word: usize)
    ensures
        writer_active(word) <==> (word & 1) == 1,
{
    assert((word & 1usize) == word % 2) by (bit_vector);
}

} // verus!

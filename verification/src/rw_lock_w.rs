//! A writer-preference reader-writer lock packed into one 64-bit counter.
use vstd::prelude::*;

use crate::cas_u64;

verus! {

/// Writer-preference reader-writer lock.
///
/// The high half of the counter counts active readers (`ar`), the low half
/// except its least significant bit counts waiting writers (`ww`), and the
/// least significant bit marks an active writer (`aw`).
///
/// Every operation that changes the counter takes `&mut self`, so no other
/// thread can see or change it during a call; the counter is a plain `u64`.
pub struct RWW {
    counter: u64,
}

/// The low half of the counter.
pub const WW_MASK: u64 = 0xffff_ffff;
/// The high half of the counter.
pub const AR_MASK: u64 = 0xffff_ffff_0000_0000;

/// The fields of a counter: active readers (high half), waiting writers
/// (bits 1 to 31) and the active-writer bit (bit 0).
pub open spec fn counter_fields(counter: u64) -> (u32, u32, bool) {
    (
        (counter / 0x1_0000_0000) as u32,
        ((counter % 0x1_0000_0000) / 2) as u32,
        counter % 2 == 1,
    )
}

/// The counter with `ar` active readers, `ww` waiting writers and the
/// active-writer bit `aw`.
pub open spec fn counter_value(ar: u32, ww: u32, aw: bool) -> int {
    ar * 0x1_0000_0000 + 2 * ww + if aw { 1int } else { 0int }
}

/// No active writer and no active reader: `w_lock` takes the lock at once.
pub open spec fn writer_may_enter(counter: u64) -> bool {
    &&& counter_fields(counter).0 == 0
    &&& !counter_fields(counter).2
}

/// No waiting writer and no active writer, and room for one more reader:
/// `r_lock` takes the lock at once.
pub open spec fn reader_may_enter(counter: u64) -> bool {
    &&& counter_fields(counter).1 == 0
    &&& !counter_fields(counter).2
    &&& counter_fields(counter).0 < u32::MAX
}

/// Splits a counter into its fields (see `counter_fields`).
pub fn from_counter(counter: u64) -> (fields: (u32, u32, bool))
    ensures
        fields == counter_fields(counter),
{
    assert((counter & 0xffff_ffff_0000_0000u64) >> 32u64 == counter / 0x1_0000_0000)
        by (bit_vector);
    assert((counter & 0xffff_ffffu64) >> 1u64 == (counter % 0x1_0000_0000) / 2)
        by (bit_vector);
    assert(((counter & 1u64) == 1u64) == (counter % 2 == 1)) by (bit_vector);
    (((counter & AR_MASK) >> 32) as u32, ((counter & WW_MASK) >> 1) as u32, counter & 1 == 1)
}

/// Builds a counter from its fields; the waiting writers must fit in bits 1
/// to 31.
pub fn to_counter(ar: u32, ww: u32, aw: bool) -> (counter: u64)
    requires
        ww < 0x8000_0000,
    ensures
        counter == counter_value(ar, ww, aw),
{
    let wide_ar: u64 = ar as u64;
    let wide_ww: u64 = ww as u64;
    assert(wide_ar << 32u64 == wide_ar * 0x1_0000_0000) by (bit_vector)
        requires
            wide_ar < 0x1_0000_0000,
    ;
    assert(wide_ww << 1u64 == wide_ww * 2) by (bit_vector)
        requires
            wide_ww < 0x8000_0000,
    ;
    assert(wide_ar * 0x1_0000_0000 + 2 * wide_ww + 1 <= u64::MAX) by (nonlinear_arith)
        requires
            wide_ar < 0x1_0000_0000,
            wide_ww < 0x8000_0000,
    ;
    let new_ar: u64 = (ar as u64) << 32;
    let new_ww: u64 = (ww as u64) << 1;
    let new_aw: u64 = if aw {
        1
    } else {
        0
    };
    new_ar + new_ww + new_aw
}

/// A counter is its fields put back together.
proof fn lemma_counter_split(counter: u64)
    ensures
        counter == counter_value(
            counter_fields(counter).0,
            counter_fields(counter).1,
            counter_fields(counter).2,
        ),
        counter_fields(counter).1 < 0x8000_0000,
{
}

impl View for RWW {
    /// The raw counter.
    type V = u64;

    closed spec fn view(&self) -> u64 {
        self.counter
    }
}

impl RWW {
    /// A lock with no readers, no waiting writer and no writer.
    pub fn new() -> (lock: RWW)
        ensures
            lock@ == 0,
    {
        RWW { counter: 0 }
    }

    /// Takes the write lock: with no active writer and no active reader, sets
    /// the active-writer bit and keeps the rest.
    ///
    /// With a writer or readers present, a writer registers as waiting and
    /// waits for them to leave, which cannot happen while this call holds
    /// `&mut self`; `requires` leaves that case out.
    pub fn w_lock(&mut self)
        requires
            writer_may_enter(old(self)@),
        ensures
            final(self)@ == old(self)@ + 1,
    {
        loop
            invariant_except_break
                self.counter == old(self).counter,
                writer_may_enter(self.counter),
            ensures
                self.counter == old(self).counter + 1,
            decreases 0nat,
        {
            let counter = self.counter;
            proof {
                lemma_counter_split(counter);
            }
            let (ar, ww, aw) = from_counter(counter);
            if !aw && ar == 0 {
                if cas_u64(&mut self.counter, counter, to_counter(ar, ww, true)) == counter {
                    break;
                }
            }
        }
    }

    /// Takes a read lock: with no waiting writer and no active writer, counts
    /// one more active reader.
    ///
    /// With a writer waiting or active, a reader waits for the counter to
    /// change, which cannot happen while this call holds `&mut self`;
    /// `requires` leaves that case out, and so the reader count must also
    /// have room for one more.
    pub fn r_lock(&mut self)
        requires
            reader_may_enter(old(self)@),
        ensures
            final(self)@ == old(self)@ + 0x1_0000_0000,
    {
        loop
            invariant_except_break
                self.counter == old(self).counter,
                reader_may_enter(self.counter),
            ensures
                self.counter == old(self).counter + 0x1_0000_0000,
            decreases 0nat,
        {
            let counter = self.counter;
            proof {
                lemma_counter_split(counter);
            }
            let (ar, ww, aw) = from_counter(counter);
            if ww == 0 && !aw {
                if cas_u64(&mut self.counter, counter, to_counter(ar + 1, 0, false)) == counter {
                    break;
                }
            }
        }
    }

    /// Releases the write lock: clears the active-writer bit and keeps the
    /// readers and waiting writers.
    pub fn w_unlock(&mut self)
        ensures
            final(self)@ == old(self)@ - old(self)@ % 2,
    {
        loop
            invariant_except_break
                self.counter == old(self).counter,
            ensures
                self.counter == old(self).counter - old(self).counter % 2,
            decreases 0nat,
        {
            let counter = self.counter;
            proof {
                lemma_counter_split(counter);
            }
            let (ar, ww, _) = from_counter(counter);
            if cas_u64(&mut self.counter, counter, to_counter(ar, ww, false)) == counter {
                break;
            }
        }
    }

    /// Releases a read lock: counts one active reader less and keeps the rest.
    /// There must be an active reader.
    pub fn r_unlock(&mut self)
        requires
            counter_fields(old(self)@).0 >= 1,
        ensures
            final(self)@ == old(self)@ - 0x1_0000_0000,
    {
        loop
            invariant_except_break
                self.counter == old(self).counter,
                counter_fields(self.counter).0 >= 1,
            ensures
                self.counter == old(self).counter - 0x1_0000_0000,
            decreases 0nat,
        {
            let counter = self.counter;
            proof {
                lemma_counter_split(counter);
            }
            let (ar, ww, aw) = from_counter(counter);
            if cas_u64(&mut self.counter, counter, to_counter(ar - 1, ww, aw)) == counter {
                break;
            }
        }
    }
}

/// Decoding a counter that `to_counter` built gives back its fields.
pub proof fn lemma_fields_round_trip(ar: u32, ww: u32, aw: bool)
    requires
        ww < 0x8000_0000,
    ensures
        0 <= counter_value(ar, ww, aw) <= u64::MAX,
        counter_fields(counter_value(ar, ww, aw) as u64) == (ar, ww, aw),
{
    let low = 2 * ww + if aw { 1int } else { 0int };
    assert(ar * 0x1_0000_0000 <= 0xffff_ffff_0000_0000) by (nonlinear_arith)
        requires
            ar <= 0xffff_ffff,
    ;
    let c = counter_value(ar, ww, aw);
    vstd::arithmetic::div_mod::lemma_fundamental_div_mod_converse(
        c,
        0x1_0000_0000,
        ar as int,
        low,
    );
}

/// An active writer keeps everyone out: after `w_lock`, neither `w_lock`
/// nor `r_lock` would return until `w_unlock`.
pub proof fn lemma_writer_excludes(before: u64)
    requires
        writer_may_enter(before),
    ensures
        !writer_may_enter((before + 1) as u64),
        !reader_may_enter((before + 1) as u64),
{
}

/// An active reader keeps writers out, but lets another reader in while
/// there is room in the reader count.
pub proof fn lemma_reader_excludes_writers_only(before: u64)
    requires
        reader_may_enter(before),
        counter_fields(before).0 + 1 < u32::MAX,
    ensures
        !writer_may_enter((before + 0x1_0000_0000) as u64),
        reader_may_enter((before + 0x1_0000_0000) as u64),
{
}

/// `w_unlock` undoes `w_lock`, and `r_unlock` undoes `r_lock`.
pub proof fn lemma_unlock_undoes_lock(before: u64)
    ensures
        writer_may_enter(before) ==> (before + 1) - (before + 1) % 2 == before,
        reader_may_enter(before) ==> counter_fields((before + 0x1_0000_0000) as u64).0 >= 1,
{
}

/// The documented layout: in the counter built from `(ar, ww, aw)`, the high
/// half is `ar`, bits 1 to 31 are `ww` and bit 0 is `aw`.
pub proof fn lemma_counter_layout(ar: u32, ww: u32, aw: bool)
    requires
        ww < 0x8000_0000,
    ensures
        counter_value(ar, ww, aw) / 0x1_0000_0000 == ar,
        (counter_value(ar, ww, aw) % 0x1_0000_0000) / 2 == ww,
        counter_value(ar, ww, aw) % 2 == if aw { 1int } else { 0int },
{
    lemma_fields_round_trip(ar, ww, aw);
}

/// Who may enter, read off the raw counter: a writer when bit 0 and the high
/// half are clear; a reader when the whole low half is clear and the reader
/// count is below its maximum.
pub proof fn lemma_entry_conditions(counter: u64)
    ensures
        writer_may_enter(counter) <==> (counter % 2 == 0 && counter < 0x1_0000_0000),
        reader_may_enter(counter) <==> (counter % 0x1_0000_0000 == 0 && counter
            < 0xffff_ffff_0000_0000),
{
}

} // verus!

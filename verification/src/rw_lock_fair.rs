//! A fair reader-writer lock built from request and completion counters.
use vstd::prelude::*;

use vstd::arithmetic::power2::pow2;

use crate::cas_u64;

verus! {

/// Fair reader-writer lock: a thread takes a ticket by bumping `requests`
/// and announces that it is done by bumping `completions`.
///
/// Both words pack two 32-bit fields that `from_u64` reads and `to_u64`
/// builds; the exact meaning of each operation is stated over the raw words.
///
/// Every operation that changes a word takes `&mut self`, so no other thread
/// can see or change it during a call; the words are plain `u64`s.
pub struct RWFair {
    requests: u64,
    completions: u64,
}

/// `1 << 32 - 1`, which is `1 << 31`: bit 31 alone.
pub const LOW_MASK: u64 = 0x8000_0000;
/// Every bit but bit 31.
pub const HIGH_MASK: u64 = 0xffff_ffff_7fff_ffff;

/// What `from_u64` reads out of a word: `x & HIGH_MASK >> 32` keeps the low
/// 32 bits, and `x & LOW_MASK` keeps bit 31 in place.
pub open spec fn word_fields(x: u64) -> (u32, u32) {
    (
        (x % 0x1_0000_0000) as u32,
        if x % 0x1_0000_0000 >= 0x8000_0000 { 0x8000_0000u32 } else { 0u32 },
    )
}

/// What `to_u64` builds: `(h as u64) << 32 + l` shifts `h` left by `32 + l`
/// bits, dropping what passes bit 63.
pub open spec fn word_value(h: u32, l: u32) -> int {
    (h * pow2((32 + l) as nat)) % (pow2(64) as int)
}

/// Splits a word into its two fields (see `word_fields`).
pub fn from_u64(x: u64) -> (fields: (u32, u32))
    ensures
        fields == word_fields(x),
{
    assert((x & (0xffff_ffff_7fff_ffffu64 >> 32u64)) == x % 0x1_0000_0000) by (bit_vector);
    assert((x & 0x8000_0000u64) == if x % 0x1_0000_0000 >= 0x8000_0000 {
        0x8000_0000u64
    } else {
        0u64
    }) by (bit_vector);
    ((x & HIGH_MASK >> 32) as u32, (x & LOW_MASK) as u32)
}

/// Shifting left by `k` keeps the low `64 - k` bits, moved up by `k`.
proof fn lemma_shl_truncates(m: u64, k: u64)
    requires
        32 <= k < 64,
        m < 0x1_0000_0000,
    ensures
        (m << k) as int == (m * pow2(k as nat)) % (pow2(64) as int),
{
    let n: u64 = (64 - k) as u64;
    vstd::arithmetic::power2::lemma2_to64_rest();
    vstd::bits::lemma_u64_pow2_no_overflow(n as nat);
    vstd::bits::lemma_u64_pow2_no_overflow(k as nat);
    vstd::arithmetic::power2::lemma_pow2_adds(n as nat, k as nat);
    vstd::arithmetic::power2::lemma_pow2_pos(n as nat);
    vstd::arithmetic::power2::lemma_pow2_pos(k as nat);
    assert(m << k == (m & (((1u64 << n) - 1u64) as u64)) << k) by (bit_vector)
        requires
            32 <= k < 64,
            n == 64 - k,
    ;
    vstd::bits::lemma_u64_shl_is_mul(1, n);
    assert(1u64 << n == pow2(n as nat));
    assert(vstd::bits::low_bits_mask(n as nat) == pow2(n as nat) - 1);
    vstd::bits::lemma_u64_low_bits_mask_is_mod(m, n as nat);
    let t: u64 = m & (((1u64 << n) - 1u64) as u64);
    assert(t == m % (pow2(n as nat) as u64));
    assert(t < pow2(n as nat));
    assert(t * pow2(k as nat) <= u64::MAX) by (nonlinear_arith)
        requires
            t < pow2(n as nat),
            pow2(n as nat) * pow2(k as nat) == pow2(64),
            pow2(64) == u64::MAX + 1,
            pow2(k as nat) > 0,
    {
        assert(t * pow2(k as nat) <= (pow2(n as nat) - 1) * pow2(k as nat));
    }
    vstd::bits::lemma_u64_shl_is_mul(t, k);
    vstd::arithmetic::div_mod::lemma_truncate_middle(
        m as int,
        pow2(k as nat) as int,
        pow2(n as nat) as int,
    );
    vstd::arithmetic::mul::lemma_mul_is_commutative(m as int, pow2(k as nat) as int);
    vstd::arithmetic::mul::lemma_mul_is_commutative(t as int, pow2(k as nat) as int);
}

/// Packs two fields into a word (see `word_value`); the shift must stay below 64.
pub fn to_u64(h: u32, l: u32) -> (x: u64)
    requires
        l < 32,
    ensures
        x == word_value(h, l),
{
    proof {
        vstd::arithmetic::power2::lemma2_to64();
        lemma_shl_truncates(h as u64, (32 + l) as u64);
    }
    (h as u64) << (32 + l as u64)
}

/// `w_lock` returns: the request word is non-zero with bit 31 clear, and the
/// completion word reads back the same fields.
pub open spec fn w_lock_ready(words: (u64, u64)) -> bool {
    &&& words.0 != 0
    &&& word_fields(words.0).1 == 0
    &&& word_fields(words.1) == word_fields(words.0)
}

/// `r_lock` returns: the request word is zero and the completion word has
/// bit 31 clear.
pub open spec fn r_lock_ready(words: (u64, u64)) -> bool {
    &&& words.0 == 0
    &&& word_fields(words.1).1 == 0
}

/// `w_ulock` and `r_ulock` return: the completion word is zero.
pub open spec fn unlock_ready(words: (u64, u64)) -> bool {
    words.1 == 0
}

impl View for RWFair {
    /// The raw request and completion words.
    type V = (u64, u64);

    closed spec fn view(&self) -> (u64, u64) {
        (self.requests, self.completions)
    }
}

/// A word whose low half is `rr` and whose bit 31 is clear is not `rr << 32`
/// unless it is zero.
proof fn lemma_ticket_mismatch(x: u64, rr: u32)
    requires
        word_fields(x).0 == rr,
        x != 0,
    ensures
        x != word_value(rr, 0),
{
    vstd::arithmetic::power2::lemma2_to64();
    vstd::arithmetic::power2::lemma2_to64_rest();
    if x == word_value(rr, 0) {
        assert(rr * 0x1_0000_0000 < 0x1_0000_0000_0000_0000) by (nonlinear_arith)
            requires
                rr < 0x1_0000_0000,
        ;
        assert(x == rr * 0x1_0000_0000);
        vstd::arithmetic::div_mod::lemma_mod_multiples_basic(rr as int, 0x1_0000_0000);
        assert(rr == 0);
    }
}

impl RWFair {
    /// A lock with both words zero.
    pub fn new() -> (lock: RWFair)
        ensures
            lock@ == (0u64, 0u64),
    {
        RWFair { requests: 0, completions: 0 }
    }

    /// Takes the write lock.
    ///
    /// The first loop keeps swapping the request word for one with the second
    /// field bumped for as long as the swap succeeds. A non-zero request word
    /// whose bit 31 is clear differs from what the swap expects, so the loop
    /// ends at once and nothing changes; a zero word would be swapped for zero
    /// forever, and a set bit 31 makes the shift in `to_u64` overflow.
    ///
    /// The second loop waits until the completion word reads
    /// back the fields of the request word. No other thread can change it
    /// while this call holds `&mut self`, so `requires` asks for that at once.
    pub fn w_lock(&mut self)
        requires
            w_lock_ready(old(self)@),
        ensures
            final(self)@ == old(self)@,
    {
        let (mut rr, mut wr) = from_u64(self.requests);
        loop
            invariant_except_break
                self.requests == old(self).requests,
                self.completions == old(self).completions,
                (rr, wr) == word_fields(self.requests),
                self.requests != 0,
                wr == 0,
            ensures
                self.requests == old(self).requests,
                self.completions == old(self).completions,
                (rr, wr) == word_fields(self.requests),
            decreases 0nat,
        {
            proof {
                lemma_ticket_mismatch(self.requests, rr);
            }
            let expected = to_u64(rr, wr);
            let bumped = to_u64(rr, wr + 1);
            if cas_u64(&mut self.requests, expected, bumped) != to_u64(rr, wr) {
                break;
            }
            let (_rr, _wr) = from_u64(self.requests);
            rr = _rr;
            wr = _wr;
        }
        loop
            invariant_except_break
                word_fields(self.completions) == (rr, wr),
            invariant
                self.completions == old(self).completions,
                self.requests == old(self).requests,
            ensures
                self.completions == old(self).completions,
                self.requests == old(self).requests,
            decreases 0nat,
        {
            let (rc, wc) = from_u64(self.completions);
            if rc == rr && wc == wr {
                break;
            }
        }
    }

    /// Takes a read lock.
    ///
    /// The first loop swaps the request word for one with the first field
    /// bumped and retries until the swap succeeds; only a zero word matches
    /// what the swap expects, and any other word would be retried forever,
    /// so `requires` asks for zero, which becomes `1 << 32`.
    ///
    /// The second loop waits until the completion word's second
    /// field (its bit 31) matches the request's, which is zero; no other thread
    /// can change it while this call holds `&mut self`.
    pub fn r_lock(&mut self)
        requires
            r_lock_ready(old(self)@),
        ensures
            final(self)@ == (0x1_0000_0000u64, old(self)@.1),
    {
        let (mut rr, mut wr) = from_u64(self.requests);
        loop
            invariant_except_break
                self.requests == 0,
                (rr, wr) == word_fields(self.requests),
            invariant
                self.completions == old(self).completions,
            ensures
                self.requests == 0x1_0000_0000,
                wr == 0,
            decreases 0nat,
        {
            proof {
                vstd::arithmetic::power2::lemma2_to64();
                vstd::arithmetic::power2::lemma2_to64_rest();
            }
            let expected = to_u64(rr, wr);
            let bumped = to_u64(rr + 1, wr);
            if cas_u64(&mut self.requests, expected, bumped) == to_u64(rr, wr) {
                break;
            }
            let (_rr, _wr) = from_u64(self.requests);
            rr = _rr;
            wr = _wr;
        }
        loop
            invariant_except_break
                word_fields(self.completions).1 == wr,
            invariant
                self.completions == old(self).completions,
                self.requests == 0x1_0000_0000,
            decreases 0nat,
        {
            let (_, wc) = from_u64(self.completions);
            if wc == wr {
                break;
            }
        }
    }

    /// Releases the write lock by swapping the completion word for one with the
    /// second field bumped, retrying until the swap succeeds. Only a zero word
    /// matches what the swap expects; it is swapped for `0 << 33`, zero again.
    pub fn w_ulock(&mut self)
        requires
            unlock_ready(old(self)@),
        ensures
            final(self)@ == old(self)@,
    {
        loop
            invariant_except_break
                self.completions == 0,
            invariant
                self.requests == old(self).requests,
            ensures
                self.completions == 0,
            decreases 0nat,
        {
            proof {
                vstd::arithmetic::power2::lemma2_to64();
                vstd::arithmetic::power2::lemma2_to64_rest();
            }
            let (rc, wc) = from_u64(self.completions);
            let expected = to_u64(rc, wc);
            let bumped = to_u64(rc, wc + 1);
            if cas_u64(&mut self.completions, expected, bumped) == to_u64(rc, wc) {
                break;
            }
        }
    }

    /// Releases a read lock by swapping the completion word for one with the
    /// first field bumped, retrying until the swap succeeds. Only a zero word
    /// matches what the swap expects; it becomes `1 << 32`.
    pub fn r_ulock(&mut self)
        requires
            unlock_ready(old(self)@),
        ensures
            final(self)@ == (old(self)@.0, 0x1_0000_0000u64),
    {
        loop
            invariant_except_break
                self.completions == 0,
            invariant
                self.requests == old(self).requests,
            ensures
                self.completions == 0x1_0000_0000,
            decreases 0nat,
        {
            proof {
                vstd::arithmetic::power2::lemma2_to64();
                vstd::arithmetic::power2::lemma2_to64_rest();
            }
            let (rc, wc) = from_u64(self.completions);
            let expected = to_u64(rc, wc);
            let bumped = to_u64(rc + 1, wc);
            if cas_u64(&mut self.completions, expected, bumped) == to_u64(rc, wc) {
                break;
            }
        }
    }
}

/// Decoding a word that `to_u64` built gives back zero for both fields,
/// whatever went in: the shift leaves the low 32 bits clear.
pub proof fn lemma_fields_of_built_word(h: u32, l: u32)
    requires
        l < 32,
    ensures
        word_fields(word_value(h, l) as u64) == (0u32, 0u32),
{
    vstd::arithmetic::power2::lemma2_to64();
    vstd::arithmetic::power2::lemma2_to64_rest();
    vstd::arithmetic::power2::lemma_pow2_adds(32, l as nat);
    vstd::arithmetic::power2::lemma_pow2_pos(l as nat);
    let p = pow2(l as nat) as int;
    let x = h * p * 0x1_0000_0000;
    vstd::arithmetic::mul::lemma_mul_is_associative(h as int, p, 0x1_0000_0000);
    vstd::arithmetic::mul::lemma_mul_is_commutative(p, 0x1_0000_0000);
    vstd::arithmetic::mul::lemma_mul_nonnegative(h as int, p);
    assert(word_value(h, l) == x % 0x1_0000_0000_0000_0000);
    vstd::arithmetic::div_mod::lemma_mod_mod(x, 0x1_0000_0000, 0x1_0000_0000);
    vstd::arithmetic::div_mod::lemma_mod_multiples_basic(h * p, 0x1_0000_0000);
    vstd::arithmetic::div_mod::lemma_mod_bound(x, 0x1_0000_0000_0000_0000);
}

/// After a reader has locked and released a fresh lock, a writer gets in.
pub proof fn lemma_writer_after_reader()
    ensures
        r_lock_ready((0u64, 0u64)),
        unlock_ready((0x1_0000_0000u64, 0u64)),
        w_lock_ready((0x1_0000_0000u64, 0x1_0000_0000u64)),
{
}

/// `to_u64` with a zero second field puts `h` in the high half; with one, it
/// shifts `h` one bit further, dropping `h`'s top bit.
pub proof fn lemma_word_value_small_shifts(h: u32)
    ensures
        word_value(h, 0) == h * 0x1_0000_0000,
        word_value(h, 1) == (h % 0x8000_0000) * 0x2_0000_0000,
{
    vstd::arithmetic::power2::lemma2_to64();
    vstd::arithmetic::power2::lemma2_to64_rest();
    assert(h * 0x1_0000_0000 < 0x1_0000_0000_0000_0000) by (nonlinear_arith)
        requires
            h < 0x1_0000_0000,
    ;
    vstd::arithmetic::div_mod::lemma_small_mod(
        (h * 0x1_0000_0000) as nat,
        0x1_0000_0000_0000_0000,
    );
    vstd::arithmetic::div_mod::lemma_truncate_middle(h as int, 0x2_0000_0000, 0x8000_0000);
    vstd::arithmetic::mul::lemma_mul_is_commutative(h as int, 0x2_0000_0000);
    vstd::arithmetic::mul::lemma_mul_is_commutative(h as int % 0x8000_0000, 0x2_0000_0000);
}

/// `from_u64` keeps the low half in its first field, and in its second only
/// bit 31, in place.
pub proof fn lemma_word_fields_layout(x: u64)
    ensures
        word_fields(x).0 as int == x % 0x1_0000_0000,
        word_fields(x).1 as int == ((x % 0x1_0000_0000) / 0x8000_0000) * 0x8000_0000,
{
}

} // verus!

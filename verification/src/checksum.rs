//! The 16-bit one's-complement sum over big-endian words.

use crate::endian::be16;
use vstd::prelude::*;

verus! {

/// The sum of the first `n` big-endian 16-bit words of `bytes`.
pub open spec fn word_sum(bytes: Seq<u8>, n: nat) -> int
    decreases n,
{
    if n == 0 {
        0
    } else {
        word_sum(bytes, (n - 1) as nat) + be16(bytes[2 * (n - 1)], bytes[2 * (n - 1) + 1])
    }
}

/// A non-negative sum reduced to 16 bits with end-around carry: zero stays
/// zero, and every other sum lands in `1..=0xffff` on the value that is
/// congruent to it modulo `0xffff`.
pub open spec fn ones_complement(sum: int) -> int {
    if sum <= 0 {
        0
    } else {
        (sum - 1) % 0xffff + 1
    }
}

/// The checksum of a run of bytes of even length: its words are added in a
/// 32-bit accumulator that wraps around, and the total is reduced to 16 bits
/// with end-around carry.
pub open spec fn checksum_of(bytes: Seq<u8>) -> int {
    ones_complement(word_sum(bytes, bytes.len() / 2) % 0x1_0000_0000)
}

/// Every word lies in `0..=0xffff`, so `n` words sum to at most `n * 0xffff`.
pub proof fn lemma_word_sum_bounds(bytes: Seq<u8>, n: nat)
    ensures
        0 <= word_sum(bytes, n) <= n * 0xffff,
    decreases n,
{
    if n > 0 {
        lemma_word_sum_bounds(bytes, (n - 1) as nat);
    }
}

/// The reduced sum fits in 16 bits and is congruent to the sum modulo `0xffff`.
pub proof fn lemma_ones_complement_congruent(sum: int)
    requires
        0 <= sum,
    ensures
        0 <= ones_complement(sum) <= 0xffff,
        ones_complement(sum) % 0xffff == sum % 0xffff,
        ones_complement(sum) == 0 <==> sum == 0,
{
}

/// Folding the high half of a 32-bit sum into its low half, twice, gives the
/// end-around-carry reduction of the sum.
pub fn fold_carries(sum: u32) -> (res: u16)
    ensures
        res == ones_complement(sum as int),
{
    assert(sum >> 16 == sum / 0x1_0000 && sum & 0xffff == sum % 0x1_0000) by (bit_vector);
    let once: u32 = (sum >> 16) + (sum & 0xffff);
    assert(once >> 16 == once / 0x1_0000 && once & 0xffff == once % 0x1_0000) by (bit_vector);
    let twice: u32 = (once >> 16) + (once & 0xffff);
    assert(twice == ones_complement(sum as int));
    twice as u16
}

/// The byte `x` with bit number `bit` inverted.
pub open spec fn flip_bit(x: u8, bit: u8) -> u8 {
    x ^ (1u8 << bit)
}

/// Inverting one bit moves a byte up or down by that bit's weight.
pub proof fn lemma_flip_bit_moves(x: u8, bit: u8)
    requires
        bit < 8,
    ensures
        flip_bit(x, bit) - x == (1u8 << bit) || x - flip_bit(x, bit) == (1u8 << bit),
        1 <= (1u8 << bit) <= 128,
{
    assert(bit < 8 ==> (x ^ (1u8 << bit)) - x == (1u8 << bit) || x - (x ^ (1u8 << bit)) == (1u8
        << bit)) by (bit_vector);
    assert(bit < 8 ==> 1 <= (1u8 << bit) <= 128) by (bit_vector);
}

/// Replacing the byte at `at` moves the sum of the first `n` words by the
/// change of the byte, times 256 where the byte is the first of its word;
/// the sum stays as it was where the byte lies behind those words.
pub proof fn lemma_word_sum_update(bytes: Seq<u8>, n: nat, at: int, v: u8)
    requires
        0 <= at < bytes.len(),
        2 * n <= bytes.len(),
    ensures
        word_sum(bytes.update(at, v), n) == word_sum(bytes, n) + (if at >= 2 * n {
            0
        } else if at % 2 == 0 {
            256 * (v - bytes[at])
        } else {
            v - bytes[at]
        }),
    decreases n,
{
    if n > 0 {
        lemma_word_sum_update(bytes, (n - 1) as nat, at, v);
        let changed = bytes.update(at, v);
        let hi = 2 * (n - 1);
        assert(changed[hi] == if at == hi { v } else { bytes[hi] });
        assert(changed[hi + 1] == if at == hi + 1 { v } else { bytes[hi + 1] });
    }
}

/// Inverting one bit of a run of bytes changes its checksum, as long as the
/// run is short enough for the 32-bit accumulator not to wrap around.
pub proof fn lemma_checksum_detects_bit_flip(bytes: Seq<u8>, at: int, bit: u8)
    requires
        bytes.len() % 2 == 0,
        bytes.len() <= 0x2_0000,
        0 <= at < bytes.len(),
        bit < 8,
    ensures
        checksum_of(bytes.update(at, flip_bit(bytes[at], bit))) != checksum_of(bytes),
{
    let n = bytes.len() / 2;
    let changed = bytes.update(at, flip_bit(bytes[at], bit));
    lemma_flip_bit_moves(bytes[at], bit);
    lemma_word_sum_update(bytes, n, at, flip_bit(bytes[at], bit));
    lemma_word_sum_bounds(bytes, n);
    lemma_word_sum_bounds(changed, n);
    let before = word_sum(bytes, n);
    let after = word_sum(changed, n);
    let delta = after - before;
    assert(0 < delta < 0xffff || 0 < -delta < 0xffff);
    lemma_ones_complement_congruent(before);
    lemma_ones_complement_congruent(after);
    assert(before % 0xffff != after % 0xffff);
}

} // verus!

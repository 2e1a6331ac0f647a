//! Big-endian 16-bit words inside byte buffers.

use byteorder::{BigEndian, ByteOrder};
use vstd::prelude::*;

verus! {

/// The value of the big-endian 16-bit word whose bytes are `hi` and `lo`.
pub open spec fn be16(hi: u8, lo: u8) -> int {
    hi as int * 256 + lo as int
}

/// The first byte of `n` written in big-endian order.
pub open spec fn high_byte(n: u16) -> u8 {
    (n / 256) as u8
}

/// The second byte of `n` written in big-endian order.
pub open spec fn low_byte(n: u16) -> u8 {
    (n % 256) as u8
}

/// Writing a word and reading it back gives the word.
pub proof fn lemma_be16_of_bytes(n: u16)
    ensures
        be16(high_byte(n), low_byte(n)) == n,
{
}

/// `byteorder::BigEndian::read_u16` on the part of `buf` that starts at `at`.
/// The contract claims that it returns the big-endian word formed by the
/// bytes at `at` and `at + 1`; the buffer must hold both.
#[verifier::external_body]
pub(crate) fn read_u16(buf: &[u8], at: usize) -> (n: u16)
    requires
        at + 2 <= buf@.len(),
    ensures
        n == be16(buf@[at as int], buf@[at + 1]),
{
    BigEndian::read_u16(&buf[at..])
}

/// `byteorder::BigEndian::write_u16` on the part of `buf` that starts at `at`.
/// The contract claims that it stores the big-endian bytes of `n` at `at` and
/// `at + 1` and leaves every other byte as it was; the buffer must hold both.
#[verifier::external_body]
pub(crate) fn write_u16(buf: &mut [u8], at: usize, n: u16)
    requires
        at + 2 <= old(buf)@.len(),
    ensures
        final(buf)@ == old(buf)@.update(at as int, high_byte(n)).update(at + 1, low_byte(n)),
{
    BigEndian::write_u16(&mut buf[at..], n)
}

} // verus!

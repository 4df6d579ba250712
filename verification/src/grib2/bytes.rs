//! Big-endian integers read out of byte buffers.

use byteorder::{BigEndian, ByteOrder};
use vstd::prelude::*;

verus! {

/// The unsigned value of the two bytes at `i`, most significant first.
pub open spec fn be16(s: Seq<u8>, i: int) -> int {
    s[i] * 0x100 + s[i + 1]
}

/// The unsigned value of the four bytes at `i`, most significant first.
pub open spec fn be32(s: Seq<u8>, i: int) -> int {
    be16(s, i) * 0x1_0000 + be16(s, i + 2)
}

/// The unsigned value of the eight bytes at `i`, most significant first.
pub open spec fn be64(s: Seq<u8>, i: int) -> int {
    be32(s, i) * 0x1_0000_0000 + be32(s, i + 4)
}

/// Reinterprets an unsigned `bits`-wide value as two's complement.
pub open spec fn twos_complement(v: int, bits: nat) -> int {
    if v >= vstd::arithmetic::power2::pow2((bits - 1) as nat) {
        v - vstd::arithmetic::power2::pow2(bits)
    } else {
        v
    }
}

/// `byteorder`'s `BigEndian::read_u16` on the two bytes at `pos`: the bytes
/// taken most significant first.
#[verifier::external_body]
pub(crate) fn read_u16_be(data: &[u8], pos: usize) -> (r: u16)
    requires
        pos + 2 <= data@.len(),
    ensures
        r as int == be16(data@, pos as int),
{
    BigEndian::read_u16(&data[pos..])
}

/// `byteorder`'s `BigEndian::read_u32` on the four bytes at `pos`: the bytes
/// taken most significant first.
#[verifier::external_body]
pub(crate) fn read_u32_be(data: &[u8], pos: usize) -> (r: u32)
    requires
        pos + 4 <= data@.len(),
    ensures
        r as int == be32(data@, pos as int),
{
    BigEndian::read_u32(&data[pos..])
}

/// `byteorder`'s `BigEndian::read_u64` on the eight bytes at `pos`: the bytes
/// taken most significant first.
#[verifier::external_body]
pub(crate) fn read_u64_be(data: &[u8], pos: usize) -> (r: u64)
    requires
        pos + 8 <= data@.len(),
    ensures
        r as int == be64(data@, pos as int),
{
    BigEndian::read_u64(&data[pos..])
}

/// `byteorder`'s `BigEndian::read_i32` on the four bytes at `pos`: the
/// big-endian value read as two's complement.
#[verifier::external_body]
pub(crate) fn read_i32_be(data: &[u8], pos: usize) -> (r: i32)
    requires
        pos + 4 <= data@.len(),
    ensures
        r as int == twos_complement(be32(data@, pos as int), 32),
{
    BigEndian::read_i32(&data[pos..])
}

} // verus!

//! Data unpacking for GRIB2 Section 7.
//!
//! Supports:
//! - Template 5.0: Simple Packing
//! - Template 5.2: Complex Packing
//! - Template 5.3: Complex Packing with Spatial Differencing (HRRR default)
//! - Template 5.40: JPEG2000
//!
//! The functions here produce the integer codes of the packed values. A code
//! `X` stands for the value `(R + X * 2^E) * 10^(-D)`, with `R` the reference
//! value and `E`, `D` the binary and decimal scale factors; that scaling is
//! floating-point work left to the caller.

use super::bytes::{read_u16_be, read_u32_be, be16, be32};
use super::error::Grib2Error;
use vstd::arithmetic::power2::{pow2, lemma_pow2_unfold, lemma2_to64, lemma2_to64_rest, lemma_pow2_strictly_increases};
use vstd::prelude::*;

verus! {

/// Bit `p` of `d`, counting from the most significant bit of the first byte;
/// bits past the end of `d` read as 0.
pub open spec fn bit_at(d: Seq<u8>, p: int) -> int {
    if 0 <= p && p / 8 < d.len() {
        ((d[p / 8] >> ((7 - p % 8) as u8)) & 1u8) as int
    } else {
        0
    }
}

/// The unsigned number formed by the `n` bits of `d` starting at bit `off`,
/// most significant first.
pub open spec fn bits_value(d: Seq<u8>, off: int, n: nat) -> nat
    decreases n,
{
    if n == 0 {
        0
    } else {
        (bits_value(d, off, (n - 1) as nat) * 2 + bit_at(d, off + n - 1)) as nat
    }
}

/// The unsigned number formed by the `n` bytes of `d` starting at `off`,
/// most significant first.
pub open spec fn bytes_value(d: Seq<u8>, off: int, n: nat) -> nat
    decreases n,
{
    if n == 0 {
        0
    } else {
        (bytes_value(d, off, (n - 1) as nat) * 256 + d[off + n - 1]) as nat
    }
}

/// A GRIB2 sign-magnitude value of `bits` bits: the most significant bit is
/// the sign (1 = negative), the rest is the magnitude.
pub open spec fn sign_magnitude(v: int, bits: nat) -> int {
    if v >= pow2((bits - 1) as nat) {
        -(v - pow2((bits - 1) as nat))
    } else {
        v
    }
}

proof fn lemma_pow2_le(a: nat, b: nat)
    requires
        a <= b,
    ensures
        pow2(a) <= pow2(b),
{
    if a < b {
        lemma_pow2_strictly_increases(a, b);
    }
}

/// A field of `n` bits holds a number below `2^n`.
pub proof fn lemma_bits_value_bound(d: Seq<u8>, off: int, n: nat)
    ensures
        bits_value(d, off, n) < pow2(n),
    decreases n,
{
    if n == 0 {
        lemma2_to64();
    } else {
        lemma_bits_value_bound(d, off, (n - 1) as nat);
        lemma_pow2_unfold(n);
        assert(bit_at(d, off + n - 1) <= 1) by {
            if 0 <= off + n - 1 && (off + n - 1) / 8 < d.len() {
                let b = d[(off + n - 1) / 8];
                let s = (7 - (off + n - 1) % 8) as u8;
                assert((b >> s) & 1u8 <= 1u8) by (bit_vector);
            }
        }
    }
}

proof fn lemma_bytes_value_bound(d: Seq<u8>, off: int, n: nat)
    ensures
        bytes_value(d, off, n) < pow2(8 * n),
    decreases n,
{
    if n == 0 {
        lemma2_to64();
    } else {
        lemma_bytes_value_bound(d, off, (n - 1) as nat);
        vstd::arithmetic::power2::lemma_pow2_adds(8 * (n - 1) as nat, 8);
        lemma2_to64();
        assert(bytes_value(d, off, n) <= (pow2(8 * (n - 1) as nat) - 1) * 256 + 255) by (nonlinear_arith)
            requires
                bytes_value(d, off, n) == bytes_value(d, off, (n - 1) as nat) * 256 + d[off + n - 1],
                bytes_value(d, off, (n - 1) as nat) < pow2(8 * (n - 1) as nat),
                d[off + n - 1] <= 255,
        ;
        assert(8 * (n - 1) as nat + 8 == 8 * n);
    }
}

/// Converts a GRIB2 sign-magnitude 16-bit integer: the most significant bit
/// is the sign (1 = negative), the other 15 bits are the magnitude.
pub fn sign_magnitude_16(raw: u16) -> (r: i16)
    ensures
        r as int == sign_magnitude(raw as int, 16),
{
    proof {
        lemma2_to64();
    }
    if raw & 0x8000 != 0 {
        assert(raw & 0x8000 != 0 ==> raw >= 0x8000 && raw & 0x7FFF == raw - 0x8000) by (bit_vector);
        -((raw & 0x7FFF) as i16)
    } else {
        assert(raw & 0x8000 == 0 ==> raw < 0x8000) by (bit_vector);
        raw as i16
    }
}

/// Extracts `num_bits` bits starting at bit `bit_offset` of `data`, most
/// significant first; bits past the end of `data` read as 0. The result is
/// the low 32 bits of that number.
pub fn extract_bits(data: &[u8], bit_offset: usize, num_bits: usize) -> (r: u32)
    requires
        num_bits < 64,
    ensures
        r as int == bits_value(data@, bit_offset as int, num_bits as nat) % 0x1_0000_0000,
{
    if num_bits == 0 {
        return 0;
    }
    let start_byte = bit_offset / 8;
    let start_bit = bit_offset % 8;
    let mut result: u64 = 0;
    let mut k: usize = 0;
    while k < num_bits
        invariant
            k <= num_bits < 64,
            start_byte == bit_offset / 8,
            start_bit == bit_offset % 8,
            result as int == bits_value(data@, bit_offset as int, k as nat),
        decreases num_bits - k,
    {
        let byte_idx = start_byte + (start_bit + k) / 8;
        let shift = 7 - ((start_bit + k) % 8);
        assert(byte_idx as int == (bit_offset + k) / 8 && shift as int == 7 - (bit_offset + k) % 8);
        let bit: u64 = if byte_idx < data.len() {
            ((data[byte_idx] >> (shift as u8)) & 1u8) as u64
        } else {
            0
        };
        proof {
            lemma_bits_value_bound(data@, bit_offset as int, k as nat);
            lemma_pow2_le(k as nat, 62);
            lemma2_to64_rest();
            assert(bit <= 1) by {
                if byte_idx < data.len() {
                    let b = data@[byte_idx as int];
                    let s = shift as u8;
                    assert((b >> s) & 1u8 <= 1u8) by (bit_vector);
                }
            }
        }
        result = result * 2 + bit;
        k = k + 1;
    }
    proof {
        lemma_bits_value_bound(data@, bit_offset as int, num_bits as nat);
    }
    let low = result & 0xFFFF_FFFFu64;
    assert(result & 0xFFFF_FFFFu64 == result % 0x1_0000_0000) by (bit_vector);
    low as u32
}

/// The value `read_signed_bytes` reads: 0 when `n` is 0 or the bytes run past
/// the end, else the `n`-byte big-endian sign-magnitude number.
pub open spec fn signed_bytes_value(d: Seq<u8>, offset: int, n: nat) -> int {
    if n == 0 || offset + n > d.len() {
        0
    } else {
        sign_magnitude(bytes_value(d, offset, n) as int, 8 * n)
    }
}

/// Whether `read_signed_bytes` is defined on these arguments: a read of more
/// than eight bytes that lies within the data cannot be done.
pub open spec fn signed_bytes_defined(len: int, offset: int, n: nat) -> bool {
    n == 0 || offset + n > len || n <= 8
}

/// Reads a signed integer from `n` bytes (big-endian, sign-magnitude with the
/// most significant bit as the sign). Reads of zero bytes or past the end of
/// the data give 0.
pub fn read_signed_bytes(data: &[u8], offset: usize, n: usize) -> (r: i64)
    requires
        offset + n <= usize::MAX,
        signed_bytes_defined(data@.len() as int, offset as int, n as nat),
    ensures
        r as int == signed_bytes_value(data@, offset as int, n as nat),
{
    if n == 0 || offset + n > data.len() {
        return 0;
    }
    let mut val: u64 = 0;
    let mut i: usize = 0;
    while i < n
        invariant
            1 <= n <= 8,
            offset + n <= data@.len(),
            offset + n <= usize::MAX,
            i <= n,
            val as int == bytes_value(data@, offset as int, i as nat),
        decreases n - i,
    {
        proof {
            lemma_bytes_value_bound(data@, offset as int, i as nat);
            lemma_pow2_le(8 * i as nat, 56);
            lemma2_to64_rest();
        }
        val = val * 256 + data[offset + i] as u64;
        i = i + 1;
    }
    proof {
        lemma_bytes_value_bound(data@, offset as int, n as nat);
        lemma2_to64();
        lemma2_to64_rest();
        vstd::arithmetic::power2::lemma_pow2_adds((8 * n - 1) as nat, 1);
        lemma_pow2_le((8 * n - 1) as nat, 63);
    }
    let shift: u64 = (n * 8 - 1) as u64;
    let sign_bit: u64 = 1u64 << shift;
    assert(sign_bit == pow2(shift as nat)) by {
        vstd::bits::lemma_u64_shl_is_mul(1, shift);
        lemma2_to64();
    }
    if val & sign_bit != 0 {
        assert(val < 2 * sign_bit ==> (val & sign_bit != 0) ==> val >= sign_bit) by (bit_vector)
            requires sign_bit == 1u64 << shift, shift < 64;
        let mask: u64 = sign_bit - 1;
        assert(val < 2 * sign_bit && val >= sign_bit ==> (val & mask) == val - sign_bit) by (bit_vector)
            requires sign_bit == 1u64 << shift, shift < 64, mask + 1 == sign_bit;
        -((val & mask) as i64)
    } else {
        assert(val < 2 * sign_bit ==> (val & sign_bit == 0) ==> val < sign_bit) by (bit_vector)
            requires sign_bit == 1u64 << shift, shift < 64;
        val as i64
    }
}

/// The integer codes a packing produces for a field.
#[derive(Debug)]
pub enum UnpackedCodes {
    /// Every one of `count` points takes the reference value itself, unscaled.
    Reference { count: usize },
    /// One code per point, each standing for `(R + code * 2^E) * 10^(-D)`.
    Scaled { codes: Vec<i64> },
}

/// The code of point `i` under simple packing with `nb` bits per value.
pub open spec fn simple_code(raw: Seq<u8>, i: int, nb: nat) -> int {
    (bits_value(raw, i * nb, nb) % 0x1_0000_0000) as int
}

/// `codes` holds, for each of `n` points, the simple-packing code with `nb`
/// bits per value.
pub open spec fn simple_codes_are(codes: Seq<i64>, raw: Seq<u8>, n: int, nb: nat) -> bool {
    &&& codes.len() == n
    &&& forall|i: int| 0 <= i < n ==> #[trigger] codes[i] == simple_code(raw, i, nb)
}

/// The `bits`-wide value number `i` of a run that starts at bit `start`,
/// as `extract_bits` returns it.
pub open spec fn packed_value(raw: Seq<u8>, start: int, i: int, bits: nat) -> int {
    (bits_value(raw, start + i * bits, bits) % 0x1_0000_0000) as int
}

/// Reads `count` consecutive values of `bits` bits each, from bit `start`.
fn read_packed_values(raw: &[u8], start: usize, count: usize, bits: usize) -> (codes: Vec<i64>)
    requires
        count > 0 ==> bits < 64,
        start + count * bits <= usize::MAX,
    ensures
        codes@.len() == count,
        forall|i: int|
            0 <= i < count ==> #[trigger] codes@[i] == packed_value(raw@, start as int, i, bits as nat),
{
    let mut codes: Vec<i64> = Vec::new();
    let mut bit_offset: usize = start;
    let mut i: usize = 0;
    while i < count
        invariant
            count > 0 ==> bits < 64,
            start + count * bits <= usize::MAX,
            i <= count,
            bit_offset == start + i * bits,
            codes@.len() == i,
            forall|j: int|
                0 <= j < i ==> #[trigger] codes@[j] == packed_value(raw@, start as int, j, bits as nat),
        decreases count - i,
    {
        let code = extract_bits(raw, bit_offset, bits);
        codes.push(code as i64);
        assert((i + 1) * bits == i * bits + bits) by (nonlinear_arith);
        assert((i + 1) * bits <= count * bits) by (nonlinear_arith)
            requires
                i + 1 <= count,
        ;
        bit_offset = bit_offset + bits;
        i = i + 1;
    }
    codes
}

/// Reads `num_points` consecutive values of `bits` bits each, from bit 0.
fn read_packed_codes(raw: &[u8], num_points: usize, bits: usize) -> (codes: Vec<i64>)
    requires
        0 < bits < 64,
        num_points * bits <= usize::MAX,
    ensures
        simple_codes_are(codes@, raw@, num_points as int, bits as nat),
{
    let codes = read_packed_values(raw, 0, num_points, bits);
    assert forall|i: int| 0 <= i < num_points implies #[trigger] codes@[i] == simple_code(
        raw@,
        i,
        bits as nat,
    ) by {
        assert(codes@[i] == packed_value(raw@, 0, i, bits as nat));
    }
    codes
}

/// Parameters for simple packing (Data Representation Template 5.0).
#[derive(Debug, Clone, Copy)]
pub struct SimplePacking {
    /// The reference value R, as the bits of an IEEE 754 single.
    pub reference_value_bits: u32,
    pub binary_scale_factor: i16,
    pub decimal_scale_factor: i16,
    pub num_bits: u8,
    /// 0 = floating point, 1 = integer.
    pub original_type: u8,
}

impl SimplePacking {
    /// The result of parsing `d` as template 5.0: reference value, binary and
    /// decimal scale factors (sign-magnitude), bits per value, original type.
    pub open spec fn spec_parse(d: Seq<u8>) -> Result<Self, Grib2Error> {
        if d.len() < 10 {
            Err(Grib2Error::UnexpectedEof)
        } else {
            Ok(SimplePacking {
                reference_value_bits: be32(d, 0) as u32,
                binary_scale_factor: sign_magnitude(be16(d, 4), 16) as i16,
                decimal_scale_factor: sign_magnitude(be16(d, 6), 16) as i16,
                num_bits: d[8],
                original_type: d[9],
            })
        }
    }

    /// Parses template 5.0 parameters from section 5 data (after the template number).
    pub fn parse(data: &[u8]) -> (r: Result<Self, Grib2Error>)
        ensures
            r == Self::spec_parse(data@),
    {
        if data.len() < 10 {
            return Err(Grib2Error::UnexpectedEof);
        }
        let reference_value_bits = read_u32_be(data, 0);
        let binary_scale_factor = sign_magnitude_16(read_u16_be(data, 4));
        let decimal_scale_factor = sign_magnitude_16(read_u16_be(data, 6));
        Ok(SimplePacking {
            reference_value_bits,
            binary_scale_factor,
            decimal_scale_factor,
            num_bits: data[8],
            original_type: data[9],
        })
    }

    /// Whether unpacking `num_points` values is defined: with a nonzero
    /// width, values are at most 63 bits wide and their bit offsets stay
    /// within `usize`.
    pub open spec fn unpack_defined(self, num_points: int) -> bool {
        self.num_bits == 0 || (self.num_bits < 64 && num_points * self.num_bits <= usize::MAX)
    }

    /// Unpacks the codes from section 7 raw bytes: with zero bits per value
    /// every point is the reference value, otherwise point `i` is the
    /// `num_bits`-bit number at bit `i * num_bits`.
    pub fn unpack_codes(&self, raw_data: &[u8], num_points: usize) -> (r: UnpackedCodes)
        requires
            self.unpack_defined(num_points as int),
        ensures
            self.num_bits == 0 ==> r == (UnpackedCodes::Reference { count: num_points }),
            self.num_bits != 0 ==> (r matches UnpackedCodes::Scaled { codes } && simple_codes_are(
                codes@,
                raw_data@,
                num_points as int,
                self.num_bits as nat,
            )),
    {
        if self.num_bits == 0 {
            return UnpackedCodes::Reference { count: num_points };
        }
        UnpackedCodes::Scaled { codes: read_packed_codes(raw_data, num_points, self.num_bits as usize) }
    }
}

/// Parameters for JPEG2000 packing (Data Representation Template 5.40).
#[derive(Debug, Clone, Copy)]
pub struct Jpeg2000Packing {
    /// The reference value R, as the bits of an IEEE 754 single.
    pub reference_value_bits: u32,
    pub binary_scale_factor: i16,
    pub decimal_scale_factor: i16,
    pub num_bits: u8,
    pub original_type: u8,
    pub compression_type: u8,
    pub compression_ratio: u8,
}

/// What the minimal JPEG2000 reader makes of `d`: codestreams and JP2 files
/// are refused, anything else is read as plain packed values when it holds
/// enough bits.
pub open spec fn jpeg2000_minimal_result(d: Seq<u8>, n: int, nb: nat) -> Result<(), Grib2Error> {
    if d.len() < 2 {
        Err(Grib2Error::Jpeg2000TooShort)
    } else if d[0] == 0xFF && d[1] == 0x4F {
        Err(Grib2Error::Jpeg2000Codestream)
    } else if d.len() >= 4 && d[0] == 0 && d[1] == 0 && d[2] == 0 && d[3] == 0x0C {
        Err(Grib2Error::Jpeg2000FileFormat)
    } else if nb > 0 && d.len() * 8 >= n * nb {
        Ok(())
    } else {
        Err(Grib2Error::Jpeg2000Undecodable)
    }
}

/// Whether the minimal JPEG2000 reader is defined on these arguments: once
/// it compares bit counts, `8 * len` and `n * nb` stay within `usize`, and
/// values it reads are at most 63 bits wide.
pub open spec fn jpeg2000_minimal_defined(d: Seq<u8>, n: int, nb: nat) -> bool {
    let reaches_count = d.len() >= 2 && !(d[0] == 0xFF && d[1] == 0x4F) && !(d.len() >= 4
        && d[0] == 0 && d[1] == 0 && d[2] == 0 && d[3] == 0x0C);
    reaches_count ==> d.len() * 8 <= usize::MAX && (nb > 0 ==> n * nb <= usize::MAX) && (
    jpeg2000_minimal_result(d, n, nb) is Ok ==> (nb < 64 || n == 0))
}

/// Attempts a minimal JPEG2000 decode. A JPEG2000 codestream (SOC marker
/// 0xFF4F) or JP2 file is refused; data without those markers is read as
/// plain packed values of `num_bits` bits when it holds enough bits.
pub fn decode_jpeg2000_minimal(data: &[u8], num_points: usize, num_bits: u8) -> (r: Result<
    Vec<i64>,
    Grib2Error,
>)
    requires
        jpeg2000_minimal_defined(data@, num_points as int, num_bits as nat),
    ensures
        match jpeg2000_minimal_result(data@, num_points as int, num_bits as nat) {
            Ok(_) => (r matches Ok(codes) && simple_codes_are(
                codes@,
                data@,
                num_points as int,
                num_bits as nat,
            )),
            Err(e) => r == Err::<Vec<i64>, Grib2Error>(e),
        },
{
    if data.len() < 2 {
        return Err(Grib2Error::Jpeg2000TooShort);
    }
    if data[0] == 0xFF && data[1] == 0x4F {
        return Err(Grib2Error::Jpeg2000Codestream);
    }
    if data.len() >= 4 && data[0] == 0x00 && data[1] == 0x00 && data[2] == 0x00 && data[3] == 0x0C {
        return Err(Grib2Error::Jpeg2000FileFormat);
    }
    let bits_per_val = num_bits as usize;
    if bits_per_val > 0 && data.len() * 8 >= num_points * bits_per_val {
        if num_points == 0 {
            return Ok(Vec::new());
        }
        return Ok(read_packed_codes(data, num_points, bits_per_val));
    }
    Err(Grib2Error::Jpeg2000Undecodable)
}

impl Jpeg2000Packing {
    /// The result of parsing `d` as template 5.40 (sign-magnitude scale factors,
    /// as everywhere in GRIB2).
    pub open spec fn spec_parse(d: Seq<u8>) -> Result<Self, Grib2Error> {
        if d.len() < 12 {
            Err(Grib2Error::UnexpectedEof)
        } else {
            Ok(Jpeg2000Packing {
                reference_value_bits: be32(d, 0) as u32,
                binary_scale_factor: sign_magnitude(be16(d, 4), 16) as i16,
                decimal_scale_factor: sign_magnitude(be16(d, 6), 16) as i16,
                num_bits: d[8],
                original_type: d[9],
                compression_type: d[10],
                compression_ratio: d[11],
            })
        }
    }

    /// Parses template 5.40 parameters.
    pub fn parse(data: &[u8]) -> (r: Result<Self, Grib2Error>)
        ensures
            r == Self::spec_parse(data@),
    {
        if data.len() < 12 {
            return Err(Grib2Error::UnexpectedEof);
        }
        Ok(Jpeg2000Packing {
            reference_value_bits: read_u32_be(data, 0),
            binary_scale_factor: sign_magnitude_16(read_u16_be(data, 4)),
            decimal_scale_factor: sign_magnitude_16(read_u16_be(data, 6)),
            num_bits: data[8],
            original_type: data[9],
            compression_type: data[10],
            compression_ratio: data[11],
        })
    }

    /// Whether unpacking is defined: with a nonzero width the minimal
    /// decoder is defined.
    pub open spec fn unpack_defined(self, raw: Seq<u8>, num_points: int) -> bool {
        self.num_bits == 0 || jpeg2000_minimal_defined(raw, num_points, self.num_bits as nat)
    }

    /// Unpacks JPEG2000 data. With zero bits per value every point is the
    /// reference value. Otherwise the minimal decoder runs; when it cannot
    /// decode the data, every point falls back to the reference value and the
    /// decoder's error is returned beside the codes.
    pub fn unpack_codes(&self, raw_data: &[u8], num_points: usize) -> (r: (
        UnpackedCodes,
        Option<Grib2Error>,
    ))
        requires
            self.unpack_defined(raw_data@, num_points as int),
        ensures
            self.num_bits == 0 ==> r == (UnpackedCodes::Reference { count: num_points }, None::<Grib2Error>),
            self.num_bits != 0 ==> match jpeg2000_minimal_result(
                raw_data@,
                num_points as int,
                self.num_bits as nat,
            ) {
                Ok(_) => r.1 is None && (r.0 matches UnpackedCodes::Scaled { codes }
                    && simple_codes_are(codes@, raw_data@, num_points as int, self.num_bits as nat)),
                Err(e) => r == (UnpackedCodes::Reference { count: num_points }, Some(e)),
            },
    {
        if self.num_bits == 0 {
            return (UnpackedCodes::Reference { count: num_points }, None);
        }
        match decode_jpeg2000_minimal(raw_data, num_points, self.num_bits) {
            Ok(codes) => (UnpackedCodes::Scaled { codes }, None),
            Err(e) => (UnpackedCodes::Reference { count: num_points }, Some(e)),
        }
    }
}

/// `x` rounded up to a multiple of 8 (the next byte boundary of a bit offset).
pub open spec fn align8(x: int) -> int {
    (x + 7) / 8 * 8
}

/// Whether `x` fits in an `i64`.
pub open spec fn in_i64(x: int) -> bool {
    i64::MIN <= x <= i64::MAX
}

/// Parameters for Complex Packing with Spatial Differencing (Templates 5.2 and 5.3).
#[derive(Debug, Clone, Copy)]
pub struct ComplexPacking {
    /// The reference value R, as the bits of an IEEE 754 single.
    pub reference_value_bits: u32,
    pub binary_scale_factor: i16,
    pub decimal_scale_factor: i16,
    pub num_bits: u8,
    pub original_type: u8,
    pub group_splitting_method: u8,
    pub missing_value_management: u8,
    pub primary_missing_substitute: u32,
    pub secondary_missing_substitute: u32,
    pub num_groups: u32,
    pub group_width_ref: u8,
    pub group_width_bits: u8,
    pub group_length_ref: u32,
    pub group_length_increment: u8,
    pub last_group_length: u32,
    pub group_length_bits: u8,
    /// Order of spatial differencing (template 5.3 only; 0 otherwise).
    pub spatial_order: u8,
    /// Octets per extra descriptor value (template 5.3 only; 0 otherwise).
    pub extra_descriptors: u8,
}

impl ComplexPacking {
    /// The result of parsing `d` as template 5.2 (or 5.3 when
    /// `has_spatial_diff`): 36 bytes of complex packing parameters, then for
    /// 5.3 the order of spatial differencing and the octets per extra value.
    pub open spec fn spec_parse(d: Seq<u8>, has_spatial_diff: bool) -> Result<Self, Grib2Error> {
        if d.len() < 36 || (has_spatial_diff && d.len() < 38) {
            Err(Grib2Error::UnexpectedEof)
        } else {
            Ok(ComplexPacking {
                reference_value_bits: be32(d, 0) as u32,
                binary_scale_factor: sign_magnitude(be16(d, 4), 16) as i16,
                decimal_scale_factor: sign_magnitude(be16(d, 6), 16) as i16,
                num_bits: d[8],
                original_type: d[9],
                group_splitting_method: d[10],
                missing_value_management: d[11],
                primary_missing_substitute: be32(d, 12) as u32,
                secondary_missing_substitute: be32(d, 16) as u32,
                num_groups: be32(d, 20) as u32,
                group_width_ref: d[24],
                group_width_bits: d[25],
                group_length_ref: be32(d, 26) as u32,
                group_length_increment: d[30],
                last_group_length: be32(d, 31) as u32,
                group_length_bits: d[35],
                spatial_order: if has_spatial_diff { d[36] } else { 0 },
                extra_descriptors: if has_spatial_diff { d[37] } else { 0 },
            })
        }
    }

    /// Parses template 5.2 or 5.3 parameters.
    pub fn parse(data: &[u8], has_spatial_diff: bool) -> (r: Result<Self, Grib2Error>)
        ensures
            r == Self::spec_parse(data@, has_spatial_diff),
    {
        if data.len() < 36 || (has_spatial_diff && data.len() < 38) {
            return Err(Grib2Error::UnexpectedEof);
        }
        let (spatial_order, extra_descriptors) = if has_spatial_diff {
            (data[36], data[37])
        } else {
            (0, 0)
        };
        Ok(ComplexPacking {
            reference_value_bits: read_u32_be(data, 0),
            binary_scale_factor: sign_magnitude_16(read_u16_be(data, 4)),
            decimal_scale_factor: sign_magnitude_16(read_u16_be(data, 6)),
            num_bits: data[8],
            original_type: data[9],
            group_splitting_method: data[10],
            missing_value_management: data[11],
            primary_missing_substitute: read_u32_be(data, 12),
            secondary_missing_substitute: read_u32_be(data, 16),
            num_groups: read_u32_be(data, 20),
            group_width_ref: data[24],
            group_width_bits: data[25],
            group_length_ref: read_u32_be(data, 26),
            group_length_increment: data[30],
            last_group_length: read_u32_be(data, 31),
            group_length_bits: data[35],
            spatial_order,
            extra_descriptors,
        })
    }

    /// Number of groups.
    pub open spec fn ng(self) -> int {
        self.num_groups as int
    }

    /// Bit offset of the group reference values: after the spatial
    /// differencing values (the first `spatial_order` values and the overall
    /// minimum, `extra_descriptors` octets each), when there are any.
    pub open spec fn refs_start(self) -> int {
        if self.spatial_order > 0 {
            (self.spatial_order + 1) * self.extra_descriptors * 8
        } else {
            0
        }
    }

    /// Bit offset of the group widths: the reference values, `num_bits`
    /// each, rounded up to a byte boundary.
    pub open spec fn widths_start(self) -> int {
        align8(self.refs_start() + self.ng() * self.num_bits)
    }

    /// Bit offset of the group lengths.
    pub open spec fn lengths_start(self) -> int {
        align8(self.widths_start() + self.ng() * self.group_width_bits)
    }

    /// Bit offset just after the group lengths; only the first `ng - 1`
    /// groups have a stored length.
    pub open spec fn lengths_end(self) -> int {
        self.lengths_start() + if self.group_length_bits > 0 {
            (self.ng() - 1) * self.group_length_bits
        } else {
            0
        }
    }

    /// Bit offset of the packed values.
    pub open spec fn values_start(self) -> int {
        align8(self.lengths_end())
    }

    /// Reference value of group `g`.
    pub open spec fn group_ref(self, d: Seq<u8>, g: int) -> int {
        packed_value(d, self.refs_start(), g, self.num_bits as nat)
    }

    /// Stored width of group `g`, as the low 8 bits of what is read.
    pub open spec fn group_raw_width(self, d: Seq<u8>, g: int) -> int {
        packed_value(d, self.widths_start(), g, self.group_width_bits as nat) % 256
    }

    /// Bit width of the values of group `g`.
    pub open spec fn group_width(self, d: Seq<u8>, g: int) -> int {
        self.group_raw_width(d, g) + self.group_width_ref
    }

    /// Stored length of group `g`.
    pub open spec fn group_raw_length(self, d: Seq<u8>, g: int) -> int {
        packed_value(d, self.lengths_start(), g, self.group_length_bits as nat)
    }

    /// Number of values of group `g`: the last group has the declared last
    /// length, the others the length reference plus their stored length
    /// times the length increment.
    pub open spec fn group_length(self, d: Seq<u8>, g: int) -> int {
        if g == self.ng() - 1 {
            self.last_group_length as int
        } else {
            self.group_length_ref + self.group_raw_length(d, g) * self.group_length_increment
        }
    }

    /// Bit offset of the first value of group `g`.
    pub open spec fn group_start(self, d: Seq<u8>, g: int) -> int
        decreases g,
    {
        if g <= 0 {
            self.values_start()
        } else {
            self.group_start(d, g - 1) + self.group_length(d, g - 1) * self.group_width(d, g - 1)
        }
    }

    /// The codes of group `g`: its reference plus each of its packed values.
    pub open spec fn group_codes(self, d: Seq<u8>, g: int) -> Seq<int> {
        Seq::new(
            self.group_length(d, g) as nat,
            |k: int|
                self.group_ref(d, g) + packed_value(
                    d,
                    self.group_start(d, g),
                    k,
                    self.group_width(d, g) as nat,
                ),
        )
    }

    /// The codes of the groups before `g`, in order.
    pub open spec fn codes_before(self, d: Seq<u8>, g: int) -> Seq<int>
        decreases g,
    {
        if g <= 0 {
            Seq::empty()
        } else {
            self.codes_before(d, g - 1) + self.group_codes(d, g - 1)
        }
    }

    /// Whether reading the group descriptors is defined: spatial values of
    /// more than eight octets are never read, reference values, widths and
    /// lengths are at most 63 bits wide where read, widths and lengths do not
    /// overflow their 8-bit and 32-bit types, and bit offsets stay within
    /// `usize`.
    pub open spec fn descriptors_defined(self, d: Seq<u8>) -> bool {
        &&& !(self.spatial_order > 0 && self.extra_descriptors >= 9 && self.extra_descriptors <= d.len())
        &&& self.num_bits < 64
        &&& self.group_width_bits < 64
        &&& (self.group_length_bits > 0 && self.ng() >= 2 ==> self.group_length_bits < 64)
        &&& forall|g: int| 0 <= g < self.ng() ==> #[trigger] self.group_width(d, g) <= 255
        &&& forall|g: int|
            0 <= g < self.ng() - 1 ==> #[trigger] self.group_raw_length(d, g) * self.group_length_increment
                <= u32::MAX && self.group_length(d, g) <= u32::MAX
        &&& self.lengths_end() + 7 <= usize::MAX
    }

    /// Whether reading the packed values is defined: groups with values are
    /// at most 63 bits wide and bit offsets stay within `usize`.
    pub open spec fn values_defined(self, d: Seq<u8>) -> bool {
        &&& forall|g: int|
            0 <= g < self.ng() ==> #[trigger] self.group_width(d, g) >= 64 ==> self.group_length(d, g) == 0
        &&& self.group_start(d, self.ng()) <= usize::MAX
    }

    /// The first values stored before the groups (spatial differencing).
    pub open spec fn first_values(self, d: Seq<u8>) -> Seq<int> {
        Seq::new(
            self.spatial_order as nat,
            |k: int| signed_bytes_value(d, k * self.extra_descriptors, self.extra_descriptors as nat),
        )
    }

    /// The overall minimum stored before the groups (spatial differencing).
    pub open spec fn spatial_min(self, d: Seq<u8>) -> int {
        signed_bytes_value(d, self.spatial_order * self.extra_descriptors, self.extra_descriptors as nat)
    }

    /// The sequence differencing is undone on: the first values, then every
    /// group code plus the overall minimum.
    pub open spec fn differenced(self, d: Seq<u8>) -> Seq<int> {
        let codes = self.codes_before(d, self.ng());
        self.first_values(d) + Seq::new(codes.len(), |i: int| codes[i] + self.spatial_min(d))
    }

    /// Whether undoing spatial differencing is defined: every sum stays
    /// within `i64`.
    pub open spec fn spatial_defined(self, d: Seq<u8>) -> bool {
        self.spatial_order > 0 ==> {
            let codes = self.codes_before(d, self.ng());
            &&& forall|i: int| 0 <= i < codes.len() ==> #[trigger] in_i64(codes[i] + self.spatial_min(d))
            &&& (self.spatial_order == 1 ==> first_order_fits(self.differenced(d)))
            &&& (self.spatial_order == 2 ==> second_order_fits(self.differenced(d)))
        }
    }

    /// Whether unpacking is defined (see the parts).
    pub open spec fn unpack_defined(self, d: Seq<u8>) -> bool {
        self.ng() > 0 ==> self.descriptors_defined(d) && self.values_defined(d) && self.spatial_defined(d)
    }

    /// The codes of the field before truncation: the group codes, or with
    /// spatial differencing of order 1 or 2 the undifferenced sequence.
    pub open spec fn all_codes(self, d: Seq<u8>) -> Seq<int> {
        if self.spatial_order == 0 {
            self.codes_before(d, self.ng())
        } else if self.spatial_order == 1 {
            undo_first_order(self.differenced(d))
        } else if self.spatial_order == 2 {
            undo_second_order(self.differenced(d))
        } else {
            self.differenced(d)
        }
    }
}

/// The first `n` elements of `s`, or all of `s` when it is shorter.
pub open spec fn take_at_most<A>(s: Seq<A>, n: int) -> Seq<A> {
    if s.len() <= n {
        s
    } else {
        s.take(n)
    }
}

/// Undoes first-order differencing: each element is added to the running
/// sum of the ones before it.
pub open spec fn undo_first_order(f: Seq<int>) -> Seq<int>
    decreases f.len(),
{
    if f.len() <= 1 {
        f
    } else {
        let p = undo_first_order(f.drop_last());
        p.push(f.last() + p.last())
    }
}

/// Whether every partial sum of first-order undifferencing fits in `i64`.
pub open spec fn first_order_fits(f: Seq<int>) -> bool {
    forall|i: int| 0 <= i < f.len() ==> #[trigger] in_i64(undo_first_order(f)[i])
}

/// Undoes second-order differencing: from the third element on, each
/// element becomes itself plus twice the previous result minus the one
/// before that.
pub open spec fn undo_second_order(f: Seq<int>) -> Seq<int>
    decreases f.len(),
{
    if f.len() <= 2 {
        f
    } else {
        let p = undo_second_order(f.drop_last());
        p.push(f.last() + 2 * p[p.len() - 1] - p[p.len() - 2])
    }
}

/// Whether every intermediate of second-order undifferencing fits in `i64`:
/// twice the previous result, the sum with the element, and the difference.
pub open spec fn second_order_fits(f: Seq<int>) -> bool {
    forall|i: int| 2 <= i < f.len() ==> #[trigger] second_order_step_fits(f, i)
}

/// Whether the intermediates of step `i` of second-order undifferencing fit
/// in `i64`.
pub open spec fn second_order_step_fits(f: Seq<int>, i: int) -> bool {
    &&& in_i64(2 * undo_second_order(f)[i - 1])
    &&& in_i64(f[i] + 2 * undo_second_order(f)[i - 1])
    &&& in_i64(f[i] + 2 * undo_second_order(f)[i - 1] - undo_second_order(f)[i - 2])
}

/// Rounds a bit offset up to a byte boundary; `None` when `x + 7` passes
/// `usize::MAX`.
fn align_to_byte(x: usize) -> (r: Option<usize>)
    ensures
        r is None <==> x + 7 > usize::MAX,
        r matches Some(v) ==> v == align8(x as int),
{
    match x.checked_add(7) {
        None => None,
        Some(y) => {
            let v = y & !7usize;
            assert(y & !7usize == y - y % 8) by (bit_vector);
            Some(v)
        },
    }
}

/// `start + count * bits`, or `None` when that passes `usize::MAX`.
fn run_end(start: usize, count: usize, bits: usize) -> (r: Option<usize>)
    ensures
        r is None <==> start + count * bits > usize::MAX,
        r matches Some(v) ==> v == start + count * bits,
{
    match count.checked_mul(bits) {
        None => {
            assert(start + count * bits > usize::MAX) by (nonlinear_arith)
                requires
                    count * bits > usize::MAX,
            ;
            None
        },
        Some(m) => start.checked_add(m),
    }
}

/// Group widths: each stored width (low 8 bits) plus the width reference;
/// `None` when a sum passes 255.
fn group_widths_from(raw_widths: &Vec<i64>, width_ref: u8) -> (r: Option<Vec<u8>>)
    requires
        forall|g: int| 0 <= g < raw_widths@.len() ==> 0 <= #[trigger] raw_widths@[g] < 0x1_0000_0000,
    ensures
        r is None <==> exists|g: int|
            0 <= g < raw_widths@.len() && #[trigger] raw_widths@[g] % 256 + width_ref > 255,
        r matches Some(w) ==> w@.len() == raw_widths@.len() && forall|g: int|
            0 <= g < raw_widths@.len() ==> #[trigger] w@[g] == raw_widths@[g] % 256 + width_ref,
{
    let mut widths: Vec<u8> = Vec::new();
    let mut g: usize = 0;
    while g < raw_widths.len()
        invariant
            forall|h: int| 0 <= h < raw_widths@.len() ==> 0 <= #[trigger] raw_widths@[h] < 0x1_0000_0000,
            g <= raw_widths@.len(),
            widths@.len() == g,
            forall|h: int| 0 <= h < g ==> #[trigger] widths@[h] == raw_widths@[h] % 256 + width_ref,
            forall|h: int| 0 <= h < g ==> #[trigger] raw_widths@[h] % 256 + width_ref <= 255,
        decreases raw_widths@.len() - g,
    {
        let low = (raw_widths[g] % 256) as u8;
        match low.checked_add(width_ref) {
            None => {
                assert(raw_widths@[g as int] % 256 + width_ref > 255);
                return None;
            },
            Some(w) => widths.push(w),
        }
        g = g + 1;
    }
    Some(widths)
}

/// Group lengths: for each stored length `l`, `length_ref + l * increment`
/// computed in 32 bits, then the last group's declared length; `None` when a
/// product or sum passes `u32::MAX`.
fn group_lengths_from(raw_lengths: &Vec<i64>, length_ref: u32, increment: u8, last: u32) -> (r:
    Option<Vec<usize>>)
    requires
        forall|g: int| 0 <= g < raw_lengths@.len() ==> 0 <= #[trigger] raw_lengths@[g] < 0x1_0000_0000,
    ensures
        r is None <==> exists|g: int|
            0 <= g < raw_lengths@.len() && !(#[trigger] (raw_lengths@[g] * increment) <= u32::MAX
                && length_ref + raw_lengths@[g] * increment <= u32::MAX),
        r matches Some(l) ==> {
            &&& l@.len() == raw_lengths@.len() + 1
            &&& l@[raw_lengths@.len() as int] == last
            &&& forall|g: int|
                0 <= g < raw_lengths@.len() ==> #[trigger] l@[g] == length_ref + raw_lengths@[g] * increment
        },
{
    let mut lengths: Vec<usize> = Vec::new();
    let mut g: usize = 0;
    while g < raw_lengths.len()
        invariant
            forall|h: int| 0 <= h < raw_lengths@.len() ==> 0 <= #[trigger] raw_lengths@[h] < 0x1_0000_0000,
            g <= raw_lengths@.len(),
            lengths@.len() == g,
            forall|h: int|
                0 <= h < g ==> (#[trigger] (raw_lengths@[h] * increment) <= u32::MAX && length_ref
                    + raw_lengths@[h] * increment <= u32::MAX),
            forall|h: int| 0 <= h < g ==> #[trigger] lengths@[h] == length_ref + raw_lengths@[h] * increment,
        decreases raw_lengths@.len() - g,
    {
        let l = raw_lengths[g] as u32;
        let scaled = match l.checked_mul(increment as u32) {
            None => return None,
            Some(v) => v,
        };
        let total = match length_ref.checked_add(scaled) {
            None => return None,
            Some(v) => v,
        };
        lengths.push(total as usize);
        g = g + 1;
    }
    lengths.push(last as usize);
    Some(lengths)
}

/// `v` holds the numbers of `s`.
pub open spec fn same_codes(v: Seq<i64>, s: Seq<int>) -> bool {
    &&& v.len() == s.len()
    &&& forall|i: int| 0 <= i < s.len() ==> #[trigger] v[i] == s[i]
}

impl ComplexPacking {
    proof fn lemma_group_start_monotone(self, d: Seq<u8>, a: int, b: int)
        requires
            0 <= a <= b,
            forall|g: int| 0 <= g < b ==> #[trigger] self.group_length(d, g) >= 0,
            forall|g: int| 0 <= g < b ==> #[trigger] self.group_width(d, g) >= 0,
        ensures
            self.group_start(d, a) <= self.group_start(d, b),
        decreases b - a,
    {
        if a < b {
            self.lemma_group_start_monotone(d, a, b - 1);
            assert(self.group_length(d, b - 1) * self.group_width(d, b - 1) >= 0) by (nonlinear_arith)
                requires
                    self.group_length(d, b - 1) >= 0,
                    self.group_width(d, b - 1) >= 0,
            ;
        }
    }

    proof fn lemma_packed_value_bound(d: Seq<u8>, start: int, i: int, bits: nat)
        ensures
            0 <= packed_value(d, start, i, bits) < 0x1_0000_0000,
    {
    }

    /// Reads the packed values group by group from `start`; `None` when a
    /// group with values is 64 bits wide or more, or the bit offset passes
    /// `usize::MAX`.
    fn read_group_values(
        &self,
        raw: &[u8],
        start: usize,
        refs: &Vec<i64>,
        widths: &Vec<u8>,
        lengths: &Vec<usize>,
    ) -> (r: Option<Vec<i64>>)
        requires
            self.ng() > 0,
            start == self.values_start(),
            refs@.len() == self.ng(),
            widths@.len() == self.ng(),
            lengths@.len() == self.ng(),
            forall|g: int| 0 <= g < self.ng() ==> #[trigger] refs@[g] == self.group_ref(raw@, g),
            forall|g: int| 0 <= g < self.ng() ==> #[trigger] widths@[g] == self.group_width(raw@, g),
            forall|g: int| 0 <= g < self.ng() ==> #[trigger] lengths@[g] == self.group_length(raw@, g),
        ensures
            r is None <==> !self.values_defined(raw@),
            r matches Some(codes) ==> same_codes(codes@, self.codes_before(raw@, self.ng())),
    {
        let ghost d = raw@;
        let ng = refs.len();
        assert forall|g: int| 0 <= g < self.ng() implies #[trigger] self.group_length(d, g) >= 0
            && self.group_width(d, g) >= 0 by {
            assert(lengths@[g] == self.group_length(d, g));
            assert(widths@[g] == self.group_width(d, g));
        }
        let mut codes: Vec<i64> = Vec::new();
        let mut bit_offset: usize = start;
        let mut g: usize = 0;
        while g < ng
            invariant
                d == raw@,
                ng == self.ng(),
                refs@.len() == ng,
                widths@.len() == ng,
                lengths@.len() == ng,
                forall|h: int| 0 <= h < ng ==> #[trigger] refs@[h] == self.group_ref(d, h),
                forall|h: int| 0 <= h < ng ==> #[trigger] widths@[h] == self.group_width(d, h),
                forall|h: int| 0 <= h < ng ==> #[trigger] lengths@[h] == self.group_length(d, h),
                forall|h: int| 0 <= h < ng ==> #[trigger] self.group_length(d, h) >= 0
                    && self.group_width(d, h) >= 0,
                g <= ng,
                bit_offset == self.group_start(d, g as int),
                same_codes(codes@, self.codes_before(d, g as int)),
                forall|h: int|
                    0 <= h < g ==> #[trigger] self.group_width(d, h) >= 64 ==> self.group_length(d, h) == 0,
            decreases ng - g,
        {
            let width = widths[g] as usize;
            let length = lengths[g];
            let gref = refs[g];
            let ghost before = codes@;
            let ghost group = self.group_codes(d, g as int);
            if width >= 64 && length > 0 {
                return None;
            }
            let mut k: usize = 0;
            proof {
                Self::lemma_packed_value_bound(d, self.refs_start(), g as int, self.num_bits as nat);
            }
            while k < length
                invariant
                    d == raw@,
                    g < ng,
                    ng == self.ng(),
                    width == self.group_width(d, g as int),
                    length == self.group_length(d, g as int),
                    gref == self.group_ref(d, g as int),
                    0 <= gref < 0x1_0000_0000,
                    width < 64 || length == 0,
                    group == self.group_codes(d, g as int),
                    forall|h: int| 0 <= h < ng ==> #[trigger] self.group_length(d, h) >= 0
                        && self.group_width(d, h) >= 0,
                    k <= length,
                    bit_offset == self.group_start(d, g as int) + k * width,
                    codes@.len() == before.len() + k,
                    forall|i: int| 0 <= i < before.len() ==> #[trigger] codes@[i] == before[i],
                    forall|i: int| 0 <= i < k ==> #[trigger] codes@[before.len() + i] == group[i],
                decreases length - k,
            {
                let val = extract_bits(raw, bit_offset, width);
                codes.push(gref + val as i64);
                let next = match bit_offset.checked_add(width) {
                    None => {
                        proof {
                            assert(self.group_start(d, g as int) + (k + 1) * width <= self.group_start(
                                d,
                                g as int,
                            ) + length * width) by (nonlinear_arith)
                                requires
                                    k + 1 <= length,
                                    width >= 0,
                            ;
                            self.lemma_group_start_monotone(d, g as int + 1, self.ng());
                            assert((k + 1) * width == k * width + width) by (nonlinear_arith);
                        }
                        return None;
                    },
                    Some(n) => n,
                };
                assert((k + 1) * width == k * width + width) by (nonlinear_arith);
                bit_offset = next;
                k = k + 1;
            }
            proof {
                assert(self.codes_before(d, g as int + 1) == self.codes_before(d, g as int) + group);
                assert(codes@.len() == self.codes_before(d, g as int + 1).len());
                assert forall|i: int| 0 <= i < codes@.len() implies #[trigger] codes@[i]
                    == self.codes_before(d, g as int + 1)[i] by {
                    if i >= before.len() {
                        assert(codes@[before.len() + (i - before.len())] == group[i - before.len()]);
                    }
                }
            }
            g = g + 1;
        }
        Some(codes)
    }
}

/// The numbers of `v`.
pub open spec fn as_ints(v: Seq<i64>) -> Seq<int> {
    v.map_values(|x: i64| x as int)
}

proof fn lemma_undo_first_order(f: Seq<int>)
    ensures
        undo_first_order(f).len() == f.len(),
        forall|i: int|
            0 <= i < f.len() ==> #[trigger] undo_first_order(f)[i] == if i == 0 {
                f[0]
            } else {
                f[i] + undo_first_order(f)[i - 1]
            },
    decreases f.len(),
{
    if f.len() > 1 {
        let p = f.drop_last();
        lemma_undo_first_order(p);
        assert forall|i: int| 0 <= i < f.len() implies #[trigger] undo_first_order(f)[i] == if i == 0 {
            f[0]
        } else {
            f[i] + undo_first_order(f)[i - 1]
        } by {
            if i < f.len() - 1 {
                assert(undo_first_order(f)[i] == undo_first_order(p)[i]);
                if i > 0 {
                    assert(undo_first_order(f)[i - 1] == undo_first_order(p)[i - 1]);
                }
            }
        }
    }
}

proof fn lemma_undo_second_order(f: Seq<int>)
    ensures
        undo_second_order(f).len() == f.len(),
        forall|i: int|
            0 <= i < f.len() ==> #[trigger] undo_second_order(f)[i] == if i < 2 {
                f[i]
            } else {
                f[i] + 2 * undo_second_order(f)[i - 1] - undo_second_order(f)[i - 2]
            },
    decreases f.len(),
{
    if f.len() > 2 {
        let p = f.drop_last();
        lemma_undo_second_order(p);
        assert forall|i: int| 0 <= i < f.len() implies #[trigger] undo_second_order(f)[i] == if i < 2 {
            f[i]
        } else {
            f[i] + 2 * undo_second_order(f)[i - 1] - undo_second_order(f)[i - 2]
        } by {
            if i < f.len() - 1 {
                assert(undo_second_order(f)[i] == undo_second_order(p)[i]);
                if i >= 2 {
                    assert(undo_second_order(f)[i - 1] == undo_second_order(p)[i - 1]);
                    assert(undo_second_order(f)[i - 2] == undo_second_order(p)[i - 2]);
                }
            }
        }
    }
}

proof fn lemma_undo_first_order_at(f: Seq<int>, i: int)
    requires
        0 <= i < f.len(),
    ensures
        undo_first_order(f).len() == f.len(),
        undo_first_order(f)[i] == if i == 0 {
            f[0]
        } else {
            f[i] + undo_first_order(f)[i - 1]
        },
{
    lemma_undo_first_order(f);
}

proof fn lemma_undo_second_order_at(f: Seq<int>, i: int)
    requires
        0 <= i < f.len(),
    ensures
        undo_second_order(f).len() == f.len(),
        undo_second_order(f)[i] == if i < 2 {
            f[i]
        } else {
            f[i] + 2 * undo_second_order(f)[i - 1] - undo_second_order(f)[i - 2]
        },
{
    lemma_undo_second_order(f);
}

/// Undoes first-order spatial differencing in place; `None` when a running
/// sum passes the `i64` range.
fn undo_first_order_codes(f: Vec<i64>) -> (r: Option<Vec<i64>>)
    ensures
        r is None <==> !first_order_fits(as_ints(f@)),
        r matches Some(v) ==> same_codes(v@, undo_first_order(as_ints(f@))),
{
    let ghost fs = as_ints(f@);
    let mut v = f;
    let n = v.len();
    if n == 0 {
        proof {
            lemma_undo_first_order(fs);
        }
        return Some(v);
    }
    proof {
        lemma_undo_first_order_at(fs, 0);
    }
    let mut i: usize = 1;
    while i < n
        invariant
            fs == as_ints(f@),
            undo_first_order(fs).len() == fs.len() == n,
            undo_first_order(fs)[0] == fs[0],
            1 <= i <= n,
            v@.len() == n,
            forall|j: int| 0 <= j < i ==> #[trigger] v@[j] == undo_first_order(fs)[j],
            forall|j: int| i <= j < n ==> #[trigger] v@[j] == fs[j],
            forall|j: int| 0 <= j < i ==> #[trigger] in_i64(undo_first_order(fs)[j]),
        decreases n - i,
    {
        proof {
            lemma_undo_first_order_at(fs, i as int);
        }
        match v[i].checked_add(v[i - 1]) {
            None => {
                assert(!in_i64(undo_first_order(fs)[i as int]));
                return None;
            },
            Some(x) => {
                v.set(i, x);
            },
        }
        i = i + 1;
    }
    Some(v)
}

/// Undoes second-order spatial differencing in place; `None` when an
/// intermediate passes the `i64` range.
fn undo_second_order_codes(f: Vec<i64>) -> (r: Option<Vec<i64>>)
    ensures
        r is None <==> !second_order_fits(as_ints(f@)),
        r matches Some(v) ==> same_codes(v@, undo_second_order(as_ints(f@))),
{
    let ghost fs = as_ints(f@);
    let mut v = f;
    let n = v.len();
    let mut i: usize = 2;
    if n <= 2 {
        proof {
            lemma_undo_second_order(fs);
        }
        return Some(v);
    }
    proof {
        lemma_undo_second_order_at(fs, 0);
        lemma_undo_second_order_at(fs, 1);
    }
    while i < n
        invariant
            fs == as_ints(f@),
            undo_second_order(fs).len() == fs.len() == n,
            undo_second_order(fs)[0] == fs[0],
            undo_second_order(fs)[1] == fs[1],
            2 <= i <= n,
            v@.len() == n,
            forall|j: int| 0 <= j < i ==> #[trigger] v@[j] == undo_second_order(fs)[j],
            forall|j: int| i <= j < n ==> #[trigger] v@[j] == fs[j],
            forall|j: int| 2 <= j < i ==> #[trigger] second_order_step_fits(fs, j),
        decreases n - i,
    {
        proof {
            lemma_undo_second_order_at(fs, i as int);
        }
        assert(v@[i - 1] == undo_second_order(fs)[i - 1]);
        assert(v@[i - 2] == undo_second_order(fs)[i - 2]);
        assert(v@[i as int] == fs[i as int]);
        let twice = match 2i64.checked_mul(v[i - 1]) {
            None => {
                assert(!second_order_step_fits(fs, i as int));
                return None;
            },
            Some(x) => x,
        };
        let sum = match v[i].checked_add(twice) {
            None => {
                assert(!second_order_step_fits(fs, i as int));
                return None;
            },
            Some(x) => x,
        };
        match sum.checked_sub(v[i - 2]) {
            None => {
                assert(!second_order_step_fits(fs, i as int));
                return None;
            },
            Some(x) => {
                v.set(i, x);
            },
        }
        i = i + 1;
    }
    Some(v)
}

/// `firsts` followed by every code plus `min`; `None` when a sum leaves the
/// `i64` range.
fn prepend_shifted(firsts: &Vec<i64>, codes: &Vec<i64>, min: i64) -> (r: Option<Vec<i64>>)
    ensures
        r is None <==> exists|t: int| 0 <= t < codes@.len() && !#[trigger] in_i64(codes@[t] + min),
        r matches Some(full) ==> {
            &&& full@.len() == firsts@.len() + codes@.len()
            &&& forall|t: int| 0 <= t < firsts@.len() ==> #[trigger] full@[t] == firsts@[t]
            &&& forall|t: int|
                0 <= t < codes@.len() ==> #[trigger] full@[firsts@.len() + t] == codes@[t] + min
        },
{
    let mut full: Vec<i64> = Vec::new();
    let mut i: usize = 0;
    while i < firsts.len()
        invariant
            i <= firsts@.len(),
            full@ == firsts@.take(i as int),
        decreases firsts@.len() - i,
    {
        full.push(firsts[i]);
        assert(firsts@.take(i + 1) == firsts@.take(i as int).push(firsts@[i as int]));
        i = i + 1;
    }
    let mut j: usize = 0;
    while j < codes.len()
        invariant
            j <= codes@.len(),
            full@.len() == firsts@.len() + j,
            forall|t: int| 0 <= t < firsts@.len() ==> #[trigger] full@[t] == firsts@[t],
            forall|t: int| 0 <= t < j ==> #[trigger] full@[firsts@.len() + t] == codes@[t] + min,
            forall|t: int| 0 <= t < j ==> #[trigger] in_i64(codes@[t] + min),
        decreases codes@.len() - j,
    {
        match codes[j].checked_add(min) {
            None => {
                assert(!in_i64(codes@[j as int] + min));
                return None;
            },
            Some(x) => full.push(x),
        }
        j = j + 1;
    }
    Some(full)
}

/// The first `n` codes of `v`, or all of them when there are fewer.
fn truncate_codes(v: Vec<i64>, n: usize) -> (r: Vec<i64>)
    ensures
        r@ == take_at_most(v@, n as int),
{
    let mut v = v;
    if v.len() > n {
        v.truncate(n);
    }
    v
}

impl ComplexPacking {
    proof fn lemma_shift_overflow(self, d: Seq<u8>, t: int)
        requires
            self.spatial_order > 0,
            0 <= t < self.codes_before(d, self.ng()).len(),
            !in_i64(self.codes_before(d, self.ng())[t] + self.spatial_min(d)),
        ensures
            !self.spatial_defined(d),
    {
    }

    /// Reads the spatial differencing values: the first `spatial_order`
    /// values and the overall minimum, `extra_descriptors` octets each.
    fn read_spatial_values(&self, raw: &[u8]) -> (r: Option<(Vec<i64>, i64)>)
        requires
            self.spatial_order > 0,
        ensures
            r is None <==> (self.extra_descriptors >= 9 && self.extra_descriptors <= raw@.len()),
            r matches Some((firsts, min)) ==> same_codes(firsts@, self.first_values(raw@))
                && min == self.spatial_min(raw@),
    {
        let bytes_per_val = self.extra_descriptors as usize;
        if bytes_per_val >= 9 && bytes_per_val <= raw.len() {
            return None;
        }
        let order = self.spatial_order as usize;
        let mut firsts: Vec<i64> = Vec::new();
        let mut k: usize = 0;
        while k < order
            invariant
                order == self.spatial_order,
                bytes_per_val == self.extra_descriptors,
                !(bytes_per_val >= 9 && bytes_per_val <= raw@.len()),
                k <= order,
                firsts@.len() == k,
                forall|j: int|
                    0 <= j < k ==> #[trigger] firsts@[j] == signed_bytes_value(
                        raw@,
                        j * bytes_per_val,
                        bytes_per_val as nat,
                    ),
            decreases order - k,
        {
            assert(k * bytes_per_val <= 255 * 255) by (nonlinear_arith)
                requires
                    k < 256,
                    bytes_per_val < 256,
            ;
            assert(bytes_per_val >= 9 ==> k * bytes_per_val + bytes_per_val > raw@.len()) by (nonlinear_arith)
                requires
                    bytes_per_val >= 9 ==> bytes_per_val > raw@.len(),
                    k >= 0,
            ;
            let v = read_signed_bytes(raw, k * bytes_per_val, bytes_per_val);
            firsts.push(v);
            k = k + 1;
        }
        assert(order * bytes_per_val <= 255 * 255) by (nonlinear_arith)
            requires
                order < 256,
                bytes_per_val < 256,
        ;
        assert(bytes_per_val >= 9 ==> order * bytes_per_val + bytes_per_val > raw@.len()) by (nonlinear_arith)
            requires
                bytes_per_val >= 9 ==> bytes_per_val > raw@.len(),
                order >= 0,
        ;
        let min = read_signed_bytes(raw, order * bytes_per_val, bytes_per_val);
        assert(same_codes(firsts@, self.first_values(raw@)));
        Some((firsts, min))
    }

    /// Unpacks the codes when that is defined; `None` when a width of 64 bits
    /// or more is read, a width, length or offset overflows its type, or a
    /// sum of spatial differencing leaves the `i64` range.
    ///
    /// With no groups every point is the reference value. Otherwise the group
    /// reference values, widths and lengths are read (each run starting on a
    /// byte boundary), then the values of each group; with spatial
    /// differencing the overall minimum is added to every code, the first
    /// values are put in front and differencing of order 1 or 2 is undone.
    /// At most `num_points` codes are kept.
    pub fn try_unpack_codes(&self, raw_data: &[u8], num_points: usize) -> (r: Option<UnpackedCodes>)
        ensures
            r is None <==> !self.unpack_defined(raw_data@),
            r matches Some(c) ==> if self.ng() == 0 {
                c == (UnpackedCodes::Reference { count: num_points })
            } else {
                c matches UnpackedCodes::Scaled { codes } && same_codes(
                    codes@,
                    take_at_most(self.all_codes(raw_data@), num_points as int),
                )
            },
    {
        let ghost d = raw_data@;
        let ng = self.num_groups as usize;
        if ng == 0 {
            return Some(UnpackedCodes::Reference { count: num_points });
        }
        // Spatial differencing values.
        let (firsts, spatial_min, start) = if self.spatial_order > 0 {
            match self.read_spatial_values(raw_data) {
                None => return None,
                Some((f, m)) => {
                    let order = self.spatial_order as usize;
                    let bpv = self.extra_descriptors as usize;
                    assert((order + 1) * bpv * 8 <= 256 * 255 * 8) by (nonlinear_arith)
                        requires
                            order < 256,
                            bpv < 256,
                    ;
                    (f, m, (order + 1) * bpv * 8)
                },
            }
        } else {
            (Vec::new(), 0i64, 0usize)
        };
        assert(start == self.refs_start());
        proof {
            assert(self.lengths_end() >= self.lengths_start() >= self.widths_start());
            assert(self.widths_start() >= self.refs_start() + self.ng() * self.num_bits);
            assert(self.lengths_start() >= self.widths_start() + self.ng() * self.group_width_bits);
        }
        // Group reference values.
        let nb = self.num_bits as usize;
        if nb >= 64 {
            return None;
        }
        let refs_end = match run_end(start, ng, nb) {
            None => return None,
            Some(e) => e,
        };
        let refs = read_packed_values(raw_data, start, ng, nb);
        let widths_start = match align_to_byte(refs_end) {
            None => return None,
            Some(w) => w,
        };
        // Group widths.
        let gwb = self.group_width_bits as usize;
        if gwb >= 64 {
            return None;
        }
        let widths_end = match run_end(widths_start, ng, gwb) {
            None => return None,
            Some(e) => e,
        };
        let raw_widths = read_packed_values(raw_data, widths_start, ng, gwb);
        proof {
            assert forall|g: int| 0 <= g < raw_widths@.len() implies 0 <= #[trigger] raw_widths@[g]
                < 0x1_0000_0000 by {
                assert(raw_widths@[g] == packed_value(d, widths_start as int, g, gwb as nat));
            }
        }
        let widths = match group_widths_from(&raw_widths, self.group_width_ref) {
            None => {
                proof {
                    let g = choose|g: int|
                        0 <= g < raw_widths@.len() && #[trigger] raw_widths@[g] % 256
                            + self.group_width_ref > 255;
                    assert(self.group_width(d, g) > 255);
                }
                return None;
            },
            Some(w) => w,
        };
        let lengths_start = match align_to_byte(widths_end) {
            None => return None,
            Some(l) => l,
        };
        // Group lengths.
        let glb = self.group_length_bits as usize;
        if glb >= 64 && ng >= 2 {
            return None;
        }
        let (raw_lengths, lengths_end) = if glb > 0 {
            let e = match run_end(lengths_start, ng - 1, glb) {
                None => return None,
                Some(e) => e,
            };
            (read_packed_values(raw_data, lengths_start, ng - 1, glb), e)
        } else {
            (read_packed_values(raw_data, lengths_start, ng - 1, 0), lengths_start)
        };
        assert(lengths_end == self.lengths_end());
        proof {
            assert forall|g: int| 0 <= g < raw_lengths@.len() implies 0 <= #[trigger] raw_lengths@[g]
                < 0x1_0000_0000 by {
                assert(raw_lengths@[g] == packed_value(d, lengths_start as int, g, glb as nat));
            }
        }
        let lengths = match group_lengths_from(
            &raw_lengths,
            self.group_length_ref,
            self.group_length_increment,
            self.last_group_length,
        ) {
            None => {
                proof {
                    let g = choose|g: int|
                        0 <= g < raw_lengths@.len() && !(#[trigger] (raw_lengths@[g]
                            * self.group_length_increment) <= u32::MAX && self.group_length_ref
                            + raw_lengths@[g] * self.group_length_increment <= u32::MAX);
                    assert(raw_lengths@[g] == self.group_raw_length(d, g));
                    assert(!(self.group_raw_length(d, g) * self.group_length_increment <= u32::MAX
                        && self.group_length(d, g) <= u32::MAX));
                }
                return None;
            },
            Some(l) => l,
        };
        let values_start = match align_to_byte(lengths_end) {
            None => return None,
            Some(v) => v,
        };
        proof {
            assert forall|g: int| 0 <= g < self.ng() implies #[trigger] refs@[g] == self.group_ref(d, g) by {}
            assert forall|g: int| 0 <= g < self.ng() implies #[trigger] widths@[g] == self.group_width(d, g) by {
                assert(raw_widths@[g] == packed_value(d, widths_start as int, g, gwb as nat));
            }
            assert forall|g: int| 0 <= g < self.ng() implies #[trigger] lengths@[g] == self.group_length(d, g) by {
                if g < self.ng() - 1 {
                    assert(raw_lengths@[g] == packed_value(d, lengths_start as int, g, glb as nat));
                }
            }
            assert forall|g: int| 0 <= g < self.ng() implies #[trigger] self.group_width(d, g) <= 255 by {
                assert(widths@[g] == self.group_width(d, g));
            }
            assert forall|g: int| 0 <= g < self.ng() - 1 implies #[trigger] self.group_raw_length(d, g)
                * self.group_length_increment <= u32::MAX && self.group_length(d, g) <= u32::MAX by {
                assert(raw_lengths@[g] == packed_value(d, lengths_start as int, g, glb as nat));
            }
            assert(self.descriptors_defined(d));
        }
        // Packed values, group by group.
        let codes = match self.read_group_values(raw_data, values_start, &refs, &widths, &lengths) {
            None => return None,
            Some(c) => c,
        };
        if self.spatial_order == 0 {
            return Some(UnpackedCodes::Scaled { codes: truncate_codes(codes, num_points) });
        }
        // Spatial differencing: add the minimum, put the first values in front, undo.
        let full = match prepend_shifted(&firsts, &codes, spatial_min) {
            None => {
                proof {
                    let t = choose|t: int|
                        0 <= t < codes@.len() && !#[trigger] in_i64(codes@[t] + spatial_min);
                    self.lemma_shift_overflow(d, t);
                }
                return None;
            },
            Some(f) => f,
        };
        assert(as_ints(full@) =~= self.differenced(d)) by {
            assert forall|t: int| 0 <= t < full@.len() implies #[trigger] as_ints(full@)[t]
                == self.differenced(d)[t] by {
                if t >= firsts@.len() {
                    assert(full@[firsts@.len() + (t - firsts@.len())] == codes@[t - firsts@.len()]
                        + spatial_min);
                }
            }
        }
        proof {
            assert forall|t: int| 0 <= t < codes@.len() implies #[trigger] in_i64(
                self.codes_before(d, self.ng())[t] + self.spatial_min(d),
            ) by {
                assert(in_i64(codes@[t] + spatial_min));
            }
        }
        let undone = if self.spatial_order == 1 {
            match undo_first_order_codes(full) {
                None => return None,
                Some(v) => v,
            }
        } else if self.spatial_order == 2 {
            match undo_second_order_codes(full) {
                None => return None,
                Some(v) => v,
            }
        } else {
            full
        };
        Some(UnpackedCodes::Scaled { codes: truncate_codes(undone, num_points) })
    }

    /// Unpacks the codes of a complex packed field (see `try_unpack_codes`).
    pub fn unpack_codes(&self, raw_data: &[u8], num_points: usize) -> (r: UnpackedCodes)
        requires
            self.unpack_defined(raw_data@),
        ensures
            if self.ng() == 0 {
                r == (UnpackedCodes::Reference { count: num_points })
            } else {
                r matches UnpackedCodes::Scaled { codes } && same_codes(
                    codes@,
                    take_at_most(self.all_codes(raw_data@), num_points as int),
                )
            },
    {
        self.try_unpack_codes(raw_data, num_points).unwrap()
    }
}

/// Number of set bits of the bitmap among points `0..i`.
pub open spec fn present_before(bitmap: Seq<u8>, i: int) -> nat
    decreases i,
{
    if i <= 0 {
        0
    } else {
        (present_before(bitmap, i - 1) + bit_at(bitmap, i - 1)) as nat
    }
}

/// What point `i` of the expanded field holds: where the bitmap bit is set
/// and data values remain, the next data value; elsewhere `missing`.
pub open spec fn bitmap_point<T>(data: Seq<T>, bitmap: Seq<u8>, i: int, missing: T) -> T {
    if bit_at(bitmap, i) == 1 && present_before(bitmap, i) < data.len() {
        data[present_before(bitmap, i) as int]
    } else {
        missing
    }
}

/// Applies a bitmap to expand values: where the bitmap bit (most significant
/// first) is 1, the next data value is used; where it is 0, or the bitmap or
/// the data have run out, `missing` is inserted.
pub fn apply_bitmap<T: Copy>(data_values: &[T], bitmap: &[u8], total_points: usize, missing: T) -> (r:
    Vec<T>)
    ensures
        r@.len() == total_points,
        forall|i: int|
            0 <= i < total_points ==> #[trigger] r@[i] == bitmap_point(data_values@, bitmap@, i, missing),
{
    let mut result: Vec<T> = Vec::new();
    let mut data_idx: usize = 0;
    let mut i: usize = 0;
    while i < total_points
        invariant
            i <= total_points,
            result@.len() == i,
            data_idx == if present_before(bitmap@, i as int) < data_values@.len() {
                present_before(bitmap@, i as int) as int
            } else {
                data_values@.len() as int
            },
            forall|j: int|
                0 <= j < i ==> #[trigger] result@[j] == bitmap_point(data_values@, bitmap@, j, missing),
        decreases total_points - i,
    {
        let byte_idx = i / 8;
        let bit_idx = 7 - (i % 8);
        let present = if byte_idx < bitmap.len() {
            (bitmap[byte_idx] >> (bit_idx as u8)) & 1 == 1
        } else {
            false
        };
        proof {
            if byte_idx < bitmap.len() {
                let b = bitmap@[byte_idx as int];
                let s = bit_idx as u8;
                assert((b >> s) & 1u8 <= 1u8) by (bit_vector);
            }
        }
        assert(present <==> bit_at(bitmap@, i as int) == 1);
        if present && data_idx < data_values.len() {
            result.push(data_values[data_idx]);
            data_idx = data_idx + 1;
        } else {
            result.push(missing);
        }
        i = i + 1;
    }
    result
}

/// The integer form of an unpacked field: the scaling parameters and the codes.
#[derive(Debug)]
pub struct PackedField {
    /// The reference value R, as the bits of an IEEE 754 single.
    pub reference_value_bits: u32,
    pub binary_scale_factor: i16,
    pub decimal_scale_factor: i16,
    pub codes: UnpackedCodes,
    /// For JPEG2000 data that could not be decoded, why; the codes are then
    /// the reference value for every point.
    pub jpeg2000_fallback: Option<Grib2Error>,
}

/// Whether `f` carries these scaling parameters and codes.
pub open spec fn packed_field_is(
    f: PackedField,
    reference_value_bits: u32,
    binary_scale_factor: i16,
    decimal_scale_factor: i16,
) -> bool {
    &&& f.reference_value_bits == reference_value_bits
    &&& f.binary_scale_factor == binary_scale_factor
    &&& f.decimal_scale_factor == decimal_scale_factor
}

/// Whether unpacking data under `template` is defined for these bytes.
pub open spec fn unpack_data_defined(template: u16, td: Seq<u8>, raw: Seq<u8>, num_points: int) -> bool {
    if template == 0 {
        SimplePacking::spec_parse(td) matches Ok(p) ==> p.unpack_defined(num_points)
    } else if template == 2 || template == 3 {
        ComplexPacking::spec_parse(td, template == 3) matches Ok(p) ==> p.unpack_defined(raw)
    } else if template == 40 || template == 40000 {
        Jpeg2000Packing::spec_parse(td) matches Ok(p) ==> p.unpack_defined(raw, num_points)
    } else {
        true
    }
}

/// Unpacks the integer codes of a field given its data representation
/// template number, the template data and the raw section 7 bytes; `None`
/// when unpacking is not defined (see each packing).
///
/// Templates 0 (simple), 2 and 3 (complex, 3 with spatial differencing) and
/// 40 or 40000 (JPEG2000) are supported; any other template is an error.
pub fn try_unpack_data_codes(template: u16, template_data: &[u8], raw_data: &[u8], num_points: usize)
    -> (r: Option<Result<PackedField, Grib2Error>>)
    ensures
        r is None <==> !unpack_data_defined(template, template_data@, raw_data@, num_points as int),
        template == 0 ==> match SimplePacking::spec_parse(template_data@) {
            Err(e) => r == Some(Err::<PackedField, Grib2Error>(e)),
            Ok(p) => r matches Some(res) ==> (res matches Ok(f) && packed_field_is(
                f,
                p.reference_value_bits,
                p.binary_scale_factor,
                p.decimal_scale_factor,
            ) && f.jpeg2000_fallback is None && if p.num_bits == 0 {
                f.codes == (UnpackedCodes::Reference { count: num_points })
            } else {
                f.codes matches UnpackedCodes::Scaled { codes } && simple_codes_are(
                    codes@,
                    raw_data@,
                    num_points as int,
                    p.num_bits as nat,
                )
            }),
        },
        (template == 2 || template == 3) ==> match ComplexPacking::spec_parse(template_data@, template == 3) {
            Err(e) => r == Some(Err::<PackedField, Grib2Error>(e)),
            Ok(p) => r matches Some(res) ==> (res matches Ok(f) && packed_field_is(
                f,
                p.reference_value_bits,
                p.binary_scale_factor,
                p.decimal_scale_factor,
            ) && f.jpeg2000_fallback is None && if p.ng() == 0 {
                f.codes == (UnpackedCodes::Reference { count: num_points })
            } else {
                f.codes matches UnpackedCodes::Scaled { codes } && same_codes(
                    codes@,
                    take_at_most(p.all_codes(raw_data@), num_points as int),
                )
            }),
        },
        (template == 40 || template == 40000) ==> match Jpeg2000Packing::spec_parse(template_data@) {
            Err(e) => r == Some(Err::<PackedField, Grib2Error>(e)),
            Ok(p) => r matches Some(res) ==> (res matches Ok(f) && packed_field_is(
                f,
                p.reference_value_bits,
                p.binary_scale_factor,
                p.decimal_scale_factor,
            ) && if p.num_bits == 0 {
                f.codes == (UnpackedCodes::Reference { count: num_points }) && f.jpeg2000_fallback is None
            } else {
                match jpeg2000_minimal_result(raw_data@, num_points as int, p.num_bits as nat) {
                    Ok(_) => f.jpeg2000_fallback is None && (f.codes matches UnpackedCodes::Scaled {
                        codes,
                    } && simple_codes_are(codes@, raw_data@, num_points as int, p.num_bits as nat)),
                    Err(e) => f.codes == (UnpackedCodes::Reference { count: num_points })
                        && f.jpeg2000_fallback == Some(e),
                }
            }),
        },
        !(template == 0 || template == 2 || template == 3 || template == 40 || template == 40000)
            ==> r == Some(Err::<PackedField, Grib2Error>(Grib2Error::UnsupportedDataTemplate { template })),
{
    if template == 0 {
        let p = match SimplePacking::parse(template_data) {
            Err(e) => return Some(Err(e)),
            Ok(p) => p,
        };
        if !(p.num_bits == 0 || (p.num_bits < 64 && num_points.checked_mul(p.num_bits as usize).is_some())) {
            return None;
        }
        let codes = p.unpack_codes(raw_data, num_points);
        Some(Ok(PackedField {
            reference_value_bits: p.reference_value_bits,
            binary_scale_factor: p.binary_scale_factor,
            decimal_scale_factor: p.decimal_scale_factor,
            codes,
            jpeg2000_fallback: None,
        }))
    } else if template == 2 || template == 3 {
        let p = match ComplexPacking::parse(template_data, template == 3) {
            Err(e) => return Some(Err(e)),
            Ok(p) => p,
        };
        let codes = match p.try_unpack_codes(raw_data, num_points) {
            None => return None,
            Some(c) => c,
        };
        Some(Ok(PackedField {
            reference_value_bits: p.reference_value_bits,
            binary_scale_factor: p.binary_scale_factor,
            decimal_scale_factor: p.decimal_scale_factor,
            codes,
            jpeg2000_fallback: None,
        }))
    } else if template == 40 || template == 40000 {
        let p = match Jpeg2000Packing::parse(template_data) {
            Err(e) => return Some(Err(e)),
            Ok(p) => p,
        };
        if p.num_bits != 0 && !jpeg2000_minimal_is_defined(raw_data, num_points, p.num_bits) {
            return None;
        }
        let (codes, fallback) = p.unpack_codes(raw_data, num_points);
        Some(Ok(PackedField {
            reference_value_bits: p.reference_value_bits,
            binary_scale_factor: p.binary_scale_factor,
            decimal_scale_factor: p.decimal_scale_factor,
            codes,
            jpeg2000_fallback: fallback,
        }))
    } else {
        Some(Err(Grib2Error::UnsupportedDataTemplate { template }))
    }
}

/// Tells whether the minimal JPEG2000 reader is defined on these arguments.
fn jpeg2000_minimal_is_defined(data: &[u8], num_points: usize, num_bits: u8) -> (r: bool)
    ensures
        r == jpeg2000_minimal_defined(data@, num_points as int, num_bits as nat),
{
    let len = data.len();
    let reaches_count = len >= 2 && !(data[0] == 0xFF && data[1] == 0x4F) && !(len >= 4 && data[0]
        == 0 && data[1] == 0 && data[2] == 0 && data[3] == 0x0C);
    if !reaches_count {
        return true;
    }
    let bits = match len.checked_mul(8) {
        None => return false,
        Some(b) => b,
    };
    let nb = num_bits as usize;
    if nb == 0 {
        return true;
    }
    let needed = match num_points.checked_mul(nb) {
        None => return false,
        Some(n) => n,
    };
    if bits >= needed {
        nb < 64 || num_points == 0
    } else {
        true
    }
}

/// Reading `a + b` bits is reading `a` bits and then the `b` bits that
/// follow: the first field is the high part of the whole.
pub proof fn law_bits_concatenate(d: Seq<u8>, off: int, a: nat, b: nat)
    ensures
        bits_value(d, off, a + b) == bits_value(d, off, a) * pow2(b) + bits_value(d, off + a, b),
    decreases b,
{
    if b == 0 {
        lemma2_to64();
    } else {
        law_bits_concatenate(d, off, a, (b - 1) as nat);
        lemma_pow2_unfold(b);
        let hi = bits_value(d, off, a);
        let lo = bits_value(d, off + a, (b - 1) as nat);
        let p = pow2((b - 1) as nat);
        assert(bits_value(d, off, a + b) == bits_value(d, off, (a + b - 1) as nat) * 2 + bit_at(d, off + a + b - 1));
        assert(bits_value(d, off + a, b) == lo * 2 + bit_at(d, off + a + b - 1));
        assert((hi * p + lo) * 2 == hi * (p * 2) + lo * 2) by (nonlinear_arith);
    }
}

/// First-order spatial differences of `x`: its first value, then each value
/// minus the one before.
pub open spec fn first_differences(x: Seq<int>) -> Seq<int> {
    Seq::new(x.len(), |i: int| if i == 0 {
        x[0]
    } else {
        x[i] - x[i - 1]
    })
}

/// Second-order spatial differences of `x`: its first two values, then each
/// value minus twice the one before plus the one before that.
pub open spec fn second_differences(x: Seq<int>) -> Seq<int> {
    Seq::new(x.len(), |i: int| if i < 2 {
        x[i]
    } else {
        x[i] - 2 * x[i - 1] + x[i - 2]
    })
}

/// Undoing first-order differencing gives back the differenced values.
pub proof fn law_undo_first_order_inverts(x: Seq<int>)
    ensures
        undo_first_order(first_differences(x)) == x,
{
    let f = first_differences(x);
    lemma_undo_first_order(f);
    assert forall|i: int| 0 <= i < x.len() implies #[trigger] undo_first_order(f)[i] == x[i] by {
        lemma_undo_first_order_prefix(x, i);
    }
    assert(undo_first_order(f) =~= x);
}

proof fn lemma_undo_first_order_prefix(x: Seq<int>, i: int)
    requires
        0 <= i < x.len(),
    ensures
        undo_first_order(first_differences(x))[i] == x[i],
    decreases i,
{
    let f = first_differences(x);
    lemma_undo_first_order_at(f, i);
    if i > 0 {
        lemma_undo_first_order_prefix(x, i - 1);
    }
}

/// Undoing second-order differencing gives back the differenced values.
pub proof fn law_undo_second_order_inverts(x: Seq<int>)
    ensures
        undo_second_order(second_differences(x)) == x,
{
    let f = second_differences(x);
    lemma_undo_second_order(f);
    assert forall|i: int| 0 <= i < x.len() implies #[trigger] undo_second_order(f)[i] == x[i] by {
        lemma_undo_second_order_prefix(x, i);
    }
    assert(undo_second_order(f) =~= x);
}

proof fn lemma_undo_second_order_prefix(x: Seq<int>, i: int)
    requires
        0 <= i < x.len(),
    ensures
        undo_second_order(second_differences(x))[i] == x[i],
        i >= 1 ==> undo_second_order(second_differences(x))[i - 1] == x[i - 1],
    decreases i,
{
    let f = second_differences(x);
    lemma_undo_second_order_at(f, i);
    if i > 0 {
        lemma_undo_second_order_prefix(x, i - 1);
    }
}

/// With every bitmap bit set over the field and enough data, expanding by
/// the bitmap hands the data back in order.
pub proof fn law_full_bitmap_keeps_values<T>(data: Seq<T>, bitmap: Seq<u8>, total: int, missing: T)
    requires
        0 <= total <= data.len(),
        forall|i: int| 0 <= i < total ==> #[trigger] bit_at(bitmap, i) == 1,
    ensures
        forall|i: int| 0 <= i < total ==> #[trigger] bitmap_point(data, bitmap, i, missing) == data[i],
{
    assert forall|i: int| 0 <= i < total implies #[trigger] bitmap_point(data, bitmap, i, missing) == data[i] by {
        lemma_present_before_full(bitmap, i, total);
    }
}

proof fn lemma_present_before_full(bitmap: Seq<u8>, i: int, total: int)
    requires
        0 <= i <= total,
        forall|k: int| 0 <= k < total ==> #[trigger] bit_at(bitmap, k) == 1,
    ensures
        present_before(bitmap, i) == i,
    decreases i,
{
    if i > 0 {
        lemma_present_before_full(bitmap, i - 1, total);
    }
}

/// Points whose bitmap bit is clear hold the missing value, whatever the data.
pub proof fn law_clear_bit_is_missing<T>(data: Seq<T>, bitmap: Seq<u8>, i: int, missing: T)
    requires
        bit_at(bitmap, i) == 0,
    ensures
        bitmap_point(data, bitmap, i, missing) == missing,
{
}

/// Every data value lands in the expanded field: the `k`-th set bit of the
/// bitmap receives the `k`-th data value.
pub proof fn law_bitmap_places_values_in_order<T>(data: Seq<T>, bitmap: Seq<u8>, i: int, missing: T)
    requires
        0 <= i,
        bit_at(bitmap, i) == 1,
        present_before(bitmap, i) < data.len(),
    ensures
        bitmap_point(data, bitmap, i, missing) == data[present_before(bitmap, i) as int],
        present_before(bitmap, i + 1) == present_before(bitmap, i) + 1,
{
}

/// The sum of the lengths stored for the first `g` groups of complex packing
/// (each a `group_length_bits`-bit field of the lengths section).
pub open spec fn stored_length_sum(p: ComplexPacking, d: Seq<u8>, g: int) -> int
    decreases g,
{
    if g <= 0 {
        0
    } else {
        stored_length_sum(p, d, g - 1) + packed_value(d, p.lengths_start(), g - 1, p.group_length_bits as nat)
    }
}

/// Complex packing (template 5.2): every group but the last holds the group
/// length reference plus its stored length times the length increment, so
/// the groups before `g` hold `g * reference + increment * (sum of stored
/// lengths)` codes, and all groups together that plus the last group's
/// length.
pub proof fn law_group_lengths(p: ComplexPacking, d: Seq<u8>, g: int)
    requires
        0 <= g < p.ng(),
    ensures
        p.codes_before(d, g).len() == g * p.group_length_ref + p.group_length_increment
            * stored_length_sum(p, d, g),
        p.codes_before(d, p.ng()).len() == (p.ng() - 1) * p.group_length_ref + p.group_length_increment
            * stored_length_sum(p, d, p.ng() - 1) + p.last_group_length,
        p.group_codes(d, g).len() == if g == p.ng() - 1 {
            p.last_group_length as int
        } else {
            p.group_length_ref + packed_value(d, p.lengths_start(), g, p.group_length_bits as nat)
                * p.group_length_increment
        },
    decreases g,
{
    lemma_codes_before_len(p, d, g);
    lemma_codes_before_len(p, d, p.ng() - 1);
    let n = p.ng() - 1;
    assert(p.codes_before(d, p.ng()) == p.codes_before(d, n) + p.group_codes(d, n));
}

proof fn lemma_codes_before_len(p: ComplexPacking, d: Seq<u8>, g: int)
    requires
        0 <= g < p.ng(),
    ensures
        p.codes_before(d, g).len() == g * p.group_length_ref + p.group_length_increment
            * stored_length_sum(p, d, g),
    decreases g,
{
    if g > 0 {
        lemma_codes_before_len(p, d, g - 1);
        let raw = packed_value(d, p.lengths_start(), g - 1, p.group_length_bits as nat);
        ComplexPacking::lemma_packed_value_bound(d, p.lengths_start(), g - 1, p.group_length_bits as nat);
        let r = p.group_length_ref as int;
        let inc = p.group_length_increment as int;
        let sp = stored_length_sum(p, d, g - 1);
        assert(p.codes_before(d, g) == p.codes_before(d, g - 1) + p.group_codes(d, g - 1));
        assert(raw * inc >= 0) by (nonlinear_arith)
            requires
                raw >= 0,
                inc >= 0,
        ;
        assert(p.group_raw_length(d, g - 1) == raw);
        assert(p.group_length(d, g - 1) == r + raw * inc);
        assert(p.group_codes(d, g - 1).len() == r + raw * inc);
        assert(stored_length_sum(p, d, g) == sp + raw);
        assert((g - 1) * r + inc * sp + (r + raw * inc) == g * r + inc * (sp + raw)) by (nonlinear_arith);
    } else {
        assert(g * p.group_length_ref + p.group_length_increment * stored_length_sum(p, d, g) == 0)
            by (nonlinear_arith)
            requires
                g == 0,
                stored_length_sum(p, d, g) == 0,
        ;
    }
}

} // verus!

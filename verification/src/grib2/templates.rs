//! Grid Definition Templates for GRIB2 Section 3.
//!
//! HRRR uses Template 3.30, Lambert Conformal Conic. Angles are kept as the
//! integers the template stores (millionths of a degree) and grid lengths in
//! millimetres; converting them to degrees and metres is floating-point work
//! left to the caller.

use super::bytes::{be32, read_i32_be, read_u32_be, twos_complement};
use super::error::Grib2Error;
use vstd::prelude::*;

verus! {

/// Lambert Conformal Conic grid definition (Template 3.30).
#[derive(Debug, Clone)]
pub struct LambertConformal {
    pub nx: u32,
    pub ny: u32,
    /// Latitude of the first grid point, millionths of a degree.
    pub la1: i32,
    /// Longitude of the first grid point, millionths of a degree.
    pub lo1: i32,
    /// LaD, latitude where Dx and Dy are specified, millionths of a degree.
    pub lad: i32,
    /// LoV, orientation of the grid, millionths of a degree.
    pub lov: i32,
    /// X-direction grid length, millimetres.
    pub dx: u32,
    /// Y-direction grid length, millimetres.
    pub dy: u32,
    /// First standard parallel, millionths of a degree.
    pub latin1: i32,
    /// Second standard parallel, millionths of a degree.
    pub latin2: i32,
    /// Scanning mode flags.
    pub scan_mode: u8,
}

/// The signed big-endian 32-bit value at `i`.
pub open spec fn be_i32(d: Seq<u8>, i: int) -> int {
    twos_complement(be32(d, i), 32)
}

impl LambertConformal {
    /// Number of bytes of template 3.30 that are read.
    pub open spec fn template_len() -> int {
        67
    }

    /// The fields hold the template bytes: earth shape (16 bytes, skipped),
    /// Nx, Ny, La1, Lo1, resolution flags (skipped), LaD, LoV, Dx, Dy,
    /// projection centre (skipped), scanning mode, Latin1, Latin2.
    pub open spec fn decoded_from(self, d: Seq<u8>) -> bool {
        &&& self.nx == be32(d, 16)
        &&& self.ny == be32(d, 20)
        &&& self.la1 == be_i32(d, 24)
        &&& self.lo1 == be_i32(d, 28)
        &&& self.lad == be_i32(d, 33)
        &&& self.lov == be_i32(d, 37)
        &&& self.dx == be32(d, 41)
        &&& self.dy == be32(d, 45)
        &&& self.scan_mode == d[50]
        &&& self.latin1 == be_i32(d, 51)
        &&& self.latin2 == be_i32(d, 55)
    }

    /// The result of parsing `d` as template 3.30.
    pub open spec fn spec_parse(d: Seq<u8>) -> Result<Self, Grib2Error> {
        if d.len() < Self::template_len() {
            Err(Grib2Error::UnexpectedEof)
        } else {
            Ok(LambertConformal {
                nx: be32(d, 16) as u32,
                ny: be32(d, 20) as u32,
                la1: be_i32(d, 24) as i32,
                lo1: be_i32(d, 28) as i32,
                lad: be_i32(d, 33) as i32,
                lov: be_i32(d, 37) as i32,
                dx: be32(d, 41) as u32,
                dy: be32(d, 45) as u32,
                scan_mode: d[50],
                latin1: be_i32(d, 51) as i32,
                latin2: be_i32(d, 55) as i32,
            })
        }
    }

    /// Parses Template 3.30 from the grid definition template data; fails
    /// with `UnexpectedEof` when fewer than 67 bytes are given.
    pub fn parse(data: &[u8]) -> (r: Result<Self, Grib2Error>)
        ensures
            r == Self::spec_parse(data@),
            match r {
                Ok(s) => data@.len() >= Self::template_len() && s.decoded_from(data@),
                Err(e) => data@.len() < Self::template_len() && e == Grib2Error::UnexpectedEof,
            },
    {
        if data.len() < 67 {
            return Err(Grib2Error::UnexpectedEof);
        }
        Ok(LambertConformal {
            nx: read_u32_be(data, 16),
            ny: read_u32_be(data, 20),
            la1: read_i32_be(data, 24),
            lo1: read_i32_be(data, 28),
            lad: read_i32_be(data, 33),
            lov: read_i32_be(data, 37),
            dx: read_u32_be(data, 41),
            dy: read_u32_be(data, 45),
            scan_mode: data[50],
            latin1: read_i32_be(data, 51),
            latin2: read_i32_be(data, 55),
        })
    }
}

/// Latitude/Longitude grid definition (Template 3.0). Angles and grid
/// increments are in millionths of a degree.
#[derive(Debug, Clone)]
pub struct LatLon {
    pub nx: u32,
    pub ny: u32,
    pub la1: i32,
    pub lo1: i32,
    pub la2: i32,
    pub lo2: i32,
    pub dx: u32,
    pub dy: u32,
    pub scan_mode: u8,
}

impl LatLon {
    /// Number of bytes of template 3.0 that are read.
    pub open spec fn template_len() -> int {
        56
    }

    /// The fields hold the template bytes: earth shape (14 bytes, skipped),
    /// Ni, Nj, basic angle and subdivisions (skipped), La1, Lo1, resolution
    /// flags (skipped), La2, Lo2, Di, Dj, scanning mode.
    pub open spec fn decoded_from(self, d: Seq<u8>) -> bool {
        &&& self.nx == be32(d, 14)
        &&& self.ny == be32(d, 18)
        &&& self.la1 == be_i32(d, 30)
        &&& self.lo1 == be_i32(d, 34)
        &&& self.la2 == be_i32(d, 39)
        &&& self.lo2 == be_i32(d, 43)
        &&& self.dx == be32(d, 47)
        &&& self.dy == be32(d, 51)
        &&& self.scan_mode == d[55]
    }

    /// Parses Template 3.0; fails with `UnexpectedEof` when fewer than 56
    /// bytes are given.
    pub fn parse(data: &[u8]) -> (r: Result<Self, Grib2Error>)
        ensures
            match r {
                Ok(s) => data@.len() >= Self::template_len() && s.decoded_from(data@),
                Err(e) => data@.len() < Self::template_len() && e == Grib2Error::UnexpectedEof,
            },
    {
        if data.len() < 56 {
            return Err(Grib2Error::UnexpectedEof);
        }
        Ok(LatLon {
            nx: read_u32_be(data, 14),
            ny: read_u32_be(data, 18),
            la1: read_i32_be(data, 30),
            lo1: read_i32_be(data, 34),
            la2: read_i32_be(data, 39),
            lo2: read_i32_be(data, 43),
            dx: read_u32_be(data, 47),
            dy: read_u32_be(data, 51),
            scan_mode: data[55],
        })
    }
}

proof fn lemma_be32_bounds(d: Seq<u8>, i: int)
    requires
        0 <= i,
        i + 4 <= d.len(),
    ensures
        0 <= be32(d, i) < 0x1_0000_0000,
        i32::MIN <= be_i32(d, i) <= i32::MAX,
{
    vstd::arithmetic::power2::lemma2_to64();
    let a = d[i] as int;
    let b = d[i + 1] as int;
    let c = d[i + 2] as int;
    let e = d[i + 3] as int;
    assert(0 <= (a * 0x100 + b) * 0x1_0000 + c * 0x100 + e < 0x1_0000_0000) by (nonlinear_arith)
        requires
            0 <= a < 256,
            0 <= b < 256,
            0 <= c < 256,
            0 <= e < 256,
    ;
}

/// Octet widths of the fields of grid definition template 3.30, in order:
/// shape of the earth, radius scale factor, scaled radius, major axis scale
/// factor, scaled major axis, minor axis scale factor, scaled minor axis,
/// Nx, Ny, La1, Lo1, resolution and component flags, LaD, LoV, Dx, Dy,
/// projection centre flag, scanning mode, Latin 1, Latin 2, latitude and
/// longitude of the southern pole.
pub open spec fn lambert_field_widths() -> Seq<int> {
    seq![1, 1, 4, 1, 4, 1, 4, 4, 4, 4, 4, 1, 4, 4, 4, 4, 1, 1, 4, 4, 4, 4]
}

/// Where field `k` of template 3.30 starts: after the fields before it.
pub open spec fn lambert_field_start(k: int) -> int
    decreases k,
{
    if k <= 0 {
        0
    } else {
        lambert_field_start(k - 1) + lambert_field_widths()[k - 1]
    }
}

/// Template 3.30 is read field by field in the template's order: each value
/// is the field at its place (Nx the 8th field, LaD the 13th, right after
/// the resolution flags, LoV the 14th, and so on), and the fields fill the
/// template's length.
pub proof fn law_lambert_fields_in_template_order(d: Seq<u8>)
    requires
        d.len() >= LambertConformal::template_len(),
    ensures
        lambert_field_start(22) == LambertConformal::template_len(),
        LambertConformal::spec_parse(d) matches Ok(g) && {
            &&& g.nx == be32(d, lambert_field_start(7))
            &&& g.ny == be32(d, lambert_field_start(8))
            &&& g.la1 == be_i32(d, lambert_field_start(9))
            &&& g.lo1 == be_i32(d, lambert_field_start(10))
            &&& g.lad == be_i32(d, lambert_field_start(12))
            &&& g.lov == be_i32(d, lambert_field_start(13))
            &&& g.dx == be32(d, lambert_field_start(14))
            &&& g.dy == be32(d, lambert_field_start(15))
            &&& g.scan_mode == d[lambert_field_start(17)]
            &&& g.latin1 == be_i32(d, lambert_field_start(18))
            &&& g.latin2 == be_i32(d, lambert_field_start(19))
        },
{
    reveal_with_fuel(lambert_field_start, 23);
    let offs = seq![16int, 20, 24, 28, 33, 37, 41, 45, 51, 55];
    assert forall|k: int| 0 <= k < offs.len() implies #[trigger] be_i32(d, offs[k]) == be_i32(d, offs[k])
        && 0 <= be32(d, offs[k]) < 0x1_0000_0000 && i32::MIN <= be_i32(d, offs[k]) <= i32::MAX by {
        lemma_be32_bounds(d, offs[k]);
    }
    assert(lambert_field_start(7) == 16);
    assert(lambert_field_start(12) == 33);
    assert(lambert_field_start(13) == 37);
    assert(lambert_field_start(19) == 55);
    assert(lambert_field_start(22) == 67);
}

} // verus!

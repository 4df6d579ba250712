//! GRIB2 sections 0 through 7.
//!
//! Every section after the indicator starts with its length (four bytes) and
//! its section number (one byte). Fixed-size fields are read in order; a field
//! that runs past the available bytes ends the parse with
//! [`Grib2Error::UnexpectedEof`]. Where a section copies its trailing bytes up
//! to its declared length, a declared length shorter than the fixed header or
//! longer than the buffer cannot be decoded at all: `parse` leaves such input
//! out by its `requires`, and `try_parse` reports it as `None`.

use super::bytes::{be16, be32, be64, read_u16_be, read_u32_be, read_u64_be};
use super::error::Grib2Error;
use super::templates::LambertConformal;
use vstd::prelude::*;
use vstd::slice::slice_to_vec;

verus! {

/// The error, if any, of reading the common section header (length and
/// section number) and then `min_len` bytes of fixed-size fields.
pub open spec fn header_error(d: Seq<u8>, expected: u8, min_len: int) -> Option<Grib2Error> {
    if d.len() < 5 {
        Some(Grib2Error::UnexpectedEof)
    } else if d[4] != expected {
        Some(Grib2Error::WrongSection { expected, found: d[4] })
    } else if d.len() < min_len {
        Some(Grib2Error::UnexpectedEof)
    } else {
        None
    }
}

/// The declared length of the section that starts at `i`.
pub open spec fn section_length_at(d: Seq<u8>, i: int) -> int {
    be32(d, i)
}

/// Whether the bytes from `start` to the declared section length can be
/// copied out of `d`.
pub open spec fn tail_in_bounds(d: Seq<u8>, start: int) -> bool {
    start <= be32(d, 0) <= d.len()
}

fn check_header(data: &[u8], expected: u8, min_len: usize) -> (r: Result<(), Grib2Error>)
    requires
        min_len >= 5,
    ensures
        match r {
            Ok(_) => header_error(data@, expected, min_len as int) is None,
            Err(e) => header_error(data@, expected, min_len as int) == Some(e),
        },
{
    if data.len() < 5 {
        Err(Grib2Error::UnexpectedEof)
    } else if data[4] != expected {
        Err(Grib2Error::WrongSection { expected, found: data[4] })
    } else if data.len() < min_len {
        Err(Grib2Error::UnexpectedEof)
    } else {
        Ok(())
    }
}

/// Section 0: Indicator Section (always 16 bytes).
#[derive(Debug, Clone)]
pub struct IndicatorSection {
    pub discipline: u8,
    pub edition: u8,
    pub total_length: u64,
}

impl IndicatorSection {
    /// The error of parsing `d` as an indicator section, `None` when it parses.
    pub open spec fn parse_error(d: Seq<u8>) -> Option<Grib2Error> {
        if d.len() < 16 {
            Some(Grib2Error::IndicatorTooShort)
        } else if !(d[0] == 0x47 && d[1] == 0x52 && d[2] == 0x49 && d[3] == 0x42) {
            Some(Grib2Error::NotGrib { magic: be32(d, 0) as u32 })
        } else if d[7] != 2 {
            Some(Grib2Error::UnsupportedEdition { edition: d[7] })
        } else {
            None
        }
    }

    /// The fields hold the bytes of `d`: discipline at byte 6, edition at
    /// byte 7, total message length in bytes 8 to 15.
    pub open spec fn decoded_from(self, d: Seq<u8>) -> bool {
        &&& self.discipline == d[6]
        &&& self.edition == d[7]
        &&& self.total_length == be64(d, 8)
    }

    /// Parses the indicator: the `GRIB` magic, the discipline, edition 2 and
    /// the total length of the message.
    pub fn parse(data: &[u8]) -> (r: Result<Self, Grib2Error>)
        ensures
            match r {
                Ok(s) => Self::parse_error(data@) is None && s.decoded_from(data@),
                Err(e) => Self::parse_error(data@) == Some(e),
            },
    {
        if data.len() < 16 {
            return Err(Grib2Error::IndicatorTooShort);
        }
        if !(data[0] == 0x47 && data[1] == 0x52 && data[2] == 0x49 && data[3] == 0x42) {
            let magic = read_u32_be(data, 0);
            return Err(Grib2Error::NotGrib { magic });
        }
        let discipline = data[6];
        let edition = data[7];
        if edition != 2 {
            return Err(Grib2Error::UnsupportedEdition { edition });
        }
        let total_length = read_u64_be(data, 8);
        Ok(IndicatorSection { discipline, edition, total_length })
    }
}

/// Section 1: Identification Section.
#[derive(Debug, Clone)]
pub struct IdentificationSection {
    pub section_length: u32,
    pub center: u16,
    pub subcenter: u16,
    pub master_table_version: u8,
    pub local_table_version: u8,
    pub significance_of_ref_time: u8,
    pub year: u16,
    pub month: u8,
    pub day: u8,
    pub hour: u8,
    pub minute: u8,
    pub second: u8,
    pub production_status: u8,
    pub data_type: u8,
}

impl IdentificationSection {
    /// The error of parsing `d` as section 1, `None` when it parses.
    pub open spec fn parse_error(d: Seq<u8>) -> Option<Grib2Error> {
        header_error(d, 1, 21)
    }

    /// The fields hold bytes 0 to 20 of `d`, in order.
    pub open spec fn decoded_from(self, d: Seq<u8>) -> bool {
        &&& self.section_length == be32(d, 0)
        &&& self.center == be16(d, 5)
        &&& self.subcenter == be16(d, 7)
        &&& self.master_table_version == d[9]
        &&& self.local_table_version == d[10]
        &&& self.significance_of_ref_time == d[11]
        &&& self.year == be16(d, 12)
        &&& self.month == d[14]
        &&& self.day == d[15]
        &&& self.hour == d[16]
        &&& self.minute == d[17]
        &&& self.second == d[18]
        &&& self.production_status == d[19]
        &&& self.data_type == d[20]
    }

    /// Parses section 1: originating centre, reference time and data type.
    pub fn parse(data: &[u8]) -> (r: Result<Self, Grib2Error>)
        ensures
            match r {
                Ok(s) => Self::parse_error(data@) is None && s.decoded_from(data@),
                Err(e) => Self::parse_error(data@) == Some(e),
            },
    {
        check_header(data, 1, 21)?;
        Ok(IdentificationSection {
            section_length: read_u32_be(data, 0),
            center: read_u16_be(data, 5),
            subcenter: read_u16_be(data, 7),
            master_table_version: data[9],
            local_table_version: data[10],
            significance_of_ref_time: data[11],
            year: read_u16_be(data, 12),
            month: data[14],
            day: data[15],
            hour: data[16],
            minute: data[17],
            second: data[18],
            production_status: data[19],
            data_type: data[20],
        })
    }
}

/// Section 3: Grid Definition Section.
#[derive(Debug, Clone)]
pub struct GridDefinitionSection {
    pub section_length: u32,
    pub source: u8,
    pub num_data_points: u32,
    pub num_optional_octets: u8,
    pub interpretation: u8,
    pub template_number: u16,
    /// Template-specific data (raw bytes after the template number).
    pub template_data: Vec<u8>,
}

impl GridDefinitionSection {
    /// The error of parsing `d` as section 3, `None` when it parses.
    pub open spec fn parse_error(d: Seq<u8>) -> Option<Grib2Error> {
        header_error(d, 3, 14)
    }

    /// Whether parsing `d` as section 3 is defined: it stops on an error, or
    /// the declared length covers the 14 header bytes and lies within `d`.
    pub open spec fn parse_defined(d: Seq<u8>) -> bool {
        Self::parse_error(d) is Some || tail_in_bounds(d, 14)
    }

    /// The fields hold bytes 0 to 13 of `d`; the template data is the rest of
    /// the section.
    pub open spec fn decoded_from(self, d: Seq<u8>) -> bool {
        &&& self.section_length == be32(d, 0)
        &&& self.source == d[5]
        &&& self.num_data_points == be32(d, 6)
        &&& self.num_optional_octets == d[10]
        &&& self.interpretation == d[11]
        &&& self.template_number == be16(d, 12)
        &&& self.template_data@ == d.subrange(14, be32(d, 0))
    }

    /// Parses section 3 when that is defined; `None` when the declared
    /// length does not fit the header and the buffer.
    pub fn try_parse(data: &[u8]) -> (r: Option<Result<Self, Grib2Error>>)
        ensures
            r is Some <==> Self::parse_defined(data@),
            r matches Some(res) ==> match res {
                Ok(s) => Self::parse_error(data@) is None && s.decoded_from(data@),
                Err(e) => Self::parse_error(data@) == Some(e),
            },
    {
        if let Err(e) = check_header(data, 3, 14) {
            return Some(Err(e));
        }
        let section_length = read_u32_be(data, 0);
        if (section_length as usize) < 14 || section_length as usize > data.len() {
            return None;
        }
        let template_data = slice_to_vec(&data[14..section_length as usize]);
        Some(Ok(GridDefinitionSection {
            section_length,
            source: data[5],
            num_data_points: read_u32_be(data, 6),
            num_optional_octets: data[10],
            interpretation: data[11],
            template_number: read_u16_be(data, 12),
            template_data,
        }))
    }

    /// Parses section 3: number of points and grid template with its data.
    pub fn parse(data: &[u8]) -> (r: Result<Self, Grib2Error>)
        requires
            Self::parse_defined(data@),
        ensures
            match r {
                Ok(s) => Self::parse_error(data@) is None && s.decoded_from(data@),
                Err(e) => Self::parse_error(data@) == Some(e),
            },
    {
        Self::try_parse(data).unwrap()
    }

    /// The result of reading the template data as template 3.30.
    pub open spec fn lambert_conformal_result(self) -> Result<LambertConformal, Grib2Error> {
        if self.template_number != 30 {
            Err(Grib2Error::NotLambertConformal { template: self.template_number })
        } else {
            LambertConformal::spec_parse(self.template_data@)
        }
    }

    /// Reads the template data as Lambert Conformal Conic (template 3.30);
    /// any other template number is an error.
    pub fn as_lambert_conformal(&self) -> (r: Result<LambertConformal, Grib2Error>)
        ensures
            r == self.lambert_conformal_result(),
            self.template_number != 30 ==> r == Err::<LambertConformal, Grib2Error>(
                Grib2Error::NotLambertConformal { template: self.template_number },
            ),
            self.template_number == 30 ==> match r {
                Ok(g) => self.template_data@.len() >= LambertConformal::template_len()
                    && g.decoded_from(self.template_data@),
                Err(e) => self.template_data@.len() < LambertConformal::template_len()
                    && e == Grib2Error::UnexpectedEof,
            },
    {
        if self.template_number != 30 {
            return Err(Grib2Error::NotLambertConformal { template: self.template_number });
        }
        LambertConformal::parse(self.template_data.as_slice())
    }
}

/// Section 4: Product Definition Section.
#[derive(Debug, Clone)]
pub struct ProductDefinitionSection {
    pub section_length: u32,
    pub num_coordinate_values: u16,
    pub template_number: u16,
    pub parameter_category: u8,
    pub parameter_number: u8,
    pub generating_process: u8,
    pub forecast_time: u32,
    pub first_surface_type: u8,
    pub first_surface_scale: u8,
    pub first_surface_value: u32,
    pub template_data: Vec<u8>,
}

impl ProductDefinitionSection {
    /// The error of parsing `d` as section 4, `None` when it parses.
    pub open spec fn parse_error(d: Seq<u8>) -> Option<Grib2Error> {
        header_error(d, 4, 28)
    }

    /// Whether parsing `d` as section 4 is defined: it stops on an error, or
    /// the declared length is at most the 28 fixed bytes, or lies within `d`.
    pub open spec fn parse_defined(d: Seq<u8>) -> bool {
        Self::parse_error(d) is Some || be32(d, 0) <= 28 || be32(d, 0) <= d.len()
    }

    /// The fields hold bytes 0 to 27 of `d` (templates 4.0 and 4.8 share
    /// them); the template data is the rest of the section, empty when the
    /// declared length does not go past the fixed fields.
    pub open spec fn decoded_from(self, d: Seq<u8>) -> bool {
        &&& self.section_length == be32(d, 0)
        &&& self.num_coordinate_values == be16(d, 5)
        &&& self.template_number == be16(d, 7)
        &&& self.parameter_category == d[9]
        &&& self.parameter_number == d[10]
        &&& self.generating_process == d[11]
        &&& self.forecast_time == be32(d, 18)
        &&& self.first_surface_type == d[22]
        &&& self.first_surface_scale == d[23]
        &&& self.first_surface_value == be32(d, 24)
        &&& self.template_data@ == if 28 < be32(d, 0) {
            d.subrange(28, be32(d, 0))
        } else {
            Seq::empty()
        }
    }

    /// Parses section 4 when that is defined; `None` when the declared
    /// length goes past the fixed fields and past the buffer.
    pub fn try_parse(data: &[u8]) -> (r: Option<Result<Self, Grib2Error>>)
        ensures
            r is Some <==> Self::parse_defined(data@),
            r matches Some(res) ==> match res {
                Ok(s) => Self::parse_error(data@) is None && s.decoded_from(data@),
                Err(e) => Self::parse_error(data@) == Some(e),
            },
    {
        if let Err(e) = check_header(data, 4, 28) {
            return Some(Err(e));
        }
        let section_length = read_u32_be(data, 0);
        let template_data = if 28 < section_length as usize {
            if section_length as usize > data.len() {
                return None;
            }
            slice_to_vec(&data[28..section_length as usize])
        } else {
            Vec::new()
        };
        Some(Ok(ProductDefinitionSection {
            section_length,
            num_coordinate_values: read_u16_be(data, 5),
            template_number: read_u16_be(data, 7),
            parameter_category: data[9],
            parameter_number: data[10],
            generating_process: data[11],
            forecast_time: read_u32_be(data, 18),
            first_surface_type: data[22],
            first_surface_scale: data[23],
            first_surface_value: read_u32_be(data, 24),
            template_data,
        }))
    }

    /// Parses section 4: parameter category and number, forecast time and
    /// first fixed surface.
    pub fn parse(data: &[u8]) -> (r: Result<Self, Grib2Error>)
        requires
            Self::parse_defined(data@),
        ensures
            match r {
                Ok(s) => Self::parse_error(data@) is None && s.decoded_from(data@),
                Err(e) => Self::parse_error(data@) == Some(e),
            },
    {
        Self::try_parse(data).unwrap()
    }
}

/// Section 5: Data Representation Section.
#[derive(Debug, Clone)]
pub struct DataRepresentationSection {
    pub section_length: u32,
    pub num_data_points: u32,
    pub template_number: u16,
    pub template_data: Vec<u8>,
}

impl DataRepresentationSection {
    /// The error of parsing `d` as section 5, `None` when it parses.
    pub open spec fn parse_error(d: Seq<u8>) -> Option<Grib2Error> {
        header_error(d, 5, 11)
    }

    /// Whether parsing `d` as section 5 is defined.
    pub open spec fn parse_defined(d: Seq<u8>) -> bool {
        Self::parse_error(d) is Some || tail_in_bounds(d, 11)
    }

    /// The fields hold bytes 0 to 10 of `d`; the template data is the rest of
    /// the section.
    pub open spec fn decoded_from(self, d: Seq<u8>) -> bool {
        &&& self.section_length == be32(d, 0)
        &&& self.num_data_points == be32(d, 5)
        &&& self.template_number == be16(d, 9)
        &&& self.template_data@ == d.subrange(11, be32(d, 0))
    }

    /// Parses section 5 when that is defined.
    pub fn try_parse(data: &[u8]) -> (r: Option<Result<Self, Grib2Error>>)
        ensures
            r is Some <==> Self::parse_defined(data@),
            r matches Some(res) ==> match res {
                Ok(s) => Self::parse_error(data@) is None && s.decoded_from(data@),
                Err(e) => Self::parse_error(data@) == Some(e),
            },
    {
        if let Err(e) = check_header(data, 5, 11) {
            return Some(Err(e));
        }
        let section_length = read_u32_be(data, 0);
        if (section_length as usize) < 11 || section_length as usize > data.len() {
            return None;
        }
        Some(Ok(DataRepresentationSection {
            section_length,
            num_data_points: read_u32_be(data, 5),
            template_number: read_u16_be(data, 9),
            template_data: slice_to_vec(&data[11..section_length as usize]),
        }))
    }

    /// Parses section 5: number of packed values and the packing template.
    pub fn parse(data: &[u8]) -> (r: Result<Self, Grib2Error>)
        requires
            Self::parse_defined(data@),
        ensures
            match r {
                Ok(s) => Self::parse_error(data@) is None && s.decoded_from(data@),
                Err(e) => Self::parse_error(data@) == Some(e),
            },
    {
        Self::try_parse(data).unwrap()
    }
}

/// Section 6: Bitmap Section.
#[derive(Debug, Clone)]
pub struct BitmapSection {
    pub section_length: u32,
    pub indicator: u8,
    pub bitmap: Option<Vec<u8>>,
}

impl BitmapSection {
    /// The error of parsing `d` as section 6, `None` when it parses.
    pub open spec fn parse_error(d: Seq<u8>) -> Option<Grib2Error> {
        header_error(d, 6, 6)
    }

    /// Whether parsing `d` as section 6 is defined: the bitmap bytes are
    /// only copied when the indicator is 0.
    pub open spec fn parse_defined(d: Seq<u8>) -> bool {
        Self::parse_error(d) is Some || d[5] != 0 || tail_in_bounds(d, 6)
    }

    /// Indicator 0 means a bitmap follows (the rest of the section); any
    /// other indicator means there is none.
    pub open spec fn decoded_from(self, d: Seq<u8>) -> bool {
        &&& self.section_length == be32(d, 0)
        &&& self.indicator == d[5]
        &&& if d[5] == 0 {
            self.bitmap matches Some(b) && b@ == d.subrange(6, be32(d, 0))
        } else {
            self.bitmap is None
        }
    }

    /// Parses section 6 when that is defined.
    pub fn try_parse(data: &[u8]) -> (r: Option<Result<Self, Grib2Error>>)
        ensures
            r is Some <==> Self::parse_defined(data@),
            r matches Some(res) ==> match res {
                Ok(s) => Self::parse_error(data@) is None && s.decoded_from(data@),
                Err(e) => Self::parse_error(data@) == Some(e),
            },
    {
        if let Err(e) = check_header(data, 6, 6) {
            return Some(Err(e));
        }
        let section_length = read_u32_be(data, 0);
        let indicator = data[5];
        let bitmap = if indicator == 0 {
            if (section_length as usize) < 6 || section_length as usize > data.len() {
                return None;
            }
            Some(slice_to_vec(&data[6..section_length as usize]))
        } else {
            None
        };
        Some(Ok(BitmapSection { section_length, indicator, bitmap }))
    }

    /// Parses section 6: the bitmap indicator and, for indicator 0, the bitmap.
    pub fn parse(data: &[u8]) -> (r: Result<Self, Grib2Error>)
        requires
            Self::parse_defined(data@),
        ensures
            match r {
                Ok(s) => Self::parse_error(data@) is None && s.decoded_from(data@),
                Err(e) => Self::parse_error(data@) == Some(e),
            },
    {
        Self::try_parse(data).unwrap()
    }
}

/// Section 7: Data Section (raw bytes).
#[derive(Debug, Clone)]
pub struct DataSection {
    pub section_length: u32,
    pub raw_data: Vec<u8>,
}

impl DataSection {
    /// The error of parsing `d` as section 7, `None` when it parses.
    pub open spec fn parse_error(d: Seq<u8>) -> Option<Grib2Error> {
        header_error(d, 7, 5)
    }

    /// Whether parsing `d` as section 7 is defined.
    pub open spec fn parse_defined(d: Seq<u8>) -> bool {
        Self::parse_error(d) is Some || tail_in_bounds(d, 5)
    }

    /// The raw data is the rest of the section after its 5-byte header.
    pub open spec fn decoded_from(self, d: Seq<u8>) -> bool {
        &&& self.section_length == be32(d, 0)
        &&& self.raw_data@ == d.subrange(5, be32(d, 0))
    }

    /// Parses section 7 when that is defined.
    pub fn try_parse(data: &[u8]) -> (r: Option<Result<Self, Grib2Error>>)
        ensures
            r is Some <==> Self::parse_defined(data@),
            r matches Some(res) ==> match res {
                Ok(s) => Self::parse_error(data@) is None && s.decoded_from(data@),
                Err(e) => Self::parse_error(data@) == Some(e),
            },
    {
        if let Err(e) = check_header(data, 7, 5) {
            return Some(Err(e));
        }
        let section_length = read_u32_be(data, 0);
        if (section_length as usize) < 5 || section_length as usize > data.len() {
            return None;
        }
        Some(Ok(DataSection { section_length, raw_data: slice_to_vec(&data[5..section_length as usize]) }))
    }

    /// Parses section 7: the packed data bytes.
    pub fn parse(data: &[u8]) -> (r: Result<Self, Grib2Error>)
        requires
            Self::parse_defined(data@),
        ensures
            match r {
                Ok(s) => Self::parse_error(data@) is None && s.decoded_from(data@),
                Err(e) => Self::parse_error(data@) == Some(e),
            },
    {
        Self::try_parse(data).unwrap()
    }
}

} // verus!

//! Errors reported while decoding GRIB2 data.

use vstd::prelude::*;

verus! {

/// Why a GRIB2 buffer could not be decoded.
#[derive(Debug, Clone, Copy, PartialEq, Eq, Structural)]
pub enum Grib2Error {
    /// A fixed-size field ran past the end of the available bytes.
    UnexpectedEof,
    /// Fewer than the 16 bytes of the indicator section were given to the message parser.
    MessageTooShort,
    /// Fewer than 16 bytes were given to the indicator section parser.
    IndicatorTooShort,
    /// The buffer does not start with the `GRIB` magic; the first four bytes are
    /// kept as one big-endian number.
    NotGrib { magic: u32 },
    /// The edition number is not 2.
    UnsupportedEdition { edition: u8 },
    /// A section carried another section number than the one expected at its place.
    WrongSection { expected: u8, found: u8 },
    /// The grid definition template is not 3.30 (Lambert Conformal).
    NotLambertConformal { template: u16 },
    /// The data representation template is not one that can be unpacked.
    UnsupportedDataTemplate { template: u16 },
    /// Fewer than two bytes of JPEG2000 data.
    Jpeg2000TooShort,
    /// A JPEG2000 codestream (SOC marker), which needs a full wavelet decoder.
    Jpeg2000Codestream,
    /// A JP2 container file, which is not supported.
    Jpeg2000FileFormat,
    /// JPEG2000 data that could not be read as plain packed integers either.
    Jpeg2000Undecodable,
}

} // verus!

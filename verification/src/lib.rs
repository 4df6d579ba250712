//! HRRR (High Resolution Rapid Refresh) weather data decoding.
//!
//! The library reads GRIB2 messages from byte buffers, decodes the packed
//! integer data they carry, maps weather field names to GRIB2 parameters and
//! `.idx` index entries, and provides the integer parts of map rendering
//! (colour constants, bitmap font, pixel bookkeeping).
//!
//! Floating-point scaling of decoded values, projection math, colour ramps and
//! all network and file access live in the application crate.

pub mod composite;
pub mod fetch;
pub mod fields;
pub mod grib2;
pub mod render;
pub mod text;


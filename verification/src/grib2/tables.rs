//! GRIB2 code tables for parameter and surface type lookups.
//!
//! Discipline 0 = Meteorological products.

use vstd::prelude::*;

verus! {

/// A GRIB2 parameter: discipline, category, number and its description.
#[derive(Debug, Clone, Copy, PartialEq)]
pub struct ParameterInfo {
    pub discipline: u8,
    pub category: u8,
    pub number: u8,
    pub name: &'static str,
    pub unit: &'static str,
    pub abbrev: &'static str,
}

/// Name, unit and abbreviation of the known meteorological parameters, by
/// category and number (GRIB2 code table 4.2, discipline 0).
pub open spec fn meteorological_parameter(category: u8, number: u8) -> Option<
    (&'static str, &'static str, &'static str),
> {
    match (category, number) {
            (0, 0) => Some(("Temperature", "K", "TMP")),
            (0, 6) => Some(("Dewpoint Temperature", "K", "DPT")),
            (1, 7) => Some(("Precipitation Rate", "kg m-2 s-1", "PRATE")),
            (2, 1) => Some(("Wind Speed", "m s-1", "WIND")),
            (2, 2) => Some(("U-Component of Wind", "m s-1", "UGRD")),
            (2, 3) => Some(("V-Component of Wind", "m s-1", "VGRD")),
            (3, 5) => Some(("Geopotential Height", "gpm", "HGT")),
            (7, 6) => Some(("Convective Available Potential Energy", "J kg-1", "CAPE")),
            (19, 0) => Some(("Visibility", "m", "VIS")),
            (16, 196) => Some(("Composite Reflectivity", "dBZ", "REFC")),
        _ => None,
    }
}

/// Looks up a parameter by discipline, category and number. Only discipline
/// 0 (meteorological products) has entries.
pub fn lookup_parameter(discipline: u8, category: u8, number: u8) -> (r: Option<ParameterInfo>)
    ensures
        discipline != 0 ==> r is None,
        discipline == 0 ==> match meteorological_parameter(category, number) {
            None => r is None,
            Some((name, unit, abbrev)) => r == Some(
                ParameterInfo { discipline, category, number, name, unit, abbrev },
            ),
        },
{
    if discipline == 0 {
        match (category, number) {
            (0, 0) => Some(ParameterInfo {
                discipline,
                category,
                number,
                name: "Temperature",
                unit: "K",
                abbrev: "TMP",
            }),
            (0, 6) => Some(ParameterInfo {
                discipline,
                category,
                number,
                name: "Dewpoint Temperature",
                unit: "K",
                abbrev: "DPT",
            }),
            (1, 7) => Some(ParameterInfo {
                discipline,
                category,
                number,
                name: "Precipitation Rate",
                unit: "kg m-2 s-1",
                abbrev: "PRATE",
            }),
            (2, 1) => Some(ParameterInfo {
                discipline,
                category,
                number,
                name: "Wind Speed",
                unit: "m s-1",
                abbrev: "WIND",
            }),
            (2, 2) => Some(ParameterInfo {
                discipline,
                category,
                number,
                name: "U-Component of Wind",
                unit: "m s-1",
                abbrev: "UGRD",
            }),
            (2, 3) => Some(ParameterInfo {
                discipline,
                category,
                number,
                name: "V-Component of Wind",
                unit: "m s-1",
                abbrev: "VGRD",
            }),
            (3, 5) => Some(ParameterInfo {
                discipline,
                category,
                number,
                name: "Geopotential Height",
                unit: "gpm",
                abbrev: "HGT",
            }),
            (7, 6) => Some(ParameterInfo {
                discipline,
                category,
                number,
                name: "Convective Available Potential Energy",
                unit: "J kg-1",
                abbrev: "CAPE",
            }),
            (19, 0) => Some(ParameterInfo {
                discipline,
                category,
                number,
                name: "Visibility",
                unit: "m",
                abbrev: "VIS",
            }),
            (16, 196) => Some(ParameterInfo {
                discipline,
                category,
                number,
                name: "Composite Reflectivity",
                unit: "dBZ",
                abbrev: "REFC",
            }),
            _ => None,
        }
    } else {
        None
    }
}

/// Surface type name from GRIB2 code table 4.5.
pub open spec fn spec_surface_type_name(surface_type: u8) -> &'static str {
    match surface_type {
        1 => "Ground or Water Surface",
        2 => "Cloud Base Level",
        3 => "Level of Cloud Tops",
        4 => "Level of 0C Isotherm",
        100 => "Isobaric Surface (Pa)",
        103 => "Specified Height Above Ground (m)",
        104 => "Sigma Level",
        200 => "Entire Atmosphere",
        _ => "Unknown",
    }
}

/// Surface type lookup from GRIB2 Table 4.5.
pub fn surface_type_name(surface_type: u8) -> (r: &'static str)
    ensures
        r == spec_surface_type_name(surface_type),
{
    match surface_type {
        1 => "Ground or Water Surface",
        2 => "Cloud Base Level",
        3 => "Level of Cloud Tops",
        4 => "Level of 0C Isotherm",
        100 => "Isobaric Surface (Pa)",
        103 => "Specified Height Above Ground (m)",
        104 => "Sigma Level",
        200 => "Entire Atmosphere",
        _ => "Unknown",
    }
}

} // verus!

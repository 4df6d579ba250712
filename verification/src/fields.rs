//! Field definitions mapping field names to GRIB2 parameter IDs and `.idx`
//! search strings.

use crate::composite::composite_name;
use crate::grib2::tables::meteorological_parameter;
use crate::text::{chars_of, str_equal};
use vstd::prelude::*;

verus! {

/// A weather field that can be requested for rendering.
#[derive(Debug, Clone, Copy)]
pub struct FieldDef {
    /// Short name (e.g., "temp2m").
    pub name: &'static str,
    /// Human-readable label.
    pub label: &'static str,
    /// Unit string for display.
    pub unit: &'static str,
    /// GRIB2 discipline.
    pub discipline: u8,
    /// GRIB2 parameter category.
    pub category: u8,
    /// GRIB2 parameter number.
    pub number: u8,
    /// Level/surface string to match in the `.idx` file (e.g., "2 m above ground").
    pub level: &'static str,
    /// The `.idx` field name (e.g., "TMP", "DPT", "REFC").
    pub idx_name: &'static str,
    /// Typical value range (min, max) for colour mapping, in hundredths of
    /// the display unit.
    pub value_range_hundredths: (i32, i32),
    /// Whether values are converted from Kelvin to Fahrenheit for display.
    pub kelvin_to_fahrenheit: bool,
    /// Category group for organising fields.
    pub group: &'static str,
}

/// All supported HRRR fields, organised by category.
pub open spec fn field_table() -> Seq<FieldDef> {
    seq![
        FieldDef {
            name: "temp2m",
            label: "2m Temperature",
            unit: "°F",
            discipline: 0,
            category: 0,
            number: 0,
            level: "2 m above ground",
            idx_name: "TMP",
            value_range_hundredths: (-4000i32, 12000i32),
            kelvin_to_fahrenheit: true,
            group: "Surface",
        },
        FieldDef {
            name: "dewp2m",
            label: "2m Dewpoint",
            unit: "°F",
            discipline: 0,
            category: 0,
            number: 6,
            level: "2 m above ground",
            idx_name: "DPT",
            value_range_hundredths: (-4000i32, 9000i32),
            kelvin_to_fahrenheit: true,
            group: "Surface",
        },
        FieldDef {
            name: "rh2m",
            label: "2m Relative Humidity",
            unit: "%",
            discipline: 0,
            category: 1,
            number: 1,
            level: "2 m above ground",
            idx_name: "RH",
            value_range_hundredths: (0i32, 10000i32),
            kelvin_to_fahrenheit: false,
            group: "Surface",
        },
        FieldDef {
            name: "wind10m",
            label: "10m Wind Speed",
            unit: "kt",
            discipline: 0,
            category: 2,
            number: 1,
            level: "10 m above ground",
            idx_name: "WIND",
            value_range_hundredths: (0i32, 8000i32),
            kelvin_to_fahrenheit: false,
            group: "Surface",
        },
        FieldDef {
            name: "gust",
            label: "Surface Gust",
            unit: "kt",
            discipline: 0,
            category: 2,
            number: 22,
            level: "surface",
            idx_name: "GUST",
            value_range_hundredths: (0i32, 10000i32),
            kelvin_to_fahrenheit: false,
            group: "Surface",
        },
        FieldDef {
            name: "vis",
            label: "Visibility",
            unit: "mi",
            discipline: 0,
            category: 19,
            number: 0,
            level: "surface",
            idx_name: "VIS",
            value_range_hundredths: (0i32, 1000i32),
            kelvin_to_fahrenheit: false,
            group: "Surface",
        },
        FieldDef {
            name: "mslp",
            label: "MSLP",
            unit: "mb",
            discipline: 0,
            category: 3,
            number: 192,
            level: "mean sea level",
            idx_name: "MSLMA",
            value_range_hundredths: (98000i32, 105000i32),
            kelvin_to_fahrenheit: false,
            group: "Surface",
        },
        FieldDef {
            name: "sfct",
            label: "Surface Temperature",
            unit: "°F",
            discipline: 0,
            category: 0,
            number: 0,
            level: "surface",
            idx_name: "TMP",
            value_range_hundredths: (-4000i32, 14000i32),
            kelvin_to_fahrenheit: true,
            group: "Surface",
        },
        FieldDef {
            name: "ref",
            label: "Composite Reflectivity",
            unit: "dBZ",
            discipline: 0,
            category: 16,
            number: 196,
            level: "entire atmosphere",
            idx_name: "REFC",
            value_range_hundredths: (-1000i32, 7500i32),
            kelvin_to_fahrenheit: false,
            group: "Radar",
        },
        FieldDef {
            name: "ref1km",
            label: "1km Reflectivity",
            unit: "dBZ",
            discipline: 0,
            category: 16,
            number: 195,
            level: "1000 m above ground",
            idx_name: "REFD",
            value_range_hundredths: (-1000i32, 7500i32),
            kelvin_to_fahrenheit: false,
            group: "Radar",
        },
        FieldDef {
            name: "ref4km",
            label: "4km Reflectivity",
            unit: "dBZ",
            discipline: 0,
            category: 16,
            number: 195,
            level: "4000 m above ground",
            idx_name: "REFD",
            value_range_hundredths: (-1000i32, 7500i32),
            kelvin_to_fahrenheit: false,
            group: "Radar",
        },
        FieldDef {
            name: "retop",
            label: "Echo Top",
            unit: "kft",
            discipline: 0,
            category: 16,
            number: 197,
            level: "cloud top",
            idx_name: "RETOP",
            value_range_hundredths: (0i32, 6000i32),
            kelvin_to_fahrenheit: false,
            group: "Radar",
        },
        FieldDef {
            name: "vil",
            label: "VIL",
            unit: "kg/m²",
            discipline: 0,
            category: 16,
            number: 199,
            level: "entire atmosphere",
            idx_name: "VIL",
            value_range_hundredths: (0i32, 8000i32),
            kelvin_to_fahrenheit: false,
            group: "Radar",
        },
        FieldDef {
            name: "maxref",
            label: "Hourly Max Reflectivity",
            unit: "dBZ",
            discipline: 0,
            category: 16,
            number: 196,
            level: "1000 m above ground",
            idx_name: "MAXREF",
            value_range_hundredths: (-1000i32, 7500i32),
            kelvin_to_fahrenheit: false,
            group: "Radar",
        },
        FieldDef {
            name: "cape",
            label: "CAPE",
            unit: "J/kg",
            discipline: 0,
            category: 7,
            number: 6,
            level: "surface",
            idx_name: "CAPE",
            value_range_hundredths: (0i32, 500000i32),
            kelvin_to_fahrenheit: false,
            group: "Severe",
        },
        FieldDef {
            name: "sbcape",
            label: "Surface-Based CAPE",
            unit: "J/kg",
            discipline: 0,
            category: 7,
            number: 6,
            level: "surface",
            idx_name: "CAPE",
            value_range_hundredths: (0i32, 500000i32),
            kelvin_to_fahrenheit: false,
            group: "Severe",
        },
        FieldDef {
            name: "sbcin",
            label: "Surface-Based CIN",
            unit: "J/kg",
            discipline: 0,
            category: 7,
            number: 7,
            level: "surface",
            idx_name: "CIN",
            value_range_hundredths: (-30000i32, 0i32),
            kelvin_to_fahrenheit: false,
            group: "Severe",
        },
        FieldDef {
            name: "mlcape",
            label: "Mixed-Layer CAPE",
            unit: "J/kg",
            discipline: 0,
            category: 7,
            number: 6,
            level: "90-0 mb above ground",
            idx_name: "CAPE",
            value_range_hundredths: (0i32, 500000i32),
            kelvin_to_fahrenheit: false,
            group: "Severe",
        },
        FieldDef {
            name: "mlcin",
            label: "Mixed-Layer CIN",
            unit: "J/kg",
            discipline: 0,
            category: 7,
            number: 7,
            level: "90-0 mb above ground",
            idx_name: "CIN",
            value_range_hundredths: (-30000i32, 0i32),
            kelvin_to_fahrenheit: false,
            group: "Severe",
        },
        FieldDef {
            name: "mucape",
            label: "Most-Unstable CAPE",
            unit: "J/kg",
            discipline: 0,
            category: 7,
            number: 6,
            level: "180-0 mb above ground",
            idx_name: "CAPE",
            value_range_hundredths: (0i32, 600000i32),
            kelvin_to_fahrenheit: false,
            group: "Severe",
        },
        FieldDef {
            name: "mucin",
            label: "Most-Unstable CIN",
            unit: "J/kg",
            discipline: 0,
            category: 7,
            number: 7,
            level: "180-0 mb above ground",
            idx_name: "CIN",
            value_range_hundredths: (-30000i32, 0i32),
            kelvin_to_fahrenheit: false,
            group: "Severe",
        },
        FieldDef {
            name: "cape03",
            label: "0-3km CAPE",
            unit: "J/kg",
            discipline: 0,
            category: 7,
            number: 6,
            level: "0-3000 m above ground",
            idx_name: "CAPE",
            value_range_hundredths: (0i32, 50000i32),
            kelvin_to_fahrenheit: false,
            group: "Severe",
        },
        FieldDef {
            name: "lftx",
            label: "Lifted Index",
            unit: "°C",
            discipline: 0,
            category: 7,
            number: 192,
            level: "500-1000 mb",
            idx_name: "LFTX",
            value_range_hundredths: (-1200i32, 1200i32),
            kelvin_to_fahrenheit: false,
            group: "Severe",
        },
        FieldDef {
            name: "4lftx",
            label: "Best Lifted Index",
            unit: "°C",
            discipline: 0,
            category: 7,
            number: 193,
            level: "180-0 mb above ground",
            idx_name: "4LFTX",
            value_range_hundredths: (-1200i32, 1200i32),
            kelvin_to_fahrenheit: false,
            group: "Severe",
        },
        FieldDef {
            name: "lfc",
            label: "Level of Free Convection",
            unit: "m",
            discipline: 0,
            category: 3,
            number: 5,
            level: "level of free convection",
            idx_name: "HGT",
            value_range_hundredths: (0i32, 500000i32),
            kelvin_to_fahrenheit: false,
            group: "Severe",
        },
        FieldDef {
            name: "el",
            label: "Equilibrium Level",
            unit: "m",
            discipline: 0,
            category: 3,
            number: 5,
            level: "equilibrium level",
            idx_name: "HGT",
            value_range_hundredths: (0i32, 1800000i32),
            kelvin_to_fahrenheit: false,
            group: "Severe",
        },
        FieldDef {
            name: "lcl",
            label: "LCL Height",
            unit: "m",
            discipline: 0,
            category: 3,
            number: 5,
            level: "level of adiabatic condensation from sfc",
            idx_name: "HGT",
            value_range_hundredths: (0i32, 400000i32),
            kelvin_to_fahrenheit: false,
            group: "Severe",
        },
        FieldDef {
            name: "srh3km",
            label: "0-3km SRH",
            unit: "m²/s²",
            discipline: 0,
            category: 7,
            number: 8,
            level: "3000-0 m above ground",
            idx_name: "HLCY",
            value_range_hundredths: (-10000i32, 60000i32),
            kelvin_to_fahrenheit: false,
            group: "Shear",
        },
        FieldDef {
            name: "srh1km",
            label: "0-1km SRH",
            unit: "m²/s²",
            discipline: 0,
            category: 7,
            number: 8,
            level: "1000-0 m above ground",
            idx_name: "HLCY",
            value_range_hundredths: (-10000i32, 50000i32),
            kelvin_to_fahrenheit: false,
            group: "Shear",
        },
        FieldDef {
            name: "efhl",
            label: "Effective Helicity",
            unit: "m²/s²",
            discipline: 0,
            category: 7,
            number: 192,
            level: "surface",
            idx_name: "EFHL",
            value_range_hundredths: (-10000i32, 60000i32),
            kelvin_to_fahrenheit: false,
            group: "Shear",
        },
        FieldDef {
            name: "cangle",
            label: "Critical Angle",
            unit: "°",
            discipline: 0,
            category: 2,
            number: 0,
            level: "0-500 m above ground",
            idx_name: "CANGLE",
            value_range_hundredths: (0i32, 18000i32),
            kelvin_to_fahrenheit: false,
            group: "Shear",
        },
        FieldDef {
            name: "ustm",
            label: "Bunkers Storm Motion U",
            unit: "kt",
            discipline: 0,
            category: 2,
            number: 27,
            level: "0-6000 m above ground",
            idx_name: "USTM",
            value_range_hundredths: (-4000i32, 4000i32),
            kelvin_to_fahrenheit: false,
            group: "Shear",
        },
        FieldDef {
            name: "vstm",
            label: "Bunkers Storm Motion V",
            unit: "kt",
            discipline: 0,
            category: 2,
            number: 28,
            level: "0-6000 m above ground",
            idx_name: "VSTM",
            value_range_hundredths: (-4000i32, 4000i32),
            kelvin_to_fahrenheit: false,
            group: "Shear",
        },
        FieldDef {
            name: "uh25",
            label: "Max UH 2-5km",
            unit: "m²/s²",
            discipline: 0,
            category: 7,
            number: 199,
            level: "5000-2000 m above ground",
            idx_name: "MXUPHL",
            value_range_hundredths: (0i32, 25000i32),
            kelvin_to_fahrenheit: false,
            group: "Mesoscale",
        },
        FieldDef {
            name: "uh02",
            label: "Max UH 0-2km",
            unit: "m²/s²",
            discipline: 0,
            category: 7,
            number: 199,
            level: "2000-0 m above ground",
            idx_name: "MXUPHL",
            value_range_hundredths: (0i32, 20000i32),
            kelvin_to_fahrenheit: false,
            group: "Mesoscale",
        },
        FieldDef {
            name: "uh03",
            label: "Max UH 0-3km",
            unit: "m²/s²",
            discipline: 0,
            category: 7,
            number: 199,
            level: "3000-0 m above ground",
            idx_name: "MXUPHL",
            value_range_hundredths: (0i32, 20000i32),
            kelvin_to_fahrenheit: false,
            group: "Mesoscale",
        },
        FieldDef {
            name: "mnuh02",
            label: "Min UH 0-2km",
            unit: "m²/s²",
            discipline: 0,
            category: 7,
            number: 200,
            level: "2000-0 m above ground",
            idx_name: "MNUPHL",
            value_range_hundredths: (-20000i32, 0i32),
            kelvin_to_fahrenheit: false,
            group: "Mesoscale",
        },
        FieldDef {
            name: "maxuvv",
            label: "Max Updraft Velocity",
            unit: "m/s",
            discipline: 0,
            category: 2,
            number: 220,
            level: "100-1000 mb above ground",
            idx_name: "MAXUVV",
            value_range_hundredths: (0i32, 5000i32),
            kelvin_to_fahrenheit: false,
            group: "Mesoscale",
        },
        FieldDef {
            name: "maxdvv",
            label: "Max Downdraft Velocity",
            unit: "m/s",
            discipline: 0,
            category: 2,
            number: 221,
            level: "100-1000 mb above ground",
            idx_name: "MAXDVV",
            value_range_hundredths: (-3000i32, 0i32),
            kelvin_to_fahrenheit: false,
            group: "Mesoscale",
        },
        FieldDef {
            name: "relv2km",
            label: "0-2km Relative Vorticity",
            unit: "1/s",
            discipline: 0,
            category: 2,
            number: 12,
            level: "2000-0 m above ground",
            idx_name: "RELV",
            value_range_hundredths: (-1i32, 1i32),
            kelvin_to_fahrenheit: false,
            group: "Mesoscale",
        },
        FieldDef {
            name: "relv1km",
            label: "0-1km Relative Vorticity",
            unit: "1/s",
            discipline: 0,
            category: 2,
            number: 12,
            level: "1000-0 m above ground",
            idx_name: "RELV",
            value_range_hundredths: (-1i32, 1i32),
            kelvin_to_fahrenheit: false,
            group: "Mesoscale",
        },
        FieldDef {
            name: "hail",
            label: "Max Hail Size",
            unit: "in",
            discipline: 0,
            category: 1,
            number: 34,
            level: "entire atmosphere",
            idx_name: "HAIL",
            value_range_hundredths: (0i32, 400i32),
            kelvin_to_fahrenheit: false,
            group: "Severe",
        },
        FieldDef {
            name: "hailsfc",
            label: "Surface Hail",
            unit: "in",
            discipline: 0,
            category: 1,
            number: 34,
            level: "surface",
            idx_name: "HAIL",
            value_range_hundredths: (0i32, 400i32),
            kelvin_to_fahrenheit: false,
            group: "Severe",
        },
        FieldDef {
            name: "ltng",
            label: "Lightning Threat",
            unit: "index",
            discipline: 0,
            category: 17,
            number: 192,
            level: "entire atmosphere",
            idx_name: "LTNG",
            value_range_hundredths: (0i32, 500i32),
            kelvin_to_fahrenheit: false,
            group: "Severe",
        },
        FieldDef {
            name: "graupel",
            label: "Total Column Graupel",
            unit: "kg/m²",
            discipline: 0,
            category: 1,
            number: 74,
            level: "entire atmosphere",
            idx_name: "TCOLG",
            value_range_hundredths: (0i32, 1000i32),
            kelvin_to_fahrenheit: false,
            group: "Severe",
        },
        FieldDef {
            name: "pwat",
            label: "Precipitable Water",
            unit: "in",
            discipline: 0,
            category: 1,
            number: 3,
            level: "entire atmosphere",
            idx_name: "PWAT",
            value_range_hundredths: (0i32, 300i32),
            kelvin_to_fahrenheit: false,
            group: "Moisture",
        },
        FieldDef {
            name: "precip",
            label: "Precipitation Rate",
            unit: "in/hr",
            discipline: 0,
            category: 1,
            number: 7,
            level: "surface",
            idx_name: "PRATE",
            value_range_hundredths: (0i32, 200i32),
            kelvin_to_fahrenheit: false,
            group: "Moisture",
        },
        FieldDef {
            name: "apcp",
            label: "Total Precipitation",
            unit: "in",
            discipline: 0,
            category: 1,
            number: 8,
            level: "surface",
            idx_name: "APCP",
            value_range_hundredths: (0i32, 300i32),
            kelvin_to_fahrenheit: false,
            group: "Moisture",
        },
        FieldDef {
            name: "cpofp",
            label: "Prob Frozen Precip",
            unit: "%",
            discipline: 0,
            category: 1,
            number: 39,
            level: "surface",
            idx_name: "CPOFP",
            value_range_hundredths: (0i32, 10000i32),
            kelvin_to_fahrenheit: false,
            group: "Moisture",
        },
        FieldDef {
            name: "h500",
            label: "500mb Heights",
            unit: "dam",
            discipline: 0,
            category: 3,
            number: 5,
            level: "500 mb",
            idx_name: "HGT",
            value_range_hundredths: (48000i32, 60000i32),
            kelvin_to_fahrenheit: false,
            group: "Upper Air",
        },
        FieldDef {
            name: "t500",
            label: "500mb Temperature",
            unit: "°C",
            discipline: 0,
            category: 0,
            number: 0,
            level: "500 mb",
            idx_name: "TMP",
            value_range_hundredths: (-4000i32, 0i32),
            kelvin_to_fahrenheit: false,
            group: "Upper Air",
        },
        FieldDef {
            name: "h700",
            label: "700mb Heights",
            unit: "dam",
            discipline: 0,
            category: 3,
            number: 5,
            level: "700 mb",
            idx_name: "HGT",
            value_range_hundredths: (28000i32, 32000i32),
            kelvin_to_fahrenheit: false,
            group: "Upper Air",
        },
        FieldDef {
            name: "t700",
            label: "700mb Temperature",
            unit: "°C",
            discipline: 0,
            category: 0,
            number: 0,
            level: "700 mb",
            idx_name: "TMP",
            value_range_hundredths: (-2000i32, 2000i32),
            kelvin_to_fahrenheit: false,
            group: "Upper Air",
        },
        FieldDef {
            name: "h850",
            label: "850mb Heights",
            unit: "dam",
            discipline: 0,
            category: 3,
            number: 5,
            level: "850 mb",
            idx_name: "HGT",
            value_range_hundredths: (12000i32, 16000i32),
            kelvin_to_fahrenheit: false,
            group: "Upper Air",
        },
        FieldDef {
            name: "t850",
            label: "850mb Temperature",
            unit: "°C",
            discipline: 0,
            category: 0,
            number: 0,
            level: "850 mb",
            idx_name: "TMP",
            value_range_hundredths: (-2000i32, 4000i32),
            kelvin_to_fahrenheit: false,
            group: "Upper Air",
        },
        FieldDef {
            name: "td850",
            label: "850mb Dewpoint",
            unit: "°C",
            discipline: 0,
            category: 0,
            number: 6,
            level: "850 mb",
            idx_name: "DPT",
            value_range_hundredths: (-3000i32, 2500i32),
            kelvin_to_fahrenheit: false,
            group: "Upper Air",
        },
        FieldDef {
            name: "wind250",
            label: "250mb Wind",
            unit: "kt",
            discipline: 0,
            category: 2,
            number: 2,
            level: "250 mb",
            idx_name: "UGRD",
            value_range_hundredths: (0i32, 15000i32),
            kelvin_to_fahrenheit: false,
            group: "Upper Air",
        },
        FieldDef {
            name: "pblh",
            label: "PBL Height",
            unit: "m",
            discipline: 0,
            category: 3,
            number: 196,
            level: "surface",
            idx_name: "HPBL",
            value_range_hundredths: (0i32, 500000i32),
            kelvin_to_fahrenheit: false,
            group: "Boundary Layer",
        },
        FieldDef {
            name: "tcc",
            label: "Total Cloud Cover",
            unit: "%",
            discipline: 0,
            category: 6,
            number: 1,
            level: "entire atmosphere",
            idx_name: "TCDC",
            value_range_hundredths: (0i32, 10000i32),
            kelvin_to_fahrenheit: false,
            group: "Boundary Layer",
        },
        FieldDef {
            name: "ceil",
            label: "Cloud Ceiling",
            unit: "ft",
            discipline: 0,
            category: 3,
            number: 5,
            level: "cloud ceiling",
            idx_name: "HGT",
            value_range_hundredths: (0i32, 2500000i32),
            kelvin_to_fahrenheit: false,
            group: "Boundary Layer",
        },
        FieldDef {
            name: "esp",
            label: "Enhanced Stretching Potential",
            unit: "",
            discipline: 0,
            category: 7,
            number: 0,
            level: "0-3000 m above ground",
            idx_name: "ESP",
            value_range_hundredths: (0i32, 500i32),
            kelvin_to_fahrenheit: false,
            group: "Composites",
        },
        FieldDef {
            name: "fzlev",
            label: "Freezing Level",
            unit: "ft",
            discipline: 0,
            category: 3,
            number: 5,
            level: "0C isotherm",
            idx_name: "HGT",
            value_range_hundredths: (0i32, 1800000i32),
            kelvin_to_fahrenheit: false,
            group: "Composites",
        },
        FieldDef {
            name: "wind80m",
            label: "80m Wind Speed",
            unit: "kt",
            discipline: 0,
            category: 2,
            number: 2,
            level: "80 m above ground",
            idx_name: "UGRD",
            value_range_hundredths: (0i32, 10000i32),
            kelvin_to_fahrenheit: false,
            group: "Surface",
        },
    ]
}

/// All supported HRRR fields, in table order.
pub fn field_defs() -> (r: Vec<FieldDef>)
    ensures
        r@ == field_table(),
{
    vec![
        FieldDef {
            name: "temp2m",
            label: "2m Temperature",
            unit: "°F",
            discipline: 0,
            category: 0,
            number: 0,
            level: "2 m above ground",
            idx_name: "TMP",
            value_range_hundredths: (-4000, 12000),
            kelvin_to_fahrenheit: true,
            group: "Surface",
        },
        FieldDef {
            name: "dewp2m",
            label: "2m Dewpoint",
            unit: "°F",
            discipline: 0,
            category: 0,
            number: 6,
            level: "2 m above ground",
            idx_name: "DPT",
            value_range_hundredths: (-4000, 9000),
            kelvin_to_fahrenheit: true,
            group: "Surface",
        },
        FieldDef {
            name: "rh2m",
            label: "2m Relative Humidity",
            unit: "%",
            discipline: 0,
            category: 1,
            number: 1,
            level: "2 m above ground",
            idx_name: "RH",
            value_range_hundredths: (0, 10000),
            kelvin_to_fahrenheit: false,
            group: "Surface",
        },
        FieldDef {
            name: "wind10m",
            label: "10m Wind Speed",
            unit: "kt",
            discipline: 0,
            category: 2,
            number: 1,
            level: "10 m above ground",
            idx_name: "WIND",
            value_range_hundredths: (0, 8000),
            kelvin_to_fahrenheit: false,
            group: "Surface",
        },
        FieldDef {
            name: "gust",
            label: "Surface Gust",
            unit: "kt",
            discipline: 0,
            category: 2,
            number: 22,
            level: "surface",
            idx_name: "GUST",
            value_range_hundredths: (0, 10000),
            kelvin_to_fahrenheit: false,
            group: "Surface",
        },
        FieldDef {
            name: "vis",
            label: "Visibility",
            unit: "mi",
            discipline: 0,
            category: 19,
            number: 0,
            level: "surface",
            idx_name: "VIS",
            value_range_hundredths: (0, 1000),
            kelvin_to_fahrenheit: false,
            group: "Surface",
        },
        FieldDef {
            name: "mslp",
            label: "MSLP",
            unit: "mb",
            discipline: 0,
            category: 3,
            number: 192,
            level: "mean sea level",
            idx_name: "MSLMA",
            value_range_hundredths: (98000, 105000),
            kelvin_to_fahrenheit: false,
            group: "Surface",
        },
        FieldDef {
            name: "sfct",
            label: "Surface Temperature",
            unit: "°F",
            discipline: 0,
            category: 0,
            number: 0,
            level: "surface",
            idx_name: "TMP",
            value_range_hundredths: (-4000, 14000),
            kelvin_to_fahrenheit: true,
            group: "Surface",
        },
        FieldDef {
            name: "ref",
            label: "Composite Reflectivity",
            unit: "dBZ",
            discipline: 0,
            category: 16,
            number: 196,
            level: "entire atmosphere",
            idx_name: "REFC",
            value_range_hundredths: (-1000, 7500),
            kelvin_to_fahrenheit: false,
            group: "Radar",
        },
        FieldDef {
            name: "ref1km",
            label: "1km Reflectivity",
            unit: "dBZ",
            discipline: 0,
            category: 16,
            number: 195,
            level: "1000 m above ground",
            idx_name: "REFD",
            value_range_hundredths: (-1000, 7500),
            kelvin_to_fahrenheit: false,
            group: "Radar",
        },
        FieldDef {
            name: "ref4km",
            label: "4km Reflectivity",
            unit: "dBZ",
            discipline: 0,
            category: 16,
            number: 195,
            level: "4000 m above ground",
            idx_name: "REFD",
            value_range_hundredths: (-1000, 7500),
            kelvin_to_fahrenheit: false,
            group: "Radar",
        },
        FieldDef {
            name: "retop",
            label: "Echo Top",
            unit: "kft",
            discipline: 0,
            category: 16,
            number: 197,
            level: "cloud top",
            idx_name: "RETOP",
            value_range_hundredths: (0, 6000),
            kelvin_to_fahrenheit: false,
            group: "Radar",
        },
        FieldDef {
            name: "vil",
            label: "VIL",
            unit: "kg/m²",
            discipline: 0,
            category: 16,
            number: 199,
            level: "entire atmosphere",
            idx_name: "VIL",
            value_range_hundredths: (0, 8000),
            kelvin_to_fahrenheit: false,
            group: "Radar",
        },
        FieldDef {
            name: "maxref",
            label: "Hourly Max Reflectivity",
            unit: "dBZ",
            discipline: 0,
            category: 16,
            number: 196,
            level: "1000 m above ground",
            idx_name: "MAXREF",
            value_range_hundredths: (-1000, 7500),
            kelvin_to_fahrenheit: false,
            group: "Radar",
        },
        FieldDef {
            name: "cape",
            label: "CAPE",
            unit: "J/kg",
            discipline: 0,
            category: 7,
            number: 6,
            level: "surface",
            idx_name: "CAPE",
            value_range_hundredths: (0, 500000),
            kelvin_to_fahrenheit: false,
            group: "Severe",
        },
        FieldDef {
            name: "sbcape",
            label: "Surface-Based CAPE",
            unit: "J/kg",
            discipline: 0,
            category: 7,
            number: 6,
            level: "surface",
            idx_name: "CAPE",
            value_range_hundredths: (0, 500000),
            kelvin_to_fahrenheit: false,
            group: "Severe",
        },
        FieldDef {
            name: "sbcin",
            label: "Surface-Based CIN",
            unit: "J/kg",
            discipline: 0,
            category: 7,
            number: 7,
            level: "surface",
            idx_name: "CIN",
            value_range_hundredths: (-30000, 0),
            kelvin_to_fahrenheit: false,
            group: "Severe",
        },
        FieldDef {
            name: "mlcape",
            label: "Mixed-Layer CAPE",
            unit: "J/kg",
            discipline: 0,
            category: 7,
            number: 6,
            level: "90-0 mb above ground",
            idx_name: "CAPE",
            value_range_hundredths: (0, 500000),
            kelvin_to_fahrenheit: false,
            group: "Severe",
        },
        FieldDef {
            name: "mlcin",
            label: "Mixed-Layer CIN",
            unit: "J/kg",
            discipline: 0,
            category: 7,
            number: 7,
            level: "90-0 mb above ground",
            idx_name: "CIN",
            value_range_hundredths: (-30000, 0),
            kelvin_to_fahrenheit: false,
            group: "Severe",
        },
        FieldDef {
            name: "mucape",
            label: "Most-Unstable CAPE",
            unit: "J/kg",
            discipline: 0,
            category: 7,
            number: 6,
            level: "180-0 mb above ground",
            idx_name: "CAPE",
            value_range_hundredths: (0, 600000),
            kelvin_to_fahrenheit: false,
            group: "Severe",
        },
        FieldDef {
            name: "mucin",
            label: "Most-Unstable CIN",
            unit: "J/kg",
            discipline: 0,
            category: 7,
            number: 7,
            level: "180-0 mb above ground",
            idx_name: "CIN",
            value_range_hundredths: (-30000, 0),
            kelvin_to_fahrenheit: false,
            group: "Severe",
        },
        FieldDef {
            name: "cape03",
            label: "0-3km CAPE",
            unit: "J/kg",
            discipline: 0,
            category: 7,
            number: 6,
            level: "0-3000 m above ground",
            idx_name: "CAPE",
            value_range_hundredths: (0, 50000),
            kelvin_to_fahrenheit: false,
            group: "Severe",
        },
        FieldDef {
            name: "lftx",
            label: "Lifted Index",
            unit: "°C",
            discipline: 0,
            category: 7,
            number: 192,
            level: "500-1000 mb",
            idx_name: "LFTX",
            value_range_hundredths: (-1200, 1200),
            kelvin_to_fahrenheit: false,
            group: "Severe",
        },
        FieldDef {
            name: "4lftx",
            label: "Best Lifted Index",
            unit: "°C",
            discipline: 0,
            category: 7,
            number: 193,
            level: "180-0 mb above ground",
            idx_name: "4LFTX",
            value_range_hundredths: (-1200, 1200),
            kelvin_to_fahrenheit: false,
            group: "Severe",
        },
        FieldDef {
            name: "lfc",
            label: "Level of Free Convection",
            unit: "m",
            discipline: 0,
            category: 3,
            number: 5,
            level: "level of free convection",
            idx_name: "HGT",
            value_range_hundredths: (0, 500000),
            kelvin_to_fahrenheit: false,
            group: "Severe",
        },
        FieldDef {
            name: "el",
            label: "Equilibrium Level",
            unit: "m",
            discipline: 0,
            category: 3,
            number: 5,
            level: "equilibrium level",
            idx_name: "HGT",
            value_range_hundredths: (0, 1800000),
            kelvin_to_fahrenheit: false,
            group: "Severe",
        },
        FieldDef {
            name: "lcl",
            label: "LCL Height",
            unit: "m",
            discipline: 0,
            category: 3,
            number: 5,
            level: "level of adiabatic condensation from sfc",
            idx_name: "HGT",
            value_range_hundredths: (0, 400000),
            kelvin_to_fahrenheit: false,
            group: "Severe",
        },
        FieldDef {
            name: "srh3km",
            label: "0-3km SRH",
            unit: "m²/s²",
            discipline: 0,
            category: 7,
            number: 8,
            level: "3000-0 m above ground",
            idx_name: "HLCY",
            value_range_hundredths: (-10000, 60000),
            kelvin_to_fahrenheit: false,
            group: "Shear",
        },
        FieldDef {
            name: "srh1km",
            label: "0-1km SRH",
            unit: "m²/s²",
            discipline: 0,
            category: 7,
            number: 8,
            level: "1000-0 m above ground",
            idx_name: "HLCY",
            value_range_hundredths: (-10000, 50000),
            kelvin_to_fahrenheit: false,
            group: "Shear",
        },
        FieldDef {
            name: "efhl",
            label: "Effective Helicity",
            unit: "m²/s²",
            discipline: 0,
            category: 7,
            number: 192,
            level: "surface",
            idx_name: "EFHL",
            value_range_hundredths: (-10000, 60000),
            kelvin_to_fahrenheit: false,
            group: "Shear",
        },
        FieldDef {
            name: "cangle",
            label: "Critical Angle",
            unit: "°",
            discipline: 0,
            category: 2,
            number: 0,
            level: "0-500 m above ground",
            idx_name: "CANGLE",
            value_range_hundredths: (0, 18000),
            kelvin_to_fahrenheit: false,
            group: "Shear",
        },
        FieldDef {
            name: "ustm",
            label: "Bunkers Storm Motion U",
            unit: "kt",
            discipline: 0,
            category: 2,
            number: 27,
            level: "0-6000 m above ground",
            idx_name: "USTM",
            value_range_hundredths: (-4000, 4000),
            kelvin_to_fahrenheit: false,
            group: "Shear",
        },
        FieldDef {
            name: "vstm",
            label: "Bunkers Storm Motion V",
            unit: "kt",
            discipline: 0,
            category: 2,
            number: 28,
            level: "0-6000 m above ground",
            idx_name: "VSTM",
            value_range_hundredths: (-4000, 4000),
            kelvin_to_fahrenheit: false,
            group: "Shear",
        },
        FieldDef {
            name: "uh25",
            label: "Max UH 2-5km",
            unit: "m²/s²",
            discipline: 0,
            category: 7,
            number: 199,
            level: "5000-2000 m above ground",
            idx_name: "MXUPHL",
            value_range_hundredths: (0, 25000),
            kelvin_to_fahrenheit: false,
            group: "Mesoscale",
        },
        FieldDef {
            name: "uh02",
            label: "Max UH 0-2km",
            unit: "m²/s²",
            discipline: 0,
            category: 7,
            number: 199,
            level: "2000-0 m above ground",
            idx_name: "MXUPHL",
            value_range_hundredths: (0, 20000),
            kelvin_to_fahrenheit: false,
            group: "Mesoscale",
        },
        FieldDef {
            name: "uh03",
            label: "Max UH 0-3km",
            unit: "m²/s²",
            discipline: 0,
            category: 7,
            number: 199,
            level: "3000-0 m above ground",
            idx_name: "MXUPHL",
            value_range_hundredths: (0, 20000),
            kelvin_to_fahrenheit: false,
            group: "Mesoscale",
        },
        FieldDef {
            name: "mnuh02",
            label: "Min UH 0-2km",
            unit: "m²/s²",
            discipline: 0,
            category: 7,
            number: 200,
            level: "2000-0 m above ground",
            idx_name: "MNUPHL",
            value_range_hundredths: (-20000, 0),
            kelvin_to_fahrenheit: false,
            group: "Mesoscale",
        },
        FieldDef {
            name: "maxuvv",
            label: "Max Updraft Velocity",
            unit: "m/s",
            discipline: 0,
            category: 2,
            number: 220,
            level: "100-1000 mb above ground",
            idx_name: "MAXUVV",
            value_range_hundredths: (0, 5000),
            kelvin_to_fahrenheit: false,
            group: "Mesoscale",
        },
        FieldDef {
            name: "maxdvv",
            label: "Max Downdraft Velocity",
            unit: "m/s",
            discipline: 0,
            category: 2,
            number: 221,
            level: "100-1000 mb above ground",
            idx_name: "MAXDVV",
            value_range_hundredths: (-3000, 0),
            kelvin_to_fahrenheit: false,
            group: "Mesoscale",
        },
        FieldDef {
            name: "relv2km",
            label: "0-2km Relative Vorticity",
            unit: "1/s",
            discipline: 0,
            category: 2,
            number: 12,
            level: "2000-0 m above ground",
            idx_name: "RELV",
            value_range_hundredths: (-1, 1),
            kelvin_to_fahrenheit: false,
            group: "Mesoscale",
        },
        FieldDef {
            name: "relv1km",
            label: "0-1km Relative Vorticity",
            unit: "1/s",
            discipline: 0,
            category: 2,
            number: 12,
            level: "1000-0 m above ground",
            idx_name: "RELV",
            value_range_hundredths: (-1, 1),
            kelvin_to_fahrenheit: false,
            group: "Mesoscale",
        },
        FieldDef {
            name: "hail",
            label: "Max Hail Size",
            unit: "in",
            discipline: 0,
            category: 1,
            number: 34,
            level: "entire atmosphere",
            idx_name: "HAIL",
            value_range_hundredths: (0, 400),
            kelvin_to_fahrenheit: false,
            group: "Severe",
        },
        FieldDef {
            name: "hailsfc",
            label: "Surface Hail",
            unit: "in",
            discipline: 0,
            category: 1,
            number: 34,
            level: "surface",
            idx_name: "HAIL",
            value_range_hundredths: (0, 400),
            kelvin_to_fahrenheit: false,
            group: "Severe",
        },
        FieldDef {
            name: "ltng",
            label: "Lightning Threat",
            unit: "index",
            discipline: 0,
            category: 17,
            number: 192,
            level: "entire atmosphere",
            idx_name: "LTNG",
            value_range_hundredths: (0, 500),
            kelvin_to_fahrenheit: false,
            group: "Severe",
        },
        FieldDef {
            name: "graupel",
            label: "Total Column Graupel",
            unit: "kg/m²",
            discipline: 0,
            category: 1,
            number: 74,
            level: "entire atmosphere",
            idx_name: "TCOLG",
            value_range_hundredths: (0, 1000),
            kelvin_to_fahrenheit: false,
            group: "Severe",
        },
        FieldDef {
            name: "pwat",
            label: "Precipitable Water",
            unit: "in",
            discipline: 0,
            category: 1,
            number: 3,
            level: "entire atmosphere",
            idx_name: "PWAT",
            value_range_hundredths: (0, 300),
            kelvin_to_fahrenheit: false,
            group: "Moisture",
        },
        FieldDef {
            name: "precip",
            label: "Precipitation Rate",
            unit: "in/hr",
            discipline: 0,
            category: 1,
            number: 7,
            level: "surface",
            idx_name: "PRATE",
            value_range_hundredths: (0, 200),
            kelvin_to_fahrenheit: false,
            group: "Moisture",
        },
        FieldDef {
            name: "apcp",
            label: "Total Precipitation",
            unit: "in",
            discipline: 0,
            category: 1,
            number: 8,
            level: "surface",
            idx_name: "APCP",
            value_range_hundredths: (0, 300),
            kelvin_to_fahrenheit: false,
            group: "Moisture",
        },
        FieldDef {
            name: "cpofp",
            label: "Prob Frozen Precip",
            unit: "%",
            discipline: 0,
            category: 1,
            number: 39,
            level: "surface",
            idx_name: "CPOFP",
            value_range_hundredths: (0, 10000),
            kelvin_to_fahrenheit: false,
            group: "Moisture",
        },
        FieldDef {
            name: "h500",
            label: "500mb Heights",
            unit: "dam",
            discipline: 0,
            category: 3,
            number: 5,
            level: "500 mb",
            idx_name: "HGT",
            value_range_hundredths: (48000, 60000),
            kelvin_to_fahrenheit: false,
            group: "Upper Air",
        },
        FieldDef {
            name: "t500",
            label: "500mb Temperature",
            unit: "°C",
            discipline: 0,
            category: 0,
            number: 0,
            level: "500 mb",
            idx_name: "TMP",
            value_range_hundredths: (-4000, 0),
            kelvin_to_fahrenheit: false,
            group: "Upper Air",
        },
        FieldDef {
            name: "h700",
            label: "700mb Heights",
            unit: "dam",
            discipline: 0,
            category: 3,
            number: 5,
            level: "700 mb",
            idx_name: "HGT",
            value_range_hundredths: (28000, 32000),
            kelvin_to_fahrenheit: false,
            group: "Upper Air",
        },
        FieldDef {
            name: "t700",
            label: "700mb Temperature",
            unit: "°C",
            discipline: 0,
            category: 0,
            number: 0,
            level: "700 mb",
            idx_name: "TMP",
            value_range_hundredths: (-2000, 2000),
            kelvin_to_fahrenheit: false,
            group: "Upper Air",
        },
        FieldDef {
            name: "h850",
            label: "850mb Heights",
            unit: "dam",
            discipline: 0,
            category: 3,
            number: 5,
            level: "850 mb",
            idx_name: "HGT",
            value_range_hundredths: (12000, 16000),
            kelvin_to_fahrenheit: false,
            group: "Upper Air",
        },
        FieldDef {
            name: "t850",
            label: "850mb Temperature",
            unit: "°C",
            discipline: 0,
            category: 0,
            number: 0,
            level: "850 mb",
            idx_name: "TMP",
            value_range_hundredths: (-2000, 4000),
            kelvin_to_fahrenheit: false,
            group: "Upper Air",
        },
        FieldDef {
            name: "td850",
            label: "850mb Dewpoint",
            unit: "°C",
            discipline: 0,
            category: 0,
            number: 6,
            level: "850 mb",
            idx_name: "DPT",
            value_range_hundredths: (-3000, 2500),
            kelvin_to_fahrenheit: false,
            group: "Upper Air",
        },
        FieldDef {
            name: "wind250",
            label: "250mb Wind",
            unit: "kt",
            discipline: 0,
            category: 2,
            number: 2,
            level: "250 mb",
            idx_name: "UGRD",
            value_range_hundredths: (0, 15000),
            kelvin_to_fahrenheit: false,
            group: "Upper Air",
        },
        FieldDef {
            name: "pblh",
            label: "PBL Height",
            unit: "m",
            discipline: 0,
            category: 3,
            number: 196,
            level: "surface",
            idx_name: "HPBL",
            value_range_hundredths: (0, 500000),
            kelvin_to_fahrenheit: false,
            group: "Boundary Layer",
        },
        FieldDef {
            name: "tcc",
            label: "Total Cloud Cover",
            unit: "%",
            discipline: 0,
            category: 6,
            number: 1,
            level: "entire atmosphere",
            idx_name: "TCDC",
            value_range_hundredths: (0, 10000),
            kelvin_to_fahrenheit: false,
            group: "Boundary Layer",
        },
        FieldDef {
            name: "ceil",
            label: "Cloud Ceiling",
            unit: "ft",
            discipline: 0,
            category: 3,
            number: 5,
            level: "cloud ceiling",
            idx_name: "HGT",
            value_range_hundredths: (0, 2500000),
            kelvin_to_fahrenheit: false,
            group: "Boundary Layer",
        },
        FieldDef {
            name: "esp",
            label: "Enhanced Stretching Potential",
            unit: "",
            discipline: 0,
            category: 7,
            number: 0,
            level: "0-3000 m above ground",
            idx_name: "ESP",
            value_range_hundredths: (0, 500),
            kelvin_to_fahrenheit: false,
            group: "Composites",
        },
        FieldDef {
            name: "fzlev",
            label: "Freezing Level",
            unit: "ft",
            discipline: 0,
            category: 3,
            number: 5,
            level: "0C isotherm",
            idx_name: "HGT",
            value_range_hundredths: (0, 1800000),
            kelvin_to_fahrenheit: false,
            group: "Composites",
        },
        FieldDef {
            name: "wind80m",
            label: "80m Wind Speed",
            unit: "kt",
            discipline: 0,
            category: 2,
            number: 2,
            level: "80 m above ground",
            idx_name: "UGRD",
            value_range_hundredths: (0, 10000),
            kelvin_to_fahrenheit: false,
            group: "Surface",
        },
    ]
}

/// The first field of `t` named `name`.
pub open spec fn find_field(t: Seq<FieldDef>, name: Seq<char>) -> Option<FieldDef>
    decreases t.len(),
{
    if t.len() == 0 {
        None
    } else if t[0].name@ == name {
        Some(t[0])
    } else {
        find_field(t.drop_first(), name)
    }
}

/// Looks up a field by its name.
pub fn lookup_field(name: &str) -> (r: Option<FieldDef>)
    ensures
        r == find_field(field_table(), name@),
{
    let table = field_defs();
    let mut i: usize = 0;
    assert(field_table().skip(0) =~= field_table());
    while i < table.len()
        invariant
            table@ == field_table(),
            i <= table@.len(),
            find_field(field_table(), name@) == find_field(field_table().skip(i as int), name@),
        decreases table@.len() - i,
    {
        let f = table[i];
        assert(field_table().skip(i as int)[0] == f);
        assert(field_table().skip(i as int).drop_first() =~= field_table().skip(i + 1));
        if str_equal(f.name, name) {
            return Some(f);
        }
        i = i + 1;
    }
    None
}

/// The names of all fields, in table order.
pub fn field_names() -> (r: Vec<&'static str>)
    ensures
        r@.len() == field_table().len(),
        forall|i: int| 0 <= i < r@.len() ==> #[trigger] r@[i] == field_table()[i].name,
{
    let table = field_defs();
    let mut names: Vec<&'static str> = Vec::new();
    let mut i: usize = 0;
    while i < table.len()
        invariant
            table@ == field_table(),
            i <= table@.len(),
            names@.len() == i,
            forall|j: int| 0 <= j < i ==> #[trigger] names@[j] == field_table()[j].name,
        decreases table@.len() - i,
    {
        names.push(table[i].name);
        i = i + 1;
    }
    names
}

/// The distinct groups of `t`, in order of first appearance.
pub open spec fn distinct_groups(t: Seq<FieldDef>) -> Seq<Seq<char>>
    decreases t.len(),
{
    if t.len() == 0 {
        Seq::empty()
    } else {
        let g = distinct_groups(t.drop_last());
        if g.contains(t.last().group@) {
            g
        } else {
            g.push(t.last().group@)
        }
    }
}

/// The character sequences of a sequence of strings.
pub open spec fn str_views(v: Seq<&'static str>) -> Seq<Seq<char>> {
    Seq::new(v.len(), |i: int| v[i]@)
}

fn contains_str(v: &Vec<&'static str>, s: &str) -> (r: bool)
    ensures
        r == str_views(v@).contains(s@),
{
    let mut i: usize = 0;
    while i < v.len()
        invariant
            i <= v@.len(),
            forall|j: int| 0 <= j < i ==> #[trigger] v@[j]@ != s@,
        decreases v@.len() - i,
    {
        if str_equal(v[i], s) {
            assert(str_views(v@)[i as int] == s@);
            return true;
        }
        i = i + 1;
    }
    assert(!str_views(v@).contains(s@)) by {
        assert forall|j: int| 0 <= j < v@.len() implies #[trigger] str_views(v@)[j] != s@ by {}
    }
    false
}

/// All distinct group names, in order of first appearance.
pub fn field_groups() -> (r: Vec<&'static str>)
    ensures
        str_views(r@) == distinct_groups(field_table()),
{
    let table = field_defs();
    let mut groups: Vec<&'static str> = Vec::new();
    let mut i: usize = 0;
    assert(field_table().take(0) =~= Seq::<FieldDef>::empty());
    while i < table.len()
        invariant
            table@ == field_table(),
            i <= table@.len(),
            str_views(groups@) == distinct_groups(field_table().take(i as int)),
        decreases table@.len() - i,
    {
        let f = table[i];
        let ghost prefix = field_table().take(i + 1);
        assert(prefix.drop_last() =~= field_table().take(i as int));
        assert(prefix.last() == f);
        if !contains_str(&groups, f.group) {
            groups.push(f.group);
            assert(str_views(groups@) =~= distinct_groups(field_table().take(i as int)).push(
                f.group@,
            ));
        }
        i = i + 1;
    }
    assert(field_table().take(table@.len() as int) =~= field_table());
    groups
}

/// The group list names every group of `t` once, and nothing else.
pub proof fn law_distinct_groups(t: Seq<FieldDef>)
    ensures
        distinct_groups(t).no_duplicates(),
        forall|i: int| 0 <= i < t.len() ==> distinct_groups(t).contains(#[trigger] t[i].group@),
        forall|k: int|
            #![trigger distinct_groups(t)[k]]
            0 <= k < distinct_groups(t).len() ==> exists|i: int|
                0 <= i < t.len() && #[trigger] t[i].group@ == distinct_groups(t)[k],
    decreases t.len(),
{
    if t.len() > 0 {
        let p = t.drop_last();
        law_distinct_groups(p);
        let g = distinct_groups(p);
        assert forall|i: int| 0 <= i < t.len() implies distinct_groups(t).contains(#[trigger] t[i].group@) by {
            if i < t.len() - 1 {
                assert(t[i] == p[i]);
                assert(g.contains(p[i].group@));
                let k = choose|k: int| 0 <= k < g.len() && g[k] == p[i].group@;
                if !g.contains(t.last().group@) {
                    assert(distinct_groups(t)[k] == g[k]);
                }
            } else {
                if !g.contains(t.last().group@) {
                    assert(distinct_groups(t)[g.len() as int] == t.last().group@);
                }
            }
        }
        assert forall|k: int|
            #![trigger distinct_groups(t)[k]]
            0 <= k < distinct_groups(t).len() implies exists|i: int|
            0 <= i < t.len() && #[trigger] t[i].group@ == distinct_groups(t)[k] by {
            if k < g.len() {
                let i = choose|i: int| 0 <= i < p.len() && #[trigger] p[i].group@ == g[k];
                assert(t[i] == p[i]);
            } else {
                assert(t[t.len() - 1].group@ == distinct_groups(t)[k]);
            }
        }
    }
}

/// Every field of the table is found by its own name, and what is found
/// carries the name looked up.
pub proof fn law_lookup_finds_listed(t: Seq<FieldDef>, name: Seq<char>)
    ensures
        find_field(t, name) is None <==> forall|i: int| 0 <= i < t.len() ==> #[trigger] t[i].name@ != name,
        find_field(t, name) matches Some(f) ==> f.name@ == name && t.contains(f),
    decreases t.len(),
{
    if t.len() > 0 {
        let rest = t.drop_first();
        law_lookup_finds_listed(rest, name);
        if t[0].name@ != name {
            assert forall|i: int| 1 <= i < t.len() implies #[trigger] t[i] == rest[i - 1] by {}
            if let Some(f) = find_field(rest, name) {
                let k = choose|k: int| 0 <= k < rest.len() && rest[k] == f;
                assert(t[k + 1] == f);
            }
            if find_field(rest, name) is None {
                assert forall|i: int| 0 <= i < t.len() implies #[trigger] t[i].name@ != name by {
                    if i > 0 {
                        assert(t[i] == rest[i - 1]);
                    }
                }
            } else {
                let f = find_field(rest, name)->0;
                let k = choose|k: int| 0 <= k < rest.len() && rest[k] == f;
                assert(t[k + 1].name@ == name);
            }
        } else {
            assert(t.contains(t[0]));
        }
    }
}

/// The fields of a group are exactly the table's fields of that group, in
/// table order.
pub proof fn law_fields_with_group(t: Seq<FieldDef>, group: Seq<char>)
    ensures
        fields_with_group(t, group) == t.filter(|f: FieldDef| f.group@ == group),
        forall|f: FieldDef|
            #[trigger] fields_with_group(t, group).contains(f) <==> (t.contains(f) && f.group@ == group),
    decreases t.len(),
{
    reveal(Seq::filter);
    if t.len() > 0 {
        let p = t.drop_last();
        law_fields_with_group(p, group);
        let fp = fields_with_group(p, group);
        assert forall|f: FieldDef| #[trigger] fields_with_group(t, group).contains(f) <==> (t.contains(f)
            && f.group@ == group) by {
            if fields_with_group(t, group).contains(f) {
                let j = choose|j: int| 0 <= j < fields_with_group(t, group).len() && fields_with_group(t, group)[j] == f;
                if j < fp.len() {
                    assert(fp[j] == f);
                    assert(fp.contains(f));
                    let i = choose|i: int| 0 <= i < p.len() && p[i] == f;
                    assert(t[i] == f);
                } else {
                    assert(f == t.last());
                    assert(t[t.len() - 1] == f);
                }
            }
            if t.contains(f) && f.group@ == group {
                let i = choose|i: int| 0 <= i < t.len() && t[i] == f;
                if i < t.len() - 1 {
                    assert(p[i] == f);
                    assert(fp.contains(f));
                    let j = choose|j: int| 0 <= j < fp.len() && fp[j] == f;
                    assert(fields_with_group(t, group)[j] == f);
                } else {
                    assert(fields_with_group(t, group)[fp.len() as int] == f);
                }
            }
        }
    }
}

/// The fields of `t` in group `group`, in order.
pub open spec fn fields_with_group(t: Seq<FieldDef>, group: Seq<char>) -> Seq<FieldDef>
    decreases t.len(),
{
    if t.len() == 0 {
        Seq::empty()
    } else {
        let p = fields_with_group(t.drop_last(), group);
        if t.last().group@ == group {
            p.push(t.last())
        } else {
            p
        }
    }
}

/// The fields of a group, in table order.
pub fn fields_in_group(group: &str) -> (r: Vec<FieldDef>)
    ensures
        r@ == fields_with_group(field_table(), group@),
{
    let table = field_defs();
    let mut out: Vec<FieldDef> = Vec::new();
    let mut i: usize = 0;
    assert(field_table().take(0) =~= Seq::<FieldDef>::empty());
    while i < table.len()
        invariant
            table@ == field_table(),
            i <= table@.len(),
            out@ == fields_with_group(field_table().take(i as int), group@),
        decreases table@.len() - i,
    {
        let f = table[i];
        let ghost prefix = field_table().take(i + 1);
        assert(prefix.drop_last() =~= field_table().take(i as int));
        assert(prefix.last() == f);
        if str_equal(f.group, group) {
            out.push(f);
        }
        i = i + 1;
    }
    assert(field_table().take(table@.len() as int) =~= field_table());
    out
}

/// The unit conversion applied to a field's values before display.
#[derive(Debug, Clone, Copy, PartialEq, Eq, Structural)]
pub enum UnitConversion {
    /// Kelvin to degrees Fahrenheit.
    KelvinToFahrenheit,
    /// Kelvin to degrees Celsius.
    KelvinToCelsius,
    /// Metres per second to knots.
    MetresPerSecondToKnots,
    /// The magnitude of a wind component, metres per second to knots.
    AbsoluteMetresPerSecondToKnots,
    /// Metres to statute miles.
    MetresToMiles,
    /// Kilograms per square metre per second to inches per hour.
    RateToInchesPerHour,
    /// Kilograms per square metre to inches of water.
    MassToInches,
    /// Geopotential metres to decametres.
    GeopotentialMetresToDecametres,
    /// Metres to thousands of feet.
    MetresToKilofeet,
    /// Metres to feet.
    MetresToFeet,
    /// Metres to inches.
    MetresToInches,
    /// Pascals to millibars.
    PascalsToMillibars,
    /// Kilograms per square metre of precipitable water to inches.
    PrecipitableWaterToInches,
    /// Values are displayed as decoded.
    Unchanged,
}

/// The conversion for the field called `name`.
pub open spec fn spec_conversion_for(name: Seq<char>) -> UnitConversion {
    if name == "temp2m"@ || name == "dewp2m"@ || name == "sfct"@ {
        UnitConversion::KelvinToFahrenheit
    } else if name == "t500"@ || name == "t700"@ || name == "t850"@ || name == "td850"@ {
        UnitConversion::KelvinToCelsius
    } else if name == "wind10m"@ || name == "gust"@ || name == "ustm"@ || name == "vstm"@ {
        UnitConversion::MetresPerSecondToKnots
    } else if name == "wind250"@ || name == "wind80m"@ {
        UnitConversion::AbsoluteMetresPerSecondToKnots
    } else if name == "vis"@ {
        UnitConversion::MetresToMiles
    } else if name == "precip"@ {
        UnitConversion::RateToInchesPerHour
    } else if name == "apcp"@ {
        UnitConversion::MassToInches
    } else if name == "h500"@ || name == "h700"@ || name == "h850"@ {
        UnitConversion::GeopotentialMetresToDecametres
    } else if name == "retop"@ {
        UnitConversion::MetresToKilofeet
    } else if name == "ceil"@ || name == "fzlev"@ {
        UnitConversion::MetresToFeet
    } else if name == "hail"@ || name == "hailsfc"@ {
        UnitConversion::MetresToInches
    } else if name == "mslp"@ {
        UnitConversion::PascalsToMillibars
    } else if name == "pwat"@ {
        UnitConversion::PrecipitableWaterToInches
    } else {
        UnitConversion::Unchanged
    }
}

/// The unit conversion applied to the values of the field called `name`;
/// missing values are left as they are by every conversion.
pub fn conversion_for(name: &str) -> (r: UnitConversion)
    ensures
        r == spec_conversion_for(name@),
{
    if str_equal(name, "temp2m") || str_equal(name, "dewp2m") || str_equal(name, "sfct") {
        UnitConversion::KelvinToFahrenheit
    } else if str_equal(name, "t500") || str_equal(name, "t700") || str_equal(name, "t850") || str_equal(name, "td850") {
        UnitConversion::KelvinToCelsius
    } else if str_equal(name, "wind10m") || str_equal(name, "gust") || str_equal(name, "ustm") || str_equal(name, "vstm") {
        UnitConversion::MetresPerSecondToKnots
    } else if str_equal(name, "wind250") || str_equal(name, "wind80m") {
        UnitConversion::AbsoluteMetresPerSecondToKnots
    } else if str_equal(name, "vis") {
        UnitConversion::MetresToMiles
    } else if str_equal(name, "precip") {
        UnitConversion::RateToInchesPerHour
    } else if str_equal(name, "apcp") {
        UnitConversion::MassToInches
    } else if str_equal(name, "h500") || str_equal(name, "h700") || str_equal(name, "h850") {
        UnitConversion::GeopotentialMetresToDecametres
    } else if str_equal(name, "retop") {
        UnitConversion::MetresToKilofeet
    } else if str_equal(name, "ceil") || str_equal(name, "fzlev") {
        UnitConversion::MetresToFeet
    } else if str_equal(name, "hail") || str_equal(name, "hailsfc") {
        UnitConversion::MetresToInches
    } else if str_equal(name, "mslp") {
        UnitConversion::PascalsToMillibars
    } else if str_equal(name, "pwat") {
        UnitConversion::PrecipitableWaterToInches
    } else {
        UnitConversion::Unchanged
    }
}


/// Whether a field's display flag and unit conversion agree, and its name
/// is not a composite.
spec fn field_facts(f: FieldDef) -> bool {
    &&& f.kelvin_to_fahrenheit <==> spec_conversion_for(f.name@) == UnitConversion::KelvinToFahrenheit
    &&& !composite_name(f.name@)
    &&& idx_name_agrees(f)
}

/// Whether a field's `.idx` name is the GRIB2 abbreviation of its
/// meteorological parameter, where the parameter table knows it. The
/// hourly maximum reflectivity field `maxref` is left out: its `.idx` record
/// is `MAXREF`, while the table lists its parameter as composite
/// reflectivity (`REFC`).
pub open spec fn idx_name_agrees(f: FieldDef) -> bool {
    f.discipline == 0 && f.name@ != "maxref"@ ==> match meteorological_parameter(f.category, f.number) {
        Some(p) => f.idx_name@ == p.2@,
        None => true,
    }
}

spec fn table_rank(n: Seq<char>) -> int {
    if n == "temp2m"@ {
        0
    } else if n == "dewp2m"@ {
        1
    } else if n == "rh2m"@ {
        2
    } else if n == "wind10m"@ {
        3
    } else if n == "gust"@ {
        4
    } else if n == "vis"@ {
        5
    } else if n == "mslp"@ {
        6
    } else if n == "sfct"@ {
        7
    } else if n == "ref"@ {
        8
    } else if n == "ref1km"@ {
        9
    } else if n == "ref4km"@ {
        10
    } else if n == "retop"@ {
        11
    } else if n == "vil"@ {
        12
    } else if n == "maxref"@ {
        13
    } else if n == "cape"@ {
        14
    } else if n == "sbcape"@ {
        15
    } else if n == "sbcin"@ {
        16
    } else if n == "mlcape"@ {
        17
    } else if n == "mlcin"@ {
        18
    } else if n == "mucape"@ {
        19
    } else if n == "mucin"@ {
        20
    } else if n == "cape03"@ {
        21
    } else if n == "lftx"@ {
        22
    } else if n == "4lftx"@ {
        23
    } else if n == "lfc"@ {
        24
    } else if n == "el"@ {
        25
    } else if n == "lcl"@ {
        26
    } else if n == "srh3km"@ {
        27
    } else if n == "srh1km"@ {
        28
    } else if n == "efhl"@ {
        29
    } else if n == "cangle"@ {
        30
    } else if n == "ustm"@ {
        31
    } else if n == "vstm"@ {
        32
    } else if n == "uh25"@ {
        33
    } else if n == "uh02"@ {
        34
    } else if n == "uh03"@ {
        35
    } else if n == "mnuh02"@ {
        36
    } else if n == "maxuvv"@ {
        37
    } else if n == "maxdvv"@ {
        38
    } else if n == "relv2km"@ {
        39
    } else if n == "relv1km"@ {
        40
    } else if n == "hail"@ {
        41
    } else if n == "hailsfc"@ {
        42
    } else if n == "ltng"@ {
        43
    } else if n == "graupel"@ {
        44
    } else if n == "pwat"@ {
        45
    } else if n == "precip"@ {
        46
    } else if n == "apcp"@ {
        47
    } else if n == "cpofp"@ {
        48
    } else if n == "h500"@ {
        49
    } else if n == "t500"@ {
        50
    } else if n == "h700"@ {
        51
    } else if n == "t700"@ {
        52
    } else if n == "h850"@ {
        53
    } else if n == "t850"@ {
        54
    } else if n == "td850"@ {
        55
    } else if n == "wind250"@ {
        56
    } else if n == "pblh"@ {
        57
    } else if n == "tcc"@ {
        58
    } else if n == "ceil"@ {
        59
    } else if n == "esp"@ {
        60
    } else if n == "fzlev"@ {
        61
    } else if n == "wind80m"@ {
        62
    } else {
        -1
    }
}

proof fn lemma_name_letters()
    ensures
        "temp2m"@.len() == 6 && "temp2m"@[0] == 't' && "temp2m"@[1] == 'e' && "temp2m"@[2] == 'm' && "temp2m"@[3] == 'p' && "temp2m"@[4] == '2' && "temp2m"@[5] == 'm',
        "dewp2m"@.len() == 6 && "dewp2m"@[0] == 'd' && "dewp2m"@[1] == 'e' && "dewp2m"@[2] == 'w' && "dewp2m"@[3] == 'p' && "dewp2m"@[4] == '2' && "dewp2m"@[5] == 'm',
        "rh2m"@.len() == 4 && "rh2m"@[0] == 'r' && "rh2m"@[1] == 'h' && "rh2m"@[2] == '2' && "rh2m"@[3] == 'm',
        "wind10m"@.len() == 7 && "wind10m"@[0] == 'w' && "wind10m"@[1] == 'i' && "wind10m"@[2] == 'n' && "wind10m"@[3] == 'd' && "wind10m"@[4] == '1' && "wind10m"@[5] == '0' && "wind10m"@[6] == 'm',
        "gust"@.len() == 4 && "gust"@[0] == 'g' && "gust"@[1] == 'u' && "gust"@[2] == 's' && "gust"@[3] == 't',
        "vis"@.len() == 3 && "vis"@[0] == 'v' && "vis"@[1] == 'i' && "vis"@[2] == 's',
        "mslp"@.len() == 4 && "mslp"@[0] == 'm' && "mslp"@[1] == 's' && "mslp"@[2] == 'l' && "mslp"@[3] == 'p',
        "sfct"@.len() == 4 && "sfct"@[0] == 's' && "sfct"@[1] == 'f' && "sfct"@[2] == 'c' && "sfct"@[3] == 't',
        "ref"@.len() == 3 && "ref"@[0] == 'r' && "ref"@[1] == 'e' && "ref"@[2] == 'f',
        "ref1km"@.len() == 6 && "ref1km"@[0] == 'r' && "ref1km"@[1] == 'e' && "ref1km"@[2] == 'f' && "ref1km"@[3] == '1' && "ref1km"@[4] == 'k' && "ref1km"@[5] == 'm',
        "ref4km"@.len() == 6 && "ref4km"@[0] == 'r' && "ref4km"@[1] == 'e' && "ref4km"@[2] == 'f' && "ref4km"@[3] == '4' && "ref4km"@[4] == 'k' && "ref4km"@[5] == 'm',
        "retop"@.len() == 5 && "retop"@[0] == 'r' && "retop"@[1] == 'e' && "retop"@[2] == 't' && "retop"@[3] == 'o' && "retop"@[4] == 'p',
        "vil"@.len() == 3 && "vil"@[0] == 'v' && "vil"@[1] == 'i' && "vil"@[2] == 'l',
        "maxref"@.len() == 6 && "maxref"@[0] == 'm' && "maxref"@[1] == 'a' && "maxref"@[2] == 'x' && "maxref"@[3] == 'r' && "maxref"@[4] == 'e' && "maxref"@[5] == 'f',
        "cape"@.len() == 4 && "cape"@[0] == 'c' && "cape"@[1] == 'a' && "cape"@[2] == 'p' && "cape"@[3] == 'e',
        "sbcape"@.len() == 6 && "sbcape"@[0] == 's' && "sbcape"@[1] == 'b' && "sbcape"@[2] == 'c' && "sbcape"@[3] == 'a' && "sbcape"@[4] == 'p' && "sbcape"@[5] == 'e',
        "sbcin"@.len() == 5 && "sbcin"@[0] == 's' && "sbcin"@[1] == 'b' && "sbcin"@[2] == 'c' && "sbcin"@[3] == 'i' && "sbcin"@[4] == 'n',
        "mlcape"@.len() == 6 && "mlcape"@[0] == 'm' && "mlcape"@[1] == 'l' && "mlcape"@[2] == 'c' && "mlcape"@[3] == 'a' && "mlcape"@[4] == 'p' && "mlcape"@[5] == 'e',
        "mlcin"@.len() == 5 && "mlcin"@[0] == 'm' && "mlcin"@[1] == 'l' && "mlcin"@[2] == 'c' && "mlcin"@[3] == 'i' && "mlcin"@[4] == 'n',
        "mucape"@.len() == 6 && "mucape"@[0] == 'm' && "mucape"@[1] == 'u' && "mucape"@[2] == 'c' && "mucape"@[3] == 'a' && "mucape"@[4] == 'p' && "mucape"@[5] == 'e',
        "mucin"@.len() == 5 && "mucin"@[0] == 'm' && "mucin"@[1] == 'u' && "mucin"@[2] == 'c' && "mucin"@[3] == 'i' && "mucin"@[4] == 'n',
        "cape03"@.len() == 6 && "cape03"@[0] == 'c' && "cape03"@[1] == 'a' && "cape03"@[2] == 'p' && "cape03"@[3] == 'e' && "cape03"@[4] == '0' && "cape03"@[5] == '3',
        "lftx"@.len() == 4 && "lftx"@[0] == 'l' && "lftx"@[1] == 'f' && "lftx"@[2] == 't' && "lftx"@[3] == 'x',
        "4lftx"@.len() == 5 && "4lftx"@[0] == '4' && "4lftx"@[1] == 'l' && "4lftx"@[2] == 'f' && "4lftx"@[3] == 't' && "4lftx"@[4] == 'x',
        "lfc"@.len() == 3 && "lfc"@[0] == 'l' && "lfc"@[1] == 'f' && "lfc"@[2] == 'c',
        "el"@.len() == 2 && "el"@[0] == 'e' && "el"@[1] == 'l',
        "lcl"@.len() == 3 && "lcl"@[0] == 'l' && "lcl"@[1] == 'c' && "lcl"@[2] == 'l',
        "srh3km"@.len() == 6 && "srh3km"@[0] == 's' && "srh3km"@[1] == 'r' && "srh3km"@[2] == 'h' && "srh3km"@[3] == '3' && "srh3km"@[4] == 'k' && "srh3km"@[5] == 'm',
        "srh1km"@.len() == 6 && "srh1km"@[0] == 's' && "srh1km"@[1] == 'r' && "srh1km"@[2] == 'h' && "srh1km"@[3] == '1' && "srh1km"@[4] == 'k' && "srh1km"@[5] == 'm',
        "efhl"@.len() == 4 && "efhl"@[0] == 'e' && "efhl"@[1] == 'f' && "efhl"@[2] == 'h' && "efhl"@[3] == 'l',
        "cangle"@.len() == 6 && "cangle"@[0] == 'c' && "cangle"@[1] == 'a' && "cangle"@[2] == 'n' && "cangle"@[3] == 'g' && "cangle"@[4] == 'l' && "cangle"@[5] == 'e',
        "ustm"@.len() == 4 && "ustm"@[0] == 'u' && "ustm"@[1] == 's' && "ustm"@[2] == 't' && "ustm"@[3] == 'm',
        "vstm"@.len() == 4 && "vstm"@[0] == 'v' && "vstm"@[1] == 's' && "vstm"@[2] == 't' && "vstm"@[3] == 'm',
        "uh25"@.len() == 4 && "uh25"@[0] == 'u' && "uh25"@[1] == 'h' && "uh25"@[2] == '2' && "uh25"@[3] == '5',
        "uh02"@.len() == 4 && "uh02"@[0] == 'u' && "uh02"@[1] == 'h' && "uh02"@[2] == '0' && "uh02"@[3] == '2',
        "uh03"@.len() == 4 && "uh03"@[0] == 'u' && "uh03"@[1] == 'h' && "uh03"@[2] == '0' && "uh03"@[3] == '3',
        "mnuh02"@.len() == 6 && "mnuh02"@[0] == 'm' && "mnuh02"@[1] == 'n' && "mnuh02"@[2] == 'u' && "mnuh02"@[3] == 'h' && "mnuh02"@[4] == '0' && "mnuh02"@[5] == '2',
        "maxuvv"@.len() == 6 && "maxuvv"@[0] == 'm' && "maxuvv"@[1] == 'a' && "maxuvv"@[2] == 'x' && "maxuvv"@[3] == 'u' && "maxuvv"@[4] == 'v' && "maxuvv"@[5] == 'v',
        "maxdvv"@.len() == 6 && "maxdvv"@[0] == 'm' && "maxdvv"@[1] == 'a' && "maxdvv"@[2] == 'x' && "maxdvv"@[3] == 'd' && "maxdvv"@[4] == 'v' && "maxdvv"@[5] == 'v',
        "relv2km"@.len() == 7 && "relv2km"@[0] == 'r' && "relv2km"@[1] == 'e' && "relv2km"@[2] == 'l' && "relv2km"@[3] == 'v' && "relv2km"@[4] == '2' && "relv2km"@[5] == 'k' && "relv2km"@[6] == 'm',
        "relv1km"@.len() == 7 && "relv1km"@[0] == 'r' && "relv1km"@[1] == 'e' && "relv1km"@[2] == 'l' && "relv1km"@[3] == 'v' && "relv1km"@[4] == '1' && "relv1km"@[5] == 'k' && "relv1km"@[6] == 'm',
        "hail"@.len() == 4 && "hail"@[0] == 'h' && "hail"@[1] == 'a' && "hail"@[2] == 'i' && "hail"@[3] == 'l',
        "hailsfc"@.len() == 7 && "hailsfc"@[0] == 'h' && "hailsfc"@[1] == 'a' && "hailsfc"@[2] == 'i' && "hailsfc"@[3] == 'l' && "hailsfc"@[4] == 's' && "hailsfc"@[5] == 'f' && "hailsfc"@[6] == 'c',
        "ltng"@.len() == 4 && "ltng"@[0] == 'l' && "ltng"@[1] == 't' && "ltng"@[2] == 'n' && "ltng"@[3] == 'g',
        "graupel"@.len() == 7 && "graupel"@[0] == 'g' && "graupel"@[1] == 'r' && "graupel"@[2] == 'a' && "graupel"@[3] == 'u' && "graupel"@[4] == 'p' && "graupel"@[5] == 'e' && "graupel"@[6] == 'l',
        "pwat"@.len() == 4 && "pwat"@[0] == 'p' && "pwat"@[1] == 'w' && "pwat"@[2] == 'a' && "pwat"@[3] == 't',
        "precip"@.len() == 6 && "precip"@[0] == 'p' && "precip"@[1] == 'r' && "precip"@[2] == 'e' && "precip"@[3] == 'c' && "precip"@[4] == 'i' && "precip"@[5] == 'p',
        "apcp"@.len() == 4 && "apcp"@[0] == 'a' && "apcp"@[1] == 'p' && "apcp"@[2] == 'c' && "apcp"@[3] == 'p',
        "cpofp"@.len() == 5 && "cpofp"@[0] == 'c' && "cpofp"@[1] == 'p' && "cpofp"@[2] == 'o' && "cpofp"@[3] == 'f' && "cpofp"@[4] == 'p',
        "h500"@.len() == 4 && "h500"@[0] == 'h' && "h500"@[1] == '5' && "h500"@[2] == '0' && "h500"@[3] == '0',
        "t500"@.len() == 4 && "t500"@[0] == 't' && "t500"@[1] == '5' && "t500"@[2] == '0' && "t500"@[3] == '0',
        "h700"@.len() == 4 && "h700"@[0] == 'h' && "h700"@[1] == '7' && "h700"@[2] == '0' && "h700"@[3] == '0',
        "t700"@.len() == 4 && "t700"@[0] == 't' && "t700"@[1] == '7' && "t700"@[2] == '0' && "t700"@[3] == '0',
        "h850"@.len() == 4 && "h850"@[0] == 'h' && "h850"@[1] == '8' && "h850"@[2] == '5' && "h850"@[3] == '0',
        "t850"@.len() == 4 && "t850"@[0] == 't' && "t850"@[1] == '8' && "t850"@[2] == '5' && "t850"@[3] == '0',
        "td850"@.len() == 5 && "td850"@[0] == 't' && "td850"@[1] == 'd' && "td850"@[2] == '8' && "td850"@[3] == '5' && "td850"@[4] == '0',
        "wind250"@.len() == 7 && "wind250"@[0] == 'w' && "wind250"@[1] == 'i' && "wind250"@[2] == 'n' && "wind250"@[3] == 'd' && "wind250"@[4] == '2' && "wind250"@[5] == '5' && "wind250"@[6] == '0',
        "pblh"@.len() == 4 && "pblh"@[0] == 'p' && "pblh"@[1] == 'b' && "pblh"@[2] == 'l' && "pblh"@[3] == 'h',
        "tcc"@.len() == 3 && "tcc"@[0] == 't' && "tcc"@[1] == 'c' && "tcc"@[2] == 'c',
        "ceil"@.len() == 4 && "ceil"@[0] == 'c' && "ceil"@[1] == 'e' && "ceil"@[2] == 'i' && "ceil"@[3] == 'l',
        "esp"@.len() == 3 && "esp"@[0] == 'e' && "esp"@[1] == 's' && "esp"@[2] == 'p',
        "fzlev"@.len() == 5 && "fzlev"@[0] == 'f' && "fzlev"@[1] == 'z' && "fzlev"@[2] == 'l' && "fzlev"@[3] == 'e' && "fzlev"@[4] == 'v',
        "wind80m"@.len() == 7 && "wind80m"@[0] == 'w' && "wind80m"@[1] == 'i' && "wind80m"@[2] == 'n' && "wind80m"@[3] == 'd' && "wind80m"@[4] == '8' && "wind80m"@[5] == '0' && "wind80m"@[6] == 'm',
        "stp"@.len() == 3 && "stp"@[0] == 's' && "stp"@[1] == 't' && "stp"@[2] == 'p',
        "scp"@.len() == 3 && "scp"@[0] == 's' && "scp"@[1] == 'c' && "scp"@[2] == 'p',
        "ship"@.len() == 4 && "ship"@[0] == 's' && "ship"@[1] == 'h' && "ship"@[2] == 'i' && "ship"@[3] == 'p',
        "shr01"@.len() == 5 && "shr01"@[0] == 's' && "shr01"@[1] == 'h' && "shr01"@[2] == 'r' && "shr01"@[3] == '0' && "shr01"@[4] == '1',
        "shr06"@.len() == 5 && "shr06"@[0] == 's' && "shr06"@[1] == 'h' && "shr06"@[2] == 'r' && "shr06"@[3] == '0' && "shr06"@[4] == '6',
        "ebs"@.len() == 3 && "ebs"@[0] == 'e' && "ebs"@[1] == 'b' && "ebs"@[2] == 's',
{
    reveal_strlit("temp2m");
    reveal_strlit("dewp2m");
    reveal_strlit("rh2m");
    reveal_strlit("wind10m");
    reveal_strlit("gust");
    reveal_strlit("vis");
    reveal_strlit("mslp");
    reveal_strlit("sfct");
    reveal_strlit("ref");
    reveal_strlit("ref1km");
    reveal_strlit("ref4km");
    reveal_strlit("retop");
    reveal_strlit("vil");
    reveal_strlit("maxref");
    reveal_strlit("cape");
    reveal_strlit("sbcape");
    reveal_strlit("sbcin");
    reveal_strlit("mlcape");
    reveal_strlit("mlcin");
    reveal_strlit("mucape");
    reveal_strlit("mucin");
    reveal_strlit("cape03");
    reveal_strlit("lftx");
    reveal_strlit("4lftx");
    reveal_strlit("lfc");
    reveal_strlit("el");
    reveal_strlit("lcl");
    reveal_strlit("srh3km");
    reveal_strlit("srh1km");
    reveal_strlit("efhl");
    reveal_strlit("cangle");
    reveal_strlit("ustm");
    reveal_strlit("vstm");
    reveal_strlit("uh25");
    reveal_strlit("uh02");
    reveal_strlit("uh03");
    reveal_strlit("mnuh02");
    reveal_strlit("maxuvv");
    reveal_strlit("maxdvv");
    reveal_strlit("relv2km");
    reveal_strlit("relv1km");
    reveal_strlit("hail");
    reveal_strlit("hailsfc");
    reveal_strlit("ltng");
    reveal_strlit("graupel");
    reveal_strlit("pwat");
    reveal_strlit("precip");
    reveal_strlit("apcp");
    reveal_strlit("cpofp");
    reveal_strlit("h500");
    reveal_strlit("t500");
    reveal_strlit("h700");
    reveal_strlit("t700");
    reveal_strlit("h850");
    reveal_strlit("t850");
    reveal_strlit("td850");
    reveal_strlit("wind250");
    reveal_strlit("pblh");
    reveal_strlit("tcc");
    reveal_strlit("ceil");
    reveal_strlit("esp");
    reveal_strlit("fzlev");
    reveal_strlit("wind80m");
    reveal_strlit("stp");
    reveal_strlit("scp");
    reveal_strlit("ship");
    reveal_strlit("shr01");
    reveal_strlit("shr06");
    reveal_strlit("ebs");
}

proof fn lemma_table_names_0()
    ensures
        forall|i: int| 0 <= i < 16 ==> #[trigger] table_rank(field_table()[i].name@) == i && field_facts(field_table()[i]),
{
    lemma_name_letters();
    assert forall|i: int| 0 <= i < 16 implies #[trigger] table_rank(field_table()[i].name@) == i && field_facts(field_table()[i]) by {
        if i == 0 {
            assert(field_table()[0].name@ == "temp2m"@);
        } else if i == 1 {
            assert(field_table()[1].name@ == "dewp2m"@);
        } else if i == 2 {
            assert(field_table()[2].name@ == "rh2m"@);
        } else if i == 3 {
            assert(field_table()[3].name@ == "wind10m"@);
        } else if i == 4 {
            assert(field_table()[4].name@ == "gust"@);
        } else if i == 5 {
            assert(field_table()[5].name@ == "vis"@);
        } else if i == 6 {
            assert(field_table()[6].name@ == "mslp"@);
        } else if i == 7 {
            assert(field_table()[7].name@ == "sfct"@);
        } else if i == 8 {
            assert(field_table()[8].name@ == "ref"@);
        } else if i == 9 {
            assert(field_table()[9].name@ == "ref1km"@);
        } else if i == 10 {
            assert(field_table()[10].name@ == "ref4km"@);
        } else if i == 11 {
            assert(field_table()[11].name@ == "retop"@);
        } else if i == 12 {
            assert(field_table()[12].name@ == "vil"@);
        } else if i == 13 {
            assert(field_table()[13].name@ == "maxref"@);
        } else if i == 14 {
            assert(field_table()[14].name@ == "cape"@);
        } else if i == 15 {
            assert(field_table()[15].name@ == "sbcape"@);
        }
    }
}

proof fn lemma_table_names_16()
    ensures
        forall|i: int| 16 <= i < 32 ==> #[trigger] table_rank(field_table()[i].name@) == i && field_facts(field_table()[i]),
{
    lemma_name_letters();
    assert forall|i: int| 16 <= i < 32 implies #[trigger] table_rank(field_table()[i].name@) == i && field_facts(field_table()[i]) by {
        if i == 16 {
            assert(field_table()[16].name@ == "sbcin"@);
        } else if i == 17 {
            assert(field_table()[17].name@ == "mlcape"@);
        } else if i == 18 {
            assert(field_table()[18].name@ == "mlcin"@);
        } else if i == 19 {
            assert(field_table()[19].name@ == "mucape"@);
        } else if i == 20 {
            assert(field_table()[20].name@ == "mucin"@);
        } else if i == 21 {
            assert(field_table()[21].name@ == "cape03"@);
        } else if i == 22 {
            assert(field_table()[22].name@ == "lftx"@);
        } else if i == 23 {
            assert(field_table()[23].name@ == "4lftx"@);
        } else if i == 24 {
            assert(field_table()[24].name@ == "lfc"@);
        } else if i == 25 {
            assert(field_table()[25].name@ == "el"@);
        } else if i == 26 {
            assert(field_table()[26].name@ == "lcl"@);
        } else if i == 27 {
            assert(field_table()[27].name@ == "srh3km"@);
        } else if i == 28 {
            assert(field_table()[28].name@ == "srh1km"@);
        } else if i == 29 {
            assert(field_table()[29].name@ == "efhl"@);
        } else if i == 30 {
            assert(field_table()[30].name@ == "cangle"@);
        } else if i == 31 {
            assert(field_table()[31].name@ == "ustm"@);
        }
    }
}

proof fn lemma_table_names_32()
    ensures
        forall|i: int| 32 <= i < 48 ==> #[trigger] table_rank(field_table()[i].name@) == i && field_facts(field_table()[i]),
{
    lemma_name_letters();
    assert forall|i: int| 32 <= i < 48 implies #[trigger] table_rank(field_table()[i].name@) == i && field_facts(field_table()[i]) by {
        if i == 32 {
            assert(field_table()[32].name@ == "vstm"@);
        } else if i == 33 {
            assert(field_table()[33].name@ == "uh25"@);
        } else if i == 34 {
            assert(field_table()[34].name@ == "uh02"@);
        } else if i == 35 {
            assert(field_table()[35].name@ == "uh03"@);
        } else if i == 36 {
            assert(field_table()[36].name@ == "mnuh02"@);
        } else if i == 37 {
            assert(field_table()[37].name@ == "maxuvv"@);
        } else if i == 38 {
            assert(field_table()[38].name@ == "maxdvv"@);
        } else if i == 39 {
            assert(field_table()[39].name@ == "relv2km"@);
        } else if i == 40 {
            assert(field_table()[40].name@ == "relv1km"@);
        } else if i == 41 {
            assert(field_table()[41].name@ == "hail"@);
        } else if i == 42 {
            assert(field_table()[42].name@ == "hailsfc"@);
        } else if i == 43 {
            assert(field_table()[43].name@ == "ltng"@);
        } else if i == 44 {
            assert(field_table()[44].name@ == "graupel"@);
        } else if i == 45 {
            assert(field_table()[45].name@ == "pwat"@);
        } else if i == 46 {
            assert(field_table()[46].name@ == "precip"@);
        } else if i == 47 {
            assert(field_table()[47].name@ == "apcp"@);
        }
    }
}

proof fn lemma_table_names_48()
    ensures
        forall|i: int| 48 <= i < 63 ==> #[trigger] table_rank(field_table()[i].name@) == i && field_facts(field_table()[i]),
{
    lemma_name_letters();
    assert forall|i: int| 48 <= i < 63 implies #[trigger] table_rank(field_table()[i].name@) == i && field_facts(field_table()[i]) by {
        if i == 48 {
            assert(field_table()[48].name@ == "cpofp"@);
        } else if i == 49 {
            assert(field_table()[49].name@ == "h500"@);
        } else if i == 50 {
            assert(field_table()[50].name@ == "t500"@);
        } else if i == 51 {
            assert(field_table()[51].name@ == "h700"@);
        } else if i == 52 {
            assert(field_table()[52].name@ == "t700"@);
        } else if i == 53 {
            assert(field_table()[53].name@ == "h850"@);
        } else if i == 54 {
            assert(field_table()[54].name@ == "t850"@);
        } else if i == 55 {
            assert(field_table()[55].name@ == "td850"@);
        } else if i == 56 {
            assert(field_table()[56].name@ == "wind250"@);
        } else if i == 57 {
            assert(field_table()[57].name@ == "pblh"@);
        } else if i == 58 {
            assert(field_table()[58].name@ == "tcc"@);
        } else if i == 59 {
            assert(field_table()[59].name@ == "ceil"@);
        } else if i == 60 {
            assert(field_table()[60].name@ == "esp"@);
        } else if i == 61 {
            assert(field_table()[61].name@ == "fzlev"@);
        } else if i == 62 {
            assert(field_table()[62].name@ == "wind80m"@);
        }
    }
}

proof fn lemma_table_names()
    ensures
        field_table().len() == 63,
        forall|i: int|
            0 <= i < field_table().len() ==> #[trigger] table_rank(field_table()[i].name@) == i && field_facts(
                field_table()[i],
            ),
{
    lemma_table_names_0();
    lemma_table_names_16();
    lemma_table_names_32();
    lemma_table_names_48();
}

/// Field names are distinct and none is a composite name, so looking up the
/// name of any field of the table finds that field.
pub proof fn law_field_names_distinct()
    ensures
        forall|i: int, j: int|
            0 <= i < j < field_table().len() ==> #[trigger] field_table()[i].name@ != #[trigger] field_table()[j].name@,
        forall|i: int| 0 <= i < field_table().len() ==> !composite_name(#[trigger] field_table()[i].name@),
        forall|i: int|
            0 <= i < field_table().len() ==> find_field(field_table(), #[trigger] field_table()[i].name@) == Some(
                field_table()[i],
            ),
{
    lemma_table_names();
    let t = field_table();
    assert forall|i: int| 0 <= i < t.len() implies find_field(t, #[trigger] t[i].name@) == Some(t[i]) by {
        law_lookup_finds_listed(t, t[i].name@);
        let f = find_field(t, t[i].name@)->0;
        let k = choose|k: int| 0 <= k < t.len() && t[k] == f;
        assert(table_rank(t[k].name@) == k);
        assert(table_rank(t[i].name@) == i);
    }
    assert forall|i: int| 0 <= i < t.len() implies !composite_name(#[trigger] t[i].name@) by {
        assert(table_rank(t[i].name@) == i);
    }
}

/// The Fahrenheit display flag is set on exactly the fields whose values are
/// converted from Kelvin to Fahrenheit.
pub proof fn law_fahrenheit_flag_matches_conversion()
    ensures
        forall|i: int|
            0 <= i < field_table().len() ==> ((#[trigger] field_table()[i]).kelvin_to_fahrenheit
                <==> spec_conversion_for(field_table()[i].name@) == UnitConversion::KelvinToFahrenheit),
{
    lemma_table_names();
    let t = field_table();
    assert forall|i: int| 0 <= i < t.len() implies ((#[trigger] t[i]).kelvin_to_fahrenheit
        <==> spec_conversion_for(t[i].name@) == UnitConversion::KelvinToFahrenheit) by {
        assert(table_rank(t[i].name@) == i);
    }
}

/// Each field is fetched under the GRIB2 abbreviation of its parameter: its
/// `.idx` name is the abbreviation that the parameter table gives for its
/// discipline, category and number (where the table knows it; `maxref` aside).
pub proof fn law_idx_names_match_parameters()
    ensures
        forall|i: int| 0 <= i < field_table().len() ==> idx_name_agrees(#[trigger] field_table()[i]),
{
    lemma_table_names();
    let t = field_table();
    assert forall|i: int| 0 <= i < t.len() implies idx_name_agrees(#[trigger] t[i]) by {
        assert(table_rank(t[i].name@) == i);
    }
}

} // verus!

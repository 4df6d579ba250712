//! Colour tables for HRRR weather fields: which table a field uses, and the
//! fixed colours of the map.

use crate::text::str_equal;
use vstd::prelude::*;

verus! {

/// RGBA colour as (r, g, b, a) bytes.
pub type Color = [u8; 4];

/// The colour tables that map a normalised value to a colour.
#[derive(Debug, Clone, Copy, PartialEq, Eq, Structural)]
pub enum ColorTable {
    /// Blue-cyan-green-yellow-red, cold to hot.
    Temperature,
    /// Brown-green, dry to moist.
    Dewpoint,
    /// NWS-style radar reflectivity steps.
    Reflectivity,
    /// White-yellow-orange-red-magenta.
    Cape,
    /// Calm blue through purple.
    Wind,
    /// Red (low visibility) to green.
    Visibility,
    /// Precipitation rate, transparent when none.
    Precipitation,
    /// Blue trough to red ridge.
    Height,
}

/// The colour table of the field called `name`.
pub open spec fn spec_color_table_for(name: Seq<char>) -> ColorTable {
    if name == "dewp2m"@ {
        ColorTable::Dewpoint
    } else if name == "ref"@ {
        ColorTable::Reflectivity
    } else if name == "cape"@ {
        ColorTable::Cape
    } else if name == "wind10m"@ {
        ColorTable::Wind
    } else if name == "vis"@ {
        ColorTable::Visibility
    } else if name == "precip"@ {
        ColorTable::Precipitation
    } else if name == "h500"@ {
        ColorTable::Height
    } else {
        ColorTable::Temperature
    }
}

/// The colour table used for a field name; fields without a table of their
/// own use the temperature table.
pub fn color_table_for(field_name: &str) -> (r: ColorTable)
    ensures
        r == spec_color_table_for(field_name@),
{
    let name = field_name;
    if str_equal(name, "dewp2m") {
        ColorTable::Dewpoint
    } else if str_equal(name, "ref") {
        ColorTable::Reflectivity
    } else if str_equal(name, "cape") {
        ColorTable::Cape
    } else if str_equal(name, "wind10m") {
        ColorTable::Wind
    } else if str_equal(name, "vis") {
        ColorTable::Visibility
    } else if str_equal(name, "precip") {
        ColorTable::Precipitation
    } else if str_equal(name, "h500") {
        ColorTable::Height
    } else {
        ColorTable::Temperature
    }
}

/// Whether the field called `name` is drawn with height contour lines.
pub fn has_height_contours(name: &str) -> (r: bool)
    ensures
        r == (name@ == "h500"@),
{
    str_equal(name, "h500")
}

/// Whether fully transparent colours of the field called `name` leave the
/// base map visible (no echo, no precipitation).
pub fn shows_base_map_when_clear(name: &str) -> (r: bool)
    ensures
        r == (name@ == "ref"@ || name@ == "precip"@),
{
    str_equal(name, "ref") || str_equal(name, "precip")
}

/// Background colour for pixels with no data (ocean, outside domain).
pub fn background_color() -> (r: Color)
    ensures
        r@ == seq![20u8, 20, 30, 255],
{
    [20, 20, 30, 255]
}

/// Border colour for state/country lines.
pub fn border_color() -> (r: Color)
    ensures
        r@ == seq![80u8, 80, 80, 255],
{
    [80, 80, 80, 255]
}

/// Text and legend colour.
pub fn text_color() -> (r: Color)
    ensures
        r@ == seq![220u8, 220, 220, 255],
{
    [220, 220, 220, 255]
}

/// The fields the program is built around: 2 m temperature, 2 m dewpoint,
/// 10 m wind speed, composite reflectivity, CAPE, visibility, precipitation
/// rate and 500 mb height.
pub open spec fn featured_fields() -> Seq<Seq<char>> {
    seq!["temp2m"@, "dewp2m"@, "wind10m"@, "ref"@, "cape"@, "vis"@, "precip"@, "h500"@]
}

/// Each featured field has a colour table of its own: no two of them share
/// one, so with eight tables every table belongs to exactly one of them.
pub proof fn law_featured_fields_have_distinct_tables()
    ensures
        forall|i: int, j: int|
            0 <= i < j < featured_fields().len() ==> spec_color_table_for(#[trigger] featured_fields()[i])
                != spec_color_table_for(#[trigger] featured_fields()[j]),
{
    reveal_strlit("temp2m");
    reveal_strlit("dewp2m");
    reveal_strlit("wind10m");
    reveal_strlit("ref");
    reveal_strlit("cape");
    reveal_strlit("vis");
    reveal_strlit("precip");
    reveal_strlit("h500");
    assert("temp2m"@.len() == 6 && "temp2m"@[0] == 't' && "temp2m"@[1] == 'e' && "temp2m"@[2] == 'm' && "temp2m"@[3] == 'p' && "temp2m"@[4] == '2' && "temp2m"@[5] == 'm');
    assert("dewp2m"@.len() == 6 && "dewp2m"@[0] == 'd' && "dewp2m"@[1] == 'e' && "dewp2m"@[2] == 'w' && "dewp2m"@[3] == 'p' && "dewp2m"@[4] == '2' && "dewp2m"@[5] == 'm');
    assert("wind10m"@.len() == 7 && "wind10m"@[0] == 'w' && "wind10m"@[1] == 'i' && "wind10m"@[2] == 'n' && "wind10m"@[3] == 'd' && "wind10m"@[4] == '1' && "wind10m"@[5] == '0' && "wind10m"@[6] == 'm');
    assert("ref"@.len() == 3 && "ref"@[0] == 'r' && "ref"@[1] == 'e' && "ref"@[2] == 'f');
    assert("cape"@.len() == 4 && "cape"@[0] == 'c' && "cape"@[1] == 'a' && "cape"@[2] == 'p' && "cape"@[3] == 'e');
    assert("vis"@.len() == 3 && "vis"@[0] == 'v' && "vis"@[1] == 'i' && "vis"@[2] == 's');
    assert("precip"@.len() == 6 && "precip"@[0] == 'p' && "precip"@[1] == 'r' && "precip"@[2] == 'e' && "precip"@[3] == 'c' && "precip"@[4] == 'i' && "precip"@[5] == 'p');
    assert("h500"@.len() == 4 && "h500"@[0] == 'h' && "h500"@[1] == '5' && "h500"@[2] == '0' && "h500"@[3] == '0');
    let f = featured_fields();
    assert(spec_color_table_for(f[0]) == ColorTable::Temperature);
    assert(spec_color_table_for(f[1]) == ColorTable::Dewpoint);
    assert(spec_color_table_for(f[2]) == ColorTable::Wind);
    assert(spec_color_table_for(f[3]) == ColorTable::Reflectivity);
    assert(spec_color_table_for(f[4]) == ColorTable::Cape);
    assert(spec_color_table_for(f[5]) == ColorTable::Visibility);
    assert(spec_color_table_for(f[6]) == ColorTable::Precipitation);
    assert(spec_color_table_for(f[7]) == ColorTable::Height);
}

} // verus!

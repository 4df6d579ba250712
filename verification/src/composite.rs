//! Composite (derived) fields, computed from several GRIB2 fields.

use crate::text::str_equal;
use vstd::prelude::*;

verus! {

/// The composite field names: STP, SCP, SHIP, 0-1 km and 0-6 km bulk shear,
/// and effective bulk shear.
pub open spec fn composite_name(name: Seq<char>) -> bool {
    name == "stp"@ || name == "scp"@ || name == "ship"@ || name == "shr01"@ || name == "shr06"@
        || name == "ebs"@
}

/// Whether a field name is a composite that needs several fields fetched.
pub fn is_composite(name: &str) -> (r: bool)
    ensures
        r == composite_name(name@),
{
    str_equal(name, "stp") || str_equal(name, "scp") || str_equal(name, "ship") || str_equal(
        name,
        "shr01",
    ) || str_equal(name, "shr06") || str_equal(name, "ebs")
}

} // verus!

//! The value a successful acquisition produces.

use vstd::prelude::*;

verus! {

/// A geographic fix, stored in integer microdegrees: one microdegree is
/// one millionth of a degree, so `12_340_000` stands for 12.34 degrees.
/// Created once per successful provider callback and never mutated.
#[derive(Clone, Copy, Debug, PartialEq, Eq, Structural)]
pub struct LocationFix {
    pub latitude_udeg: i64,
    pub longitude_udeg: i64,
}

impl LocationFix {
    pub fn new(latitude_udeg: i64, longitude_udeg: i64) -> (fix: Self)
        ensures
            fix == (LocationFix { latitude_udeg, longitude_udeg }),
    {
        LocationFix { latitude_udeg, longitude_udeg }
    }
}

} // verus!

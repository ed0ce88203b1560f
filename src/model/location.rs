//! Where the local data is for.
use vstd::prelude::*;

verus! {

/// The place that a postcode lookup resolved.
#[derive(Clone, Debug, PartialEq, Eq)]
pub struct Location {
    pub coordinate: Coordinate,
    pub outcode: String,
    pub admin_district: String,
}

/// A position on the earth, in millionths of a degree.
#[derive(Clone, Copy, Debug, PartialEq, Eq)]
pub struct Coordinate {
    pub latitude: i64,
    pub longitude: i64,
}

} // verus!

//! The device location request and its answer.
use vstd::prelude::*;

verus! {

/// A position on the earth, in millionths of a degree.
#[derive(Clone, Copy, Debug, PartialEq, Eq)]
pub struct Coordinate {
    pub latitude: i64,
    pub longitude: i64,
}

/// Asks the host for the device location.
#[derive(Clone, Debug, PartialEq, Eq)]
pub struct LocationRequest;

/// The device location, where the host has one.
#[derive(Clone, Debug, PartialEq, Eq)]
pub struct LocationResponse {
    pub location: Option<Coordinate>,
}

} // verus!

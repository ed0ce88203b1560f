//! The current time request and its answer.
use vstd::prelude::*;

verus! {

/// Asks the host for the current time.
#[derive(Clone, Debug, PartialEq, Eq)]
pub struct TimeRequest;

/// The current time as RFC 3339 text, such as `2023-07-06T20:30:00Z`.
#[derive(Clone, Debug, PartialEq, Eq)]
pub struct TimeResponse(pub String);

} // verus!

//! The national intensity request and its answer.
use super::intensity::{Period, INTENSITY_API};
use crate::time::{minute_text, Instant};
use vstd::prelude::*;

verus! {

/// Address of the national intensity forecast for the 24 hours from `from`.
pub open spec fn url_text(from: Instant) -> Seq<char> {
    INTENSITY_API@ + "/intensity/"@ + minute_text(from.spec_secs()) + "Z/fw24h"@
}

/// Builds `url_text(*from)`.
pub fn url(from: &Instant) -> (r: String)
    ensures
        r@ == url_text(*from),
{
    let mut s = String::from_str(INTENSITY_API);
    s.append("/intensity/");
    let stamp = from.minute_text();
    s.append(stamp.as_str());
    s.append("Z/fw24h");
    s
}

/// The periods of a national intensity answer.
#[derive(Clone, Debug, PartialEq)]
pub struct NationalResponse {
    pub data: Vec<Period>,
}

} // verus!

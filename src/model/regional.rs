//! The regional intensity request and its answer.
use super::intensity::{Period, INTENSITY_API};
use crate::time::{minute_text, Instant};
use vstd::prelude::*;

verus! {

/// Address of the intensity forecast for the 24 hours from `from` in the
/// region of `outcode`.
pub open spec fn url_text(from: Instant, outcode: Seq<char>) -> Seq<char> {
    INTENSITY_API@ + "/regional/intensity/"@ + minute_text(from.spec_secs()) + "Z/fw24h/postcode/"@
        + outcode
}

/// Builds `url_text(*from, outcode@)`.
pub fn url(from: &Instant, outcode: &str) -> (r: String)
    ensures
        r@ == url_text(*from, outcode@),
{
    let mut s = String::from_str(INTENSITY_API);
    s.append("/regional/intensity/");
    let stamp = from.minute_text();
    s.append(stamp.as_str());
    s.append("Z/fw24h/postcode/");
    s.append(outcode);
    s
}

/// A regional intensity answer.
#[derive(Clone, Debug, PartialEq)]
pub struct RegionalResponse {
    pub data: Region,
}

/// A region and its periods.
#[derive(Clone, Debug, PartialEq)]
pub struct Region {
    pub region_id: i64,
    pub dno_region: String,
    pub shortname: String,
    pub postcode: String,
    pub data: Vec<Period>,
}

} // verus!

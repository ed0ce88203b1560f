//! The national generation mix request and its answer.
use super::intensity::{Period, INTENSITY_API};
use crate::time::{minute_text, Instant, MAX_TIMESTAMP, SECS_PER_DAY};
use vstd::prelude::*;

verus! {

broadcast use crate::time::Instant::lemma_spec_new;

/// Address of the national generation mix from second `from` to second `to`.
pub open spec fn url_text(from: i64, to: i64) -> Seq<char> {
    INTENSITY_API@ + "/generation/"@ + minute_text(from) + "Z/"@ + minute_text(to) + "Z"@
}

/// Builds the address of the generation mix for the 24 hours from `from`;
/// nothing where the end of that window cannot be represented.
pub fn url(from: &Instant) -> (r: Option<String>)
    ensures
        r is Some <==> from.spec_secs() + SECS_PER_DAY <= MAX_TIMESTAMP,
        r is Some ==> r->0@ == url_text(from.spec_secs(), (from.spec_secs() + SECS_PER_DAY) as i64),
{
    match from.next_day() {
        Some(to) => {
            let mut s = String::from_str(INTENSITY_API);
            s.append("/generation/");
            let start = from.minute_text();
            s.append(start.as_str());
            s.append("Z/");
            let end = to.minute_text();
            s.append(end.as_str());
            s.append("Z");
            Some(s)
        },
        None => None,
    }
}

/// The periods of a national generation mix answer.
#[derive(Clone, Debug, PartialEq)]
pub struct NationalMixResponse {
    pub data: Vec<Period>,
}

} // verus!

//! Periods of carbon intensity and generation mix.
use crate::time::{minute_utc_parts, parsed_instant, Instant};
use vstd::prelude::*;

verus! {

/// Base address of the carbon intensity service.
pub const INTENSITY_API: &'static str = "https://api.carbonintensity.org.uk";

/// A half-hour window with its intensity reading and its generation mix.
#[derive(Clone, Debug, PartialEq)]
pub struct Period {
    pub from: Instant,
    pub to: Instant,
    pub intensity: Option<Intensity>,
    pub generation_mix: Option<Vec<GenerationMix>>,
}

/// Forecast and, once known, actual intensity in gCO2/kWh, with its band.
#[derive(Clone, Debug, PartialEq, Eq)]
pub struct Intensity {
    pub forecast: i32,
    pub actual: Option<i32>,
    pub index: String,
}

/// The share of one fuel in the generation mix, in tenths of a percent.
#[derive(Clone, Debug, PartialEq, Eq)]
pub struct GenerationMix {
    pub fuel: String,
    pub percentage: u32,
}

/// Reads a period boundary such as `2023-07-04T23:30Z`: a UTC minute and a
/// zone name.
pub fn period_date_time_deserialize(s: &str) -> (r: Option<Instant>)
    ensures
        r == parsed_instant(minute_utc_parts(s@)),
{
    Instant::parse_minute_utc(s)
}

} // verus!

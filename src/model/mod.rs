//! The application state: per-scope cached data and the current time.
use crate::time::Instant;
use vstd::prelude::*;

use self::intensity::Period;
use self::location::Location;

pub mod factors;
pub mod global;
pub mod intensity;
pub mod location;
pub mod national_intensity;
pub mod national_mix;
pub mod postcode;
pub mod regional;

verus! {

/// Which scope the user asked for last.
#[derive(Clone, Copy, Debug, PartialEq, Eq)]
pub enum Mode {
    National,
    Local,
}

impl Default for Mode {
    fn default() -> (r: Mode)
        ensures
            r == Mode::National,
    {
        Mode::National
    }
}

/// Scope-specific data of either kind.
#[derive(Clone, Debug, PartialEq)]
pub enum Scope {
    Unset,
    National(National),
    Local(Local),
}

/// The scope-specific part of a cached dataset.
pub trait DataSet {

}

/// National metadata: the generation mix series.
#[derive(Clone, Debug, PartialEq)]
pub struct National {
    pub generation_mix: Vec<Period>,
}

impl DataSet for National {

}

/// Local metadata: the resolved place, once a postcode lookup succeeded.
#[derive(Clone, Debug, PartialEq)]
pub struct Local {
    pub location: Option<Location>,
}

impl DataSet for Local {

}

/// A cached dataset: its periods, when they were fetched, and its metadata.
#[derive(Clone, Debug, PartialEq)]
pub struct Data<T: DataSet> {
    pub scope: T,
    pub periods: Vec<Period>,
    pub last_updated: Instant,
}

/// The whole application state.
#[derive(Clone, Debug, PartialEq)]
pub struct Model {
    pub time: Instant,
    pub mode: Mode,
    pub national: Data<National>,
    pub local: Data<Local>,
}

/// Whether `m` is the state that the application starts in: both datasets
/// empty and refreshed at the epoch, no location, the clock at the epoch.
pub open spec fn is_initial(m: Model) -> bool {
    &&& m.time == Instant::spec_new(0, 0)
    &&& m.mode == Mode::National
    &&& m.national.scope.generation_mix@.len() == 0
    &&& m.national.periods@.len() == 0
    &&& m.national.last_updated == Instant::spec_new(0, 0)
    &&& m.local.scope.location is None
    &&& m.local.periods@.len() == 0
    &&& m.local.last_updated == Instant::spec_new(0, 0)
}

impl Default for Model {
    fn default() -> (r: Model)
        ensures
            is_initial(r),
    {
        Model {
            time: Instant::epoch(),
            mode: Mode::National,
            national: Data {
                scope: National { generation_mix: Vec::new() },
                periods: Vec::new(),
                last_updated: Instant::epoch(),
            },
            local: Data {
                scope: Local { location: None },
                periods: Vec::new(),
                last_updated: Instant::epoch(),
            },
        }
    }
}

} // verus!

//! A bare list of periods.
use super::intensity::Period;
use vstd::prelude::*;

verus! {

/// A list of periods.
#[derive(Clone, Debug)]
pub struct Root {
    pub data: Vec<Period>,
}

} // verus!

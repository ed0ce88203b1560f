//! Carbon intensity factors of each kind of generation, in gCO2/kWh.
use vstd::prelude::*;

verus! {

/// A list of factor tables.
#[derive(Clone, Debug, PartialEq, Default)]
pub struct Root {
    pub data: Vec<Factors>,
}

/// The carbon intensity of each kind of generation, in gCO2/kWh.
#[derive(Clone, Debug, PartialEq, Eq, Default)]
pub struct Factors {
    pub biomass: i64,
    pub coal: i64,
    pub dutch_imports: i64,
    pub french_imports: i64,
    pub gas_combined_cycle: i64,
    pub gas_open_cycle: i64,
    pub hydro: i64,
    pub irish_imports: i64,
    pub nuclear: i64,
    pub oil: i64,
    pub other: i64,
    pub pumped_storage: i64,
    pub solar: i64,
    pub wind: i64,
}

impl Factors {
    /// The published factors.
    pub fn new() -> (r: Self)
        ensures
            r.biomass == 120 && r.coal == 937 && r.dutch_imports == 474 && r.french_imports == 53,
            r.gas_combined_cycle == 394 && r.gas_open_cycle == 651 && r.hydro == 0,
            r.irish_imports == 458 && r.nuclear == 0 && r.oil == 935 && r.other == 300,
            r.pumped_storage == 0 && r.solar == 0 && r.wind == 0,
    {
        Self {
            biomass: 120,
            coal: 937,
            dutch_imports: 474,
            french_imports: 53,
            gas_combined_cycle: 394,
            gas_open_cycle: 651,
            hydro: 0,
            irish_imports: 458,
            nuclear: 0,
            oil: 935,
            other: 300,
            pumped_storage: 0,
            solar: 0,
            wind: 0,
        }
    }
}

} // verus!

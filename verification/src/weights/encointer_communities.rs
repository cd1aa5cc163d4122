//! Weights of the community calls of the Encointer parachain.
use vstd::prelude::*;
use crate::weights::weight::{benchmarked, benchmarked_weight, RuntimeDbWeight, Weight};

verus! {

/// Weight functions of the community calls, for a runtime with the given database
/// weight.
#[derive(Clone, Copy, Debug, PartialEq, Eq)]
pub struct WeightInfo {
    pub db: RuntimeDbWeight,
}

impl WeightInfo {
    /// The weight of the `new_community` call.
    pub fn new_community(&self) -> (r: Weight)
        ensures
            r == benchmarked(self.db, 4_992_334_000, 323497, 5, 7),
    {
        benchmarked_weight(self.db, 4_992_334_000, 323497, 5, 7)
    }

    /// The weight of the `add_location` call.
    pub fn add_location(&self) -> (r: Weight)
        ensures
            r == benchmarked(self.db, 4_984_214_000, 323497, 6, 1),
    {
        benchmarked_weight(self.db, 4_984_214_000, 323497, 6, 1)
    }

    /// The weight of the `remove_location` call.
    pub fn remove_location(&self) -> (r: Weight)
        ensures
            r == benchmarked(self.db, 37_850_000, 323497, 3, 1),
    {
        benchmarked_weight(self.db, 37_850_000, 323497, 3, 1)
    }

    /// The weight of the `update_community_metadata` call.
    pub fn update_community_metadata(&self) -> (r: Weight)
        ensures
            r == benchmarked(self.db, 21_220_000, 91487, 1, 1),
    {
        benchmarked_weight(self.db, 21_220_000, 91487, 1, 1)
    }

    /// The weight of the `update_demurrage` call.
    pub fn update_demurrage(&self) -> (r: Weight)
        ensures
            r == benchmarked(self.db, 18_981_000, 91487, 1, 1),
    {
        benchmarked_weight(self.db, 18_981_000, 91487, 1, 1)
    }

    /// The weight of the `update_nominal_income` call.
    pub fn update_nominal_income(&self) -> (r: Weight)
        ensures
            r == benchmarked(self.db, 18_740_000, 91487, 1, 1),
    {
        benchmarked_weight(self.db, 18_740_000, 91487, 1, 1)
    }

    /// The weight of the `set_min_solar_trip_time_s` call.
    pub fn set_min_solar_trip_time_s(&self) -> (r: Weight)
        ensures
            r == benchmarked(self.db, 9_470_000, 0, 0, 1),
    {
        benchmarked_weight(self.db, 9_470_000, 0, 0, 1)
    }

    /// The weight of the `set_max_speed_mps` call.
    pub fn set_max_speed_mps(&self) -> (r: Weight)
        ensures
            r == benchmarked(self.db, 9_391_000, 0, 0, 1),
    {
        benchmarked_weight(self.db, 9_391_000, 0, 0, 1)
    }

    /// The weight of the `purge_community` call.
    pub fn purge_community(&self) -> (r: Weight)
        ensures
            r == benchmarked(self.db, 60_821_000, 646004, 4, 6),
    {
        benchmarked_weight(self.db, 60_821_000, 646004, 4, 6)
    }
}

} // verus!

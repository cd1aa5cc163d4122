//! Weights of the claims calls of the Polkadot relay chain.
use vstd::prelude::*;
use crate::weights::weight::{benchmarked, benchmarked_weight, RuntimeDbWeight, Weight};

verus! {

/// Weight functions of the claims calls, for a runtime with the given database weight.
#[derive(Clone, Copy, Debug, PartialEq, Eq)]
pub struct WeightInfo {
    pub db: RuntimeDbWeight,
}

impl WeightInfo {
    /// The weight of the `claim` call.
    pub fn claim(&self) -> (r: Weight)
        ensures
            r == benchmarked(self.db, 196_681_000, 4764, 8, 6),
    {
        benchmarked_weight(self.db, 196_681_000, 4764, 8, 6)
    }

    /// The weight of the `mint_claim` call.
    pub fn mint_claim(&self) -> (r: Weight)
        ensures
            r == benchmarked(self.db, 14_751_000, 1667, 1, 4),
    {
        benchmarked_weight(self.db, 14_751_000, 1667, 1, 4)
    }

    /// The weight of the `claim_attest` call.
    pub fn claim_attest(&self) -> (r: Weight)
        ensures
            r == benchmarked(self.db, 202_321_000, 4764, 8, 6),
    {
        benchmarked_weight(self.db, 202_321_000, 4764, 8, 6)
    }

    /// The weight of the `attest` call.
    pub fn attest(&self) -> (r: Weight)
        ensures
            r == benchmarked(self.db, 96_440_000, 4764, 9, 7),
    {
        benchmarked_weight(self.db, 96_440_000, 4764, 9, 7)
    }

    /// The weight of the `move_claim` call.
    pub fn move_claim(&self) -> (r: Weight)
        ensures
            r == benchmarked(self.db, 37_110_000, 3871, 4, 7),
    {
        benchmarked_weight(self.db, 37_110_000, 3871, 4, 7)
    }
}

} // verus!

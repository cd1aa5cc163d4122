//! Weights of the child-bounty calls of the Kusama relay chain.
use vstd::prelude::*;
use crate::weights::weight::{
    benchmarked, benchmarked_weight, db_reads, db_writes, law_weight_add_monotone,
    law_weight_mul_monotone, weight_add, weight_le, weight_mul, RuntimeDbWeight, Weight,
};

verus! {

/// The weight of adding a child bounty whose description has `d` bytes: 547
/// picoseconds per byte on top of its base weight and its database accesses.
pub open spec fn add_child_bounty_weight(db: RuntimeDbWeight, d: u32) -> Weight {
    weight_add(
        weight_add(
            weight_add(
                weight_add(
                    Weight { ref_time: 84_606_322, proof_size: 0 },
                    Weight { ref_time: 0, proof_size: 6196 },
                ),
                weight_mul(Weight { ref_time: 547, proof_size: 0 }, d as u64),
            ),
            db_reads(db, 5),
        ),
        db_writes(db, 6),
    )
}

/// A longer description never makes adding a child bounty weigh less.
pub proof fn law_add_child_bounty_monotone(db: RuntimeDbWeight, d1: u32, d2: u32)
    requires
        d1 <= d2,
    ensures
        weight_le(add_child_bounty_weight(db, d1), add_child_bounty_weight(db, d2)),
{
    let base = weight_add(
        Weight { ref_time: 84_606_322, proof_size: 0 },
        Weight { ref_time: 0, proof_size: 6196 },
    );
    let per_byte = Weight { ref_time: 547, proof_size: 0 };
    law_weight_mul_monotone(per_byte, d1 as u64, d2 as u64);
    law_weight_add_monotone(base, base, weight_mul(per_byte, d1 as u64), weight_mul(per_byte, d2 as u64));
    law_weight_add_monotone(
        weight_add(base, weight_mul(per_byte, d1 as u64)),
        weight_add(base, weight_mul(per_byte, d2 as u64)),
        db_reads(db, 5),
        db_reads(db, 5),
    );
    law_weight_add_monotone(
        weight_add(weight_add(base, weight_mul(per_byte, d1 as u64)), db_reads(db, 5)),
        weight_add(weight_add(base, weight_mul(per_byte, d2 as u64)), db_reads(db, 5)),
        db_writes(db, 6),
        db_writes(db, 6),
    );
}

/// Weight functions of the child-bounty calls, for a runtime with the given database
/// weight.
#[derive(Clone, Copy, Debug, PartialEq, Eq)]
pub struct WeightInfo {
    pub db: RuntimeDbWeight,
}

impl WeightInfo {
    /// Adding a child bounty whose description has `d` bytes costs 547 picoseconds per
    /// byte on top of its base weight.
    pub fn add_child_bounty(&self, d: u32) -> (r: Weight)
        ensures
            r == add_child_bounty_weight(self.db, d),
    {
        Weight::from_parts(84_606_322, 0)
            .saturating_add(Weight::from_parts(0, 6196))
            .saturating_add(Weight::from_parts(547, 0).saturating_mul(d as u64))
            .saturating_add(self.db.reads(5))
            .saturating_add(self.db.writes(6))
    }

    /// The weight of the `propose_curator` call.
    pub fn propose_curator(&self) -> (r: Weight)
        ensures
            r == benchmarked(self.db, 25_380_000, 3642, 3, 2),
    {
        benchmarked_weight(self.db, 25_380_000, 3642, 3, 2)
    }

    /// The weight of the `accept_curator` call.
    pub fn accept_curator(&self) -> (r: Weight)
        ensures
            r == benchmarked(self.db, 42_771_000, 3642, 3, 2),
    {
        benchmarked_weight(self.db, 42_771_000, 3642, 3, 2)
    }

    /// The weight of the `unassign_curator` call.
    pub fn unassign_curator(&self) -> (r: Weight)
        ensures
            r == benchmarked(self.db, 55_611_000, 3642, 3, 2),
    {
        benchmarked_weight(self.db, 55_611_000, 3642, 3, 2)
    }

    /// The weight of the `award_child_bounty` call.
    pub fn award_child_bounty(&self) -> (r: Weight)
        ensures
            r == benchmarked(self.db, 27_750_000, 3642, 2, 1),
    {
        benchmarked_weight(self.db, 27_750_000, 3642, 2, 1)
    }

    /// The weight of the `claim_child_bounty` call.
    pub fn claim_child_bounty(&self) -> (r: Weight)
        ensures
            r == benchmarked(self.db, 131_621_000, 8799, 5, 6),
    {
        benchmarked_weight(self.db, 131_621_000, 8799, 5, 6)
    }

    /// The weight of the `close_child_bounty_added` call.
    pub fn close_child_bounty_added(&self) -> (r: Weight)
        ensures
            r == benchmarked(self.db, 90_501_000, 6196, 6, 6),
    {
        benchmarked_weight(self.db, 90_501_000, 6196, 6, 6)
    }

    /// The weight of the `close_child_bounty_active` call.
    pub fn close_child_bounty_active(&self) -> (r: Weight)
        ensures
            r == benchmarked(self.db, 108_741_000, 8799, 7, 7),
    {
        benchmarked_weight(self.db, 108_741_000, 8799, 7, 7)
    }
}

} // verus!

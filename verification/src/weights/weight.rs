//! Two-dimensional weights (execution time and proof size) and the cost of database
//! accesses.
use vstd::prelude::*;

verus! {

/// `a + b`, or `u64::MAX` when the sum does not fit.
pub open spec fn sat_add(a: u64, b: u64) -> u64 {
    if a + b > u64::MAX {
        u64::MAX
    } else {
        (a + b) as u64
    }
}

/// `a * b`, or `u64::MAX` when the product does not fit.
pub open spec fn sat_mul(a: u64, b: u64) -> u64 {
    if a * b > u64::MAX {
        u64::MAX
    } else {
        (a * b) as u64
    }
}

fn saturating_add_u64(a: u64, b: u64) -> (r: u64)
    ensures
        r == sat_add(a, b),
{
    if a > u64::MAX - b {
        u64::MAX
    } else {
        a + b
    }
}

fn saturating_mul_u64(a: u64, b: u64) -> (r: u64)
    ensures
        r == sat_mul(a, b),
{
    if b == 0 {
        assert(a * b == 0) by (nonlinear_arith)
            requires
                b == 0,
        ;
        0
    } else if a > u64::MAX / b {
        assert(a * b > u64::MAX) by (nonlinear_arith)
            requires
                b > 0,
                a > u64::MAX / b,
        ;
        u64::MAX
    } else {
        assert(a * b <= u64::MAX) by (nonlinear_arith)
            requires
                b > 0,
                a <= u64::MAX / b,
        ;
        a * b
    }
}

/// A weight: execution time in picoseconds and proof size in bytes.
#[derive(Clone, Copy, Debug, PartialEq, Eq, Structural)]
pub struct Weight {
    pub ref_time: u64,
    pub proof_size: u64,
}

/// Componentwise saturating sum of two weights.
pub open spec fn weight_add(a: Weight, b: Weight) -> Weight {
    Weight { ref_time: sat_add(a.ref_time, b.ref_time), proof_size: sat_add(a.proof_size, b.proof_size) }
}

/// Componentwise saturating product of a weight and a scalar.
pub open spec fn weight_mul(a: Weight, k: u64) -> Weight {
    Weight { ref_time: sat_mul(a.ref_time, k), proof_size: sat_mul(a.proof_size, k) }
}

impl Weight {
    /// The weight with the given execution time and proof size.
    pub fn from_parts(ref_time: u64, proof_size: u64) -> (r: Weight)
        ensures
            r == (Weight { ref_time, proof_size }),
    {
        Weight { ref_time, proof_size }
    }

    /// Componentwise saturating sum.
    pub fn saturating_add(self, rhs: Weight) -> (r: Weight)
        ensures
            r == weight_add(self, rhs),
    {
        Weight {
            ref_time: saturating_add_u64(self.ref_time, rhs.ref_time),
            proof_size: saturating_add_u64(self.proof_size, rhs.proof_size),
        }
    }

    /// Componentwise saturating product with a scalar.
    pub fn saturating_mul(self, k: u64) -> (r: Weight)
        ensures
            r == weight_mul(self, k),
    {
        Weight {
            ref_time: saturating_mul_u64(self.ref_time, k),
            proof_size: saturating_mul_u64(self.proof_size, k),
        }
    }
}

/// Execution time charged per database read and per database write.
#[derive(Clone, Copy, Debug, PartialEq, Eq, Structural)]
pub struct RuntimeDbWeight {
    pub read: u64,
    pub write: u64,
}

/// The weight of `r` database reads.
pub open spec fn db_reads(db: RuntimeDbWeight, r: u64) -> Weight {
    Weight { ref_time: sat_mul(db.read, r), proof_size: 0 }
}

/// The weight of `w` database writes.
pub open spec fn db_writes(db: RuntimeDbWeight, w: u64) -> Weight {
    Weight { ref_time: sat_mul(db.write, w), proof_size: 0 }
}

impl RuntimeDbWeight {
    /// Weight of `r` reads.
    pub fn reads(self, r: u64) -> (res: Weight)
        ensures
            res == db_reads(self, r),
    {
        Weight::from_parts(saturating_mul_u64(self.read, r), 0)
    }

    /// Weight of `w` writes.
    pub fn writes(self, w: u64) -> (res: Weight)
        ensures
            res == db_writes(self, w),
    {
        Weight::from_parts(saturating_mul_u64(self.write, w), 0)
    }
}

/// The weight of a benchmarked call: its measured execution time, its proof size, and
/// its reads and writes.
pub open spec fn benchmarked(
    db: RuntimeDbWeight,
    ref_time: u64,
    proof_size: u64,
    reads: u64,
    writes: u64,
) -> Weight {
    weight_add(
        weight_add(
            weight_add(
                Weight { ref_time, proof_size: 0 },
                Weight { ref_time: 0, proof_size },
            ),
            db_reads(db, reads),
        ),
        db_writes(db, writes),
    )
}

/// Computes the weight of a benchmarked call.
pub fn benchmarked_weight(
    db: RuntimeDbWeight,
    ref_time: u64,
    proof_size: u64,
    reads: u64,
    writes: u64,
) -> (r: Weight)
    ensures
        r == benchmarked(db, ref_time, proof_size, reads, writes),
{
    Weight::from_parts(ref_time, 0)
        .saturating_add(Weight::from_parts(0, proof_size))
        .saturating_add(db.reads(reads))
        .saturating_add(db.writes(writes))
}

proof fn lemma_sat_add_monotone(a1: u64, a2: u64, b1: u64, b2: u64)
    requires
        a1 <= a2,
        b1 <= b2,
    ensures
        sat_add(a1, b1) <= sat_add(a2, b2),
{
}

proof fn lemma_sat_mul_monotone(a: u64, k1: u64, k2: u64)
    requires
        k1 <= k2,
    ensures
        sat_mul(a, k1) <= sat_mul(a, k2),
{
    assert(a * k1 <= a * k2) by (nonlinear_arith)
        requires
            k1 <= k2,
    ;
}

/// Componentwise order of weights: `a` weighs no more than `b` in either dimension.
pub open spec fn weight_le(a: Weight, b: Weight) -> bool {
    a.ref_time <= b.ref_time && a.proof_size <= b.proof_size
}

/// Adding a weight is monotone: a lighter or equal operand never gives a heavier sum.
pub proof fn law_weight_add_monotone(a1: Weight, a2: Weight, b1: Weight, b2: Weight)
    requires
        weight_le(a1, a2),
        weight_le(b1, b2),
    ensures
        weight_le(weight_add(a1, b1), weight_add(a2, b2)),
{
    lemma_sat_add_monotone(a1.ref_time, a2.ref_time, b1.ref_time, b2.ref_time);
    lemma_sat_add_monotone(a1.proof_size, a2.proof_size, b1.proof_size, b2.proof_size);
}

/// Scaling a weight is monotone in the factor.
pub proof fn law_weight_mul_monotone(a: Weight, k1: u64, k2: u64)
    requires
        k1 <= k2,
    ensures
        weight_le(weight_mul(a, k1), weight_mul(a, k2)),
{
    lemma_sat_mul_monotone(a.ref_time, k1, k2);
    lemma_sat_mul_monotone(a.proof_size, k1, k2);
}

/// A benchmarked call never weighs less when it makes more database reads or writes.
pub proof fn law_benchmarked_monotone(
    db: RuntimeDbWeight,
    ref_time: u64,
    proof_size: u64,
    reads1: u64,
    reads2: u64,
    writes1: u64,
    writes2: u64,
)
    requires
        reads1 <= reads2,
        writes1 <= writes2,
    ensures
        weight_le(
            benchmarked(db, ref_time, proof_size, reads1, writes1),
            benchmarked(db, ref_time, proof_size, reads2, writes2),
        ),
{
    let base = weight_add(Weight { ref_time, proof_size: 0 }, Weight { ref_time: 0, proof_size });
    lemma_sat_mul_monotone(db.read, reads1, reads2);
    lemma_sat_mul_monotone(db.write, writes1, writes2);
    law_weight_add_monotone(base, base, db_reads(db, reads1), db_reads(db, reads2));
    law_weight_add_monotone(
        weight_add(base, db_reads(db, reads1)),
        weight_add(base, db_reads(db, reads2)),
        db_writes(db, writes1),
        db_writes(db, writes2),
    );
}

} // verus!

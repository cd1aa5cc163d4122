//! Benchmarked weights of runtime calls: a fixed execution time, a proof size, and a
//! charge per storage read and write, combined with saturating arithmetic.
pub mod weight;
pub mod child_bounties;
pub mod claims;
pub mod encointer_communities;

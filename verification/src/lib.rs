//! Ambassador Fellowship governance: emergency response, appeals, cross-collective
//! integration, progressive discipline, rank transitions, conflicts of interest,
//! on-chain remarks, governance health metrics and professional service boundaries.
pub mod types;
pub mod scale;
pub mod hashing;
pub mod storage;
pub mod pallet;
pub mod weights;
pub mod identity;
pub mod laws;
pub mod benchmark_inputs;

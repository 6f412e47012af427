//! Hot-swappable mining algorithm engine.
//!
//! The crate offers a small family of hashing engines behind one capability
//! trait, a registry that finds them by name, and a migration controller that
//! replaces the active engine by a staged candidate through validation, shadow
//! traffic and a ramped rollout, rolling back when the candidate errs too often.
//!
//! Fractions (traffic shares, error rates, benchmark scores) are whole numbers
//! of basis points: `10_000` stands for the whole.

pub mod algorithms;
pub mod blake2s;
pub mod digests;
pub mod engine;
pub mod hot_swap;
pub mod result;
pub mod target;

pub use algorithms::{AlgorithmRegistry, ScryptAlgorithm, Sha256dAlgorithm};
pub use blake2s::Blake2SAlgorithm;
pub use engine::MiningAlgorithm;
pub use result::{AlgorithmError, AlgorithmErrorView, AlgorithmResult, AlgorithmResultView};

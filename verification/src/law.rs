//! Law/invariant assertion helpers.

pub mod algebraic;
pub mod invariants;
pub mod stateful;
pub mod tokio;

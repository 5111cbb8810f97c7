//! Orchestrator for multi-package on-chain deployment.
//!
//! Given a root program and its locked local dependencies, the library
//! produces a dependency-respecting deployment order, models the fee
//! authorization and transaction assembly for each deployment, and drives a
//! per-unit state machine that paces consecutive broadcasts and aborts on
//! the first failure.

pub mod assemble;
pub mod errors;
pub mod fee;
pub mod machine;
pub mod orchestrate;
pub mod resolve;
pub mod vm;

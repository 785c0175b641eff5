//! The verifier's side of the vanishing argument of a PLONK-style proof system.
//!
//! The verifier reads the commitments and the evaluation that the prover sent,
//! rebuilds from them the commitment to the quotient polynomial and the value it
//! must open to, and emits the two opening claims that a multi-open verifier
//! then checks.
pub mod challenge;
pub mod field;
pub mod keys;
pub mod msm;
pub mod query;
pub mod transcript;
pub mod vanishing;

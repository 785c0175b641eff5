//! Opening claims.
//!
//! A query states that a committed polynomial, evaluated at a point, gives a
//! value.  This crate only states such claims; checking them is the work of a
//! multi-open verifier.
use vstd::prelude::*;
use crate::msm::Msm;

verus! {

/// What a query is about: a single commitment, or a combination of commitments
/// that has not been multiplied out.
pub enum CommitmentReference<'r, C, S> {
    /// A commitment.
    Commitment(&'r C),
    /// An accumulator.
    Msm(&'r Msm<C, S>),
}

/// The claim that the polynomial committed to in `commitment` evaluates to
/// `eval` at `point`.
pub struct VerifierQuery<'r, C, S> {
    /// The commitment, or the accumulator that stands for it.
    pub commitment: CommitmentReference<'r, C, S>,
    /// The point of evaluation.
    pub point: S,
    /// The claimed value.
    pub eval: S,
}

impl<'r, C, S> VerifierQuery<'r, C, S> {
    /// The claim that `commitment` opens at `point` to `eval`.
    pub fn new_commitment(commitment: &'r C, point: S, eval: S) -> (r: Self)
        ensures
            r == (VerifierQuery { commitment: CommitmentReference::Commitment(commitment), point, eval }),
    {
        VerifierQuery { commitment: CommitmentReference::Commitment(commitment), point, eval }
    }

    /// The claim that the combination `msm` opens at `point` to `eval`.
    pub fn new_msm(msm: &'r Msm<C, S>, point: S, eval: S) -> (r: Self)
        ensures
            r == (VerifierQuery { commitment: CommitmentReference::Msm(msm), point, eval }),
    {
        VerifierQuery { commitment: CommitmentReference::Msm(msm), point, eval }
    }
}

} // verus!

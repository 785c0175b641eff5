//! The verifier's challenges.
//!
//! A challenge is a scalar that the transcript derived from everything the
//! prover had sent up to a fixed point of the protocol.  The two types below
//! tell the two challenges of the vanishing argument apart; each is a scalar and
//! nothing more.
use vstd::prelude::*;

verus! {

/// The challenge `y`, by whose powers the constraints are combined.
pub struct ChallengeY<S> {
    inner: S,
}

impl<S> View for ChallengeY<S> {
    type V = S;

    closed spec fn view(&self) -> S {
        self.inner
    }
}

impl<S: Copy> ChallengeY<S> {
    /// The challenge whose value is `inner`.
    pub fn new(inner: S) -> (r: Self)
        ensures
            r@ == inner,
    {
        ChallengeY { inner }
    }

    /// The challenge's value.
    pub fn get(&self) -> (r: S)
        ensures
            r == self@,
    {
        self.inner
    }
}

/// The challenge `x`, the point at which the polynomials are opened.
pub struct ChallengeX<S> {
    inner: S,
}

impl<S> View for ChallengeX<S> {
    type V = S;

    closed spec fn view(&self) -> S {
        self.inner
    }
}

impl<S: Copy> ChallengeX<S> {
    /// The challenge whose value is `inner`.
    pub fn new(inner: S) -> (r: Self)
        ensures
            r@ == inner,
    {
        ChallengeX { inner }
    }

    /// The challenge's value.
    pub fn get(&self) -> (r: S)
        ensures
            r == self@,
    {
        self.inner
    }
}

} // verus!

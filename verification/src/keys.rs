//! What the verifier knows of the circuit.
use vstd::prelude::*;

verus! {

/// The domain over which the circuit's polynomials are evaluated.
pub struct EvaluationDomain {
    quotient_poly_degree: usize,
}

impl EvaluationDomain {
    /// A domain whose quotient polynomial is committed to in
    /// `quotient_poly_degree` pieces.
    pub fn new(quotient_poly_degree: usize) -> (r: Self)
        ensures
            r.quotient_poly_degree() == quotient_poly_degree,
    {
        EvaluationDomain { quotient_poly_degree }
    }

    /// The number of pieces of the quotient polynomial.
    pub closed spec fn quotient_poly_degree(&self) -> usize {
        self.quotient_poly_degree
    }

    /// The number of pieces of the quotient polynomial.
    pub fn get_quotient_poly_degree(&self) -> (r: usize)
        ensures
            r == self.quotient_poly_degree(),
    {
        self.quotient_poly_degree
    }
}

/// The verifying key of a circuit.
pub struct VerifyingKey {
    domain: EvaluationDomain,
}

impl VerifyingKey {
    /// The verifying key of a circuit over `domain`.
    pub fn new(domain: EvaluationDomain) -> (r: Self)
        ensures
            r.domain() == domain,
    {
        VerifyingKey { domain }
    }

    /// The evaluation domain of the circuit.
    pub closed spec fn domain(&self) -> EvaluationDomain {
        self.domain
    }

    /// The evaluation domain of the circuit.
    pub fn get_domain(&self) -> (r: &EvaluationDomain)
        ensures
            *r == self.domain(),
    {
        &self.domain
    }
}

} // verus!

//! The multi-scalar-multiplication accumulator.
//!
//! An accumulator stands for a linear combination of commitments that nobody
//! has multiplied out yet: a list of terms, each a scalar and the commitment it
//! weighs.
use vstd::prelude::*;
use ff::Field;
use crate::field::field_mul;
use crate::field::product;

verus! {

/// Every scalar of `terms` multiplied by `factor`, the commitments unchanged.
pub open spec fn scaled<C, S: Field>(terms: Seq<(S, C)>, factor: S) -> Seq<(S, C)> {
    Seq::new(terms.len(), |i: int| (product(terms[i].0, factor), terms[i].1))
}

/// An unreduced linear combination of commitments.  Its view is the list of its
/// terms, in the order in which they were appended.
pub struct Msm<C, S> {
    terms: Vec<(S, C)>,
}

impl<C, S> View for Msm<C, S> {
    type V = Seq<(S, C)>;

    closed spec fn view(&self) -> Seq<(S, C)> {
        self.terms@
    }
}

impl<C: Copy, S: Field> Msm<C, S> {
    /// The accumulator without terms.
    pub fn new() -> (r: Self)
        ensures
            r@ == Seq::<(S, C)>::empty(),
    {
        Msm { terms: Vec::new() }
    }

    /// Multiplies the whole combination by `factor`.
    pub fn scale(&mut self, factor: S)
        ensures
            final(self)@ == scaled(old(self)@, factor),
    {
        let ghost before = self.terms@;
        let ghost target = scaled(before, factor);
        let n: usize = self.terms.len();
        let mut i: usize = 0;
        while i < n
            invariant
                i <= n,
                self.terms@.len() == n,
                before.len() == n,
                target == scaled(before, factor),
                forall|j: int| 0 <= j < i ==> #[trigger] self.terms@[j] == target[j],
                forall|j: int| i <= j < n ==> #[trigger] self.terms@[j] == before[j],
            decreases n - i,
        {
            let (scalar, base) = self.terms[i];
            self.terms.set(i, (field_mul(scalar, factor), base));
            i = i + 1;
        }
    }

    /// Adds `scalar * point` to the combination.
    pub fn append_term(&mut self, scalar: S, point: C)
        ensures
            final(self)@ == old(self)@.push((scalar, point)),
    {
        self.terms.push((scalar, point));
    }

    /// The terms, in the order in which they were appended.
    pub fn terms(&self) -> (r: &Vec<(S, C)>)
        ensures
            r@ == self@,
    {
        &self.terms
    }
}

/// The parameters of the polynomial commitment scheme.
pub struct Params {
    /// The logarithm of the number of rows that a circuit may have.
    pub k: u32,
}

impl Params {
    /// Parameters for circuits of `2^k` rows.
    pub fn new(k: u32) -> (r: Self)
        ensures
            r.k == k,
    {
        Params { k }
    }

    /// A fresh accumulator, without terms.
    pub fn empty_msm<C: Copy, S: Field>(&self) -> (r: Msm<C, S>)
        ensures
            r@ == Seq::<(S, C)>::empty(),
    {
        Msm::new()
    }
}

} // verus!

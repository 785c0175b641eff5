//! The four stages of the vanishing argument, as the verifier walks them.
//!
//! Each stage is a type of its own, and only the stage before it can produce
//! it: `Committed`, then `Constructed`, then `PartiallyEvaluated`, then
//! `Evaluated`.  A stage is consumed by the step that builds the next one, so
//! no read from the transcript can be skipped or made out of turn.
use vstd::prelude::*;
use vstd::std_specs::iter::IteratorSpec;
use ff::Field;
use crate::challenge::ChallengeX;
use crate::challenge::ChallengeY;
use crate::field::difference;
use crate::field::field_add;
use crate::field::field_invert;
use crate::field::field_mul;
use crate::field::field_one;
use crate::field::field_sub;
use crate::field::field_zero;
use crate::field::inverse;
use crate::field::is_zero;
use crate::field::lemma_one_is_unique;
use crate::field::lemma_zero_is_unique;
use crate::field::one;
use crate::field::power;
use crate::field::product;
use crate::field::sum;
use crate::field::zero;
use crate::keys::VerifyingKey;
use crate::msm::scaled;
use crate::msm::Msm;
use crate::msm::Params;
use crate::query::CommitmentReference;
use crate::query::VerifierQuery;
use crate::transcript::after_points;
use crate::transcript::read_n_points;
use crate::transcript::read_points;
use crate::transcript::Error;
use crate::transcript::TranscriptRead;

verus! {

/// The constraint values combined into one by Horner's rule in `y`: starting
/// from zero, each value in turn is added to `y` times what came before.
pub open spec fn folded_expressions<S: Field>(expressions: Seq<S>, y: S) -> S
    decreases expressions.len(),
{
    if expressions.len() == 0 {
        zero::<S>()
    } else {
        sum(product(folded_expressions(expressions.drop_last(), y), y), expressions.last())
    }
}

/// The value that the quotient polynomial must open to: the combined
/// constraint values divided by the vanishing polynomial's value `xn - 1`.
pub open spec fn expected_h_eval<S: Field>(expressions: Seq<S>, y: S, xn: S) -> S {
    product(folded_expressions(expressions, y), inverse(difference(xn, one::<S>())))
}

/// The pieces of the quotient polynomial combined into one accumulator by
/// Horner's rule in `xn`, the piece of highest degree first: the pieces after
/// the first are combined and scaled by `xn`, then the first is appended with
/// the scalar one.
pub open spec fn folded_commitments<C, S: Field>(h_commitments: Seq<C>, xn: S) -> Seq<(S, C)>
    decreases h_commitments.len(),
{
    if h_commitments.len() == 0 {
        Seq::empty()
    } else {
        scaled(folded_commitments(h_commitments.drop_first(), xn), xn).push(
            (one::<S>(), h_commitments.first()),
        )
    }
}

/// What `Committed` holds.
pub struct CommittedView<C> {
    /// The commitment to the random polynomial that blinds the quotient.
    pub random_poly_commitment: C,
}

/// What `Constructed` holds.
pub struct ConstructedView<C> {
    /// The commitments to the pieces of the quotient polynomial, the piece of
    /// lowest degree first.
    pub h_commitments: Seq<C>,
    /// The commitment to the random polynomial.
    pub random_poly_commitment: C,
}

/// What `PartiallyEvaluated` holds.
pub struct PartiallyEvaluatedView<C, S> {
    /// The commitments to the pieces of the quotient polynomial, the piece of
    /// lowest degree first.
    pub h_commitments: Seq<C>,
    /// The commitment to the random polynomial.
    pub random_poly_commitment: C,
    /// The claimed value of the random polynomial at `x`.
    pub random_eval: S,
}

/// What `Evaluated` holds.
pub struct EvaluatedView<C, S> {
    /// The terms of the accumulator that stands for the commitment to the
    /// whole quotient polynomial.
    pub h_commitment: Seq<(S, C)>,
    /// The commitment to the random polynomial.
    pub random_poly_commitment: C,
    /// The value that the quotient polynomial must open to at `x`.
    pub expected_h_eval: S,
    /// The claimed value of the random polynomial at `x`.
    pub random_eval: S,
}

/// What `verify` makes of a state: the evaluated state, or the arithmetic
/// failure where `xn - 1` is zero and has no inverse.
pub open spec fn verify_outcome<C, S: Field>(
    state: PartiallyEvaluatedView<C, S>,
    expressions: Seq<S>,
    y: S,
    xn: S,
) -> Result<EvaluatedView<C, S>, Error> {
    if is_zero(difference(xn, one::<S>())) {
        Err(Error::Arithmetic)
    } else {
        Ok(
            EvaluatedView {
                h_commitment: folded_commitments(state.h_commitments, xn),
                random_poly_commitment: state.random_poly_commitment,
                expected_h_eval: expected_h_eval(expressions, y, xn),
                random_eval: state.random_eval,
            },
        )
    }
}

/// Three constraint values `v0`, `v1`, `v2` combine to
/// `((0 * y + v0) * y + v1) * y + v2`, and the expected value of the quotient
/// polynomial is that, times the inverse of `xn - 1`.
pub proof fn lemma_three_expressions<S: Field>(v0: S, v1: S, v2: S, y: S, xn: S)
    ensures
        folded_expressions(seq![v0, v1, v2], y) == sum(
            product(sum(product(sum(product(zero::<S>(), y), v0), y), v1), y),
            v2,
        ),
        expected_h_eval(seq![v0, v1, v2], y, xn) == product(
            folded_expressions(seq![v0, v1, v2], y),
            inverse(difference(xn, one::<S>())),
        ),
{
    reveal_with_fuel(folded_expressions, 4);
    assert(seq![v0, v1, v2].drop_last() =~= seq![v0, v1]);
    assert(seq![v0, v1].drop_last() =~= seq![v0]);
}

/// Three pieces `h0`, `h1`, `h2` fold into `h2 * xn^2 + h1 * xn + h0`: the
/// accumulator that Horner's rule builds from the last piece to the first,
/// `(h2 * xn + h1) * xn + h0`, holds the three terms of that sum.
pub proof fn lemma_three_pieces<C, S: Field>(h0: C, h1: C, h2: C, xn: S)
    ensures
        folded_commitments(seq![h0, h1, h2], xn) == seq![
            (product(product(one::<S>(), xn), xn), h2),
            (product(one::<S>(), xn), h1),
            (one::<S>(), h0),
        ],
{
    reveal_with_fuel(folded_commitments, 4);
    assert(seq![h0, h1, h2].drop_first() =~= seq![h1, h2]);
    assert(seq![h1, h2].drop_first() =~= seq![h2]);
    assert(folded_commitments(seq![h0, h1, h2], xn) =~= seq![
        (product(product(one::<S>(), xn), xn), h2),
        (product(one::<S>(), xn), h1),
        (one::<S>(), h0),
    ]);
}

/// The accumulator that the pieces fold into is their weighted sum, written
/// out term by term: it has one term for each piece, the piece of highest
/// degree first, and the piece of degree `i` weighs `xn` to the power `i`.
pub proof fn lemma_folded_commitments_is_weighted_sum<C, S: Field>(h_commitments: Seq<C>, xn: S)
    ensures
        folded_commitments(h_commitments, xn).len() == h_commitments.len(),
        forall|j: int|
            0 <= j < h_commitments.len() ==> #[trigger] folded_commitments(h_commitments, xn)[j]
                == (
                power(xn, (h_commitments.len() - 1 - j) as nat),
                h_commitments[h_commitments.len() - 1 - j],
            ),
    decreases h_commitments.len(),
{
    if h_commitments.len() > 0 {
        lemma_folded_commitments_is_weighted_sum(h_commitments.drop_first(), xn);
    }
}

/// Evaluating twice from the same state, the same constraint values in the
/// same order and the same challenges gives the same outcome, the expected
/// value of the quotient polynomial included.
pub proof fn lemma_verify_is_deterministic<C, S: Field>(
    state: PartiallyEvaluatedView<C, S>,
    expressions: Seq<S>,
    y: S,
    xn: S,
    first: Result<EvaluatedView<C, S>, Error>,
    second: Result<EvaluatedView<C, S>, Error>,
)
    requires
        first == verify_outcome(state, expressions, y, xn),
        second == verify_outcome(state, expressions, y, xn),
    ensures
        first == second,
        first matches Ok(a) ==> second matches Ok(b) && a.expected_h_eval == b.expected_h_eval,
{
}

/// Everything that was read from the transcript is bound into the evaluated
/// state: two states that evaluate to the same outcome, at the same `xn`, hold
/// the same commitments and the same claimed value.
pub proof fn lemma_reads_are_bound<C, S: Field>(
    first: PartiallyEvaluatedView<C, S>,
    second: PartiallyEvaluatedView<C, S>,
    first_expressions: Seq<S>,
    second_expressions: Seq<S>,
    y: S,
    xn: S,
)
    requires
        verify_outcome(first, first_expressions, y, xn) is Ok,
        verify_outcome(first, first_expressions, y, xn) == verify_outcome(second, second_expressions, y, xn),
    ensures
        first.h_commitments == second.h_commitments,
        first.random_poly_commitment == second.random_poly_commitment,
        first.random_eval == second.random_eval,
{
    let a = first.h_commitments;
    let b = second.h_commitments;
    lemma_folded_commitments_is_weighted_sum(a, xn);
    lemma_folded_commitments_is_weighted_sum(b, xn);
    assert forall|i: int| 0 <= i < a.len() implies a[i] == b[i] by {
        let j = a.len() - 1 - i;
        assert(folded_commitments(a, xn)[j].1 == a[i]);
        assert(folded_commitments(b, xn)[j].1 == b[i]);
    }
}

/// The vanishing argument; the verifier's first step starts from here.
pub struct Argument {}

/// The verifier has read the commitment to the random polynomial.
pub struct Committed<C> {
    random_poly_commitment: C,
}

/// The verifier has read the commitments to the pieces of the quotient
/// polynomial.
pub struct Constructed<C> {
    h_commitments: Vec<C>,
    random_poly_commitment: C,
}

/// The verifier has read the claimed value of the random polynomial.
pub struct PartiallyEvaluated<C, S> {
    h_commitments: Vec<C>,
    random_poly_commitment: C,
    random_eval: S,
}

/// The verifier has rebuilt the commitment to the quotient polynomial and the
/// value it must open to.
pub struct Evaluated<C, S> {
    h_commitment: Msm<C, S>,
    random_poly_commitment: C,
    expected_h_eval: S,
    random_eval: S,
}

impl<C> View for Committed<C> {
    type V = CommittedView<C>;

    closed spec fn view(&self) -> CommittedView<C> {
        CommittedView { random_poly_commitment: self.random_poly_commitment }
    }
}

impl<C> View for Constructed<C> {
    type V = ConstructedView<C>;

    closed spec fn view(&self) -> ConstructedView<C> {
        ConstructedView {
            h_commitments: self.h_commitments@,
            random_poly_commitment: self.random_poly_commitment,
        }
    }
}

impl<C, S> View for PartiallyEvaluated<C, S> {
    type V = PartiallyEvaluatedView<C, S>;

    closed spec fn view(&self) -> PartiallyEvaluatedView<C, S> {
        PartiallyEvaluatedView {
            h_commitments: self.h_commitments@,
            random_poly_commitment: self.random_poly_commitment,
            random_eval: self.random_eval,
        }
    }
}

impl<C, S> View for Evaluated<C, S> {
    type V = EvaluatedView<C, S>;

    closed spec fn view(&self) -> EvaluatedView<C, S> {
        EvaluatedView {
            h_commitment: self.h_commitment@,
            random_poly_commitment: self.random_poly_commitment,
            expected_h_eval: self.expected_h_eval,
            random_eval: self.random_eval,
        }
    }
}

impl Argument {
    /// Reads the commitment to the random polynomial: one commitment, the
    /// next in the transcript.  A failed read is handed on as it came.
    pub fn read_commitments_before_y<C, S, T: TranscriptRead<C, S>>(transcript: &mut T) -> (r:
        Result<Committed<C>, Error>)
        ensures
            match r {
                Ok(committed) => {
                    &&& old(transcript).point() == Ok::<C, Error>(committed@.random_poly_commitment)
                    &&& *final(transcript) == old(transcript).after_point()
                },
                Err(e) => old(transcript).point() == Err::<C, Error>(e),
            },
    {
        match transcript.read_point() {
            Ok(random_poly_commitment) => Ok(Committed { random_poly_commitment }),
            Err(e) => Err(e),
        }
    }
}

impl<C> Committed<C> {
    /// The commitment to the random polynomial.
    pub fn random_poly_commitment(&self) -> (r: &C)
        ensures
            *r == self@.random_poly_commitment,
    {
        &self.random_poly_commitment
    }

    /// Reads the commitments to the pieces of the quotient polynomial: as many
    /// as the verifying key's domain asks for, in the order of the transcript.
    /// The first read that fails ends the step, and its error is handed on.
    pub fn read_commitments_after_y<S, T: TranscriptRead<C, S>>(
        self,
        vk: &VerifyingKey,
        transcript: &mut T,
    ) -> (r: Result<Constructed<C>, Error>)
        ensures
            match r {
                Ok(constructed) => {
                    &&& read_points::<C, S, T>(
                        *old(transcript),
                        vk.domain().quotient_poly_degree() as nat,
                    ) == Ok::<Seq<C>, Error>(constructed@.h_commitments)
                    &&& constructed@.h_commitments.len() == vk.domain().quotient_poly_degree()
                    &&& constructed@.random_poly_commitment == self@.random_poly_commitment
                    &&& *final(transcript) == after_points::<C, S, T>(
                        *old(transcript),
                        vk.domain().quotient_poly_degree() as nat,
                    )
                },
                Err(e) => read_points::<C, S, T>(
                    *old(transcript),
                    vk.domain().quotient_poly_degree() as nat,
                ) == Err::<Seq<C>, Error>(e),
            },
    {
        let n: usize = vk.get_domain().get_quotient_poly_degree();
        match read_n_points::<C, S, T>(transcript, n) {
            Ok(h_commitments) => Ok(
                Constructed { h_commitments, random_poly_commitment: self.random_poly_commitment },
            ),
            Err(e) => Err(e),
        }
    }
}

impl<C> Constructed<C> {
    /// The commitments to the pieces of the quotient polynomial, the piece of
    /// lowest degree first.
    pub fn h_commitments(&self) -> (r: &Vec<C>)
        ensures
            r@ == self@.h_commitments,
    {
        &self.h_commitments
    }

    /// The commitment to the random polynomial.
    pub fn random_poly_commitment(&self) -> (r: &C)
        ensures
            *r == self@.random_poly_commitment,
    {
        &self.random_poly_commitment
    }

    /// Reads the claimed value of the random polynomial at `x`: one scalar,
    /// the next in the transcript.  A failed read is handed on as it came.
    pub fn evaluate_after_x<S, T: TranscriptRead<C, S>>(self, transcript: &mut T) -> (r: Result<
        PartiallyEvaluated<C, S>,
        Error,
    >)
        ensures
            match r {
                Ok(evaluated) => {
                    &&& old(transcript).scalar() == Ok::<S, Error>(evaluated@.random_eval)
                    &&& evaluated@.h_commitments == self@.h_commitments
                    &&& evaluated@.random_poly_commitment == self@.random_poly_commitment
                    &&& *final(transcript) == old(transcript).after_scalar()
                },
                Err(e) => old(transcript).scalar() == Err::<S, Error>(e),
            },
    {
        match transcript.read_scalar() {
            Ok(random_eval) => Ok(
                PartiallyEvaluated {
                    h_commitments: self.h_commitments,
                    random_poly_commitment: self.random_poly_commitment,
                    random_eval,
                },
            ),
            Err(e) => Err(e),
        }
    }
}

/// Combines the constraint values by Horner's rule in `y`, taking each value
/// from `expressions` once and in order.
pub fn fold_expressions<S: Field, I: Iterator<Item = S>>(expressions: I, y: S) -> (r: S)
    requires
        expressions.obeys_prophetic_iter_laws(),
        expressions.decrease() is Some,
    ensures
        r == folded_expressions(expressions.remaining(), y),
{
    let ghost all = expressions.remaining();
    let ghost mut taken: Seq<S> = Seq::empty();
    let mut rest = expressions;
    let mut h_eval = field_zero::<S>();
    proof {
        lemma_zero_is_unique(h_eval);
    }
    loop
        invariant
            rest.obeys_prophetic_iter_laws(),
            rest.decrease() is Some,
            taken + rest.remaining() == all,
            h_eval == folded_expressions(taken, y),
        ensures
            h_eval == folded_expressions(all, y),
        decreases rest.decrease()->0,
    {
        match rest.next() {
            Some(v) => {
                proof {
                    assert(taken.push(v).drop_last() == taken);
                    taken = taken.push(v);
                }
                h_eval = field_add(field_mul(h_eval, y), v);
            },
            None => {
                break ;
            },
        }
    }
    h_eval
}

/// Combines the pieces of the quotient polynomial by Horner's rule in `xn`,
/// from the last piece to the first: before each piece is appended with the
/// scalar one, all that was gathered is scaled by `xn`.
pub fn fold_commitments<C: Copy, S: Field>(params: &Params, h_commitments: &Vec<C>, xn: S) -> (r:
    Msm<C, S>)
    ensures
        r@ == folded_commitments(h_commitments@, xn),
{
    let unit = field_one::<S>();
    proof {
        lemma_one_is_unique(unit);
    }
    let n: usize = h_commitments.len();
    let mut acc: Msm<C, S> = params.empty_msm();
    let mut i: usize = n;
    while i > 0
        invariant
            i <= n,
            n == h_commitments@.len(),
            unit == one::<S>(),
            acc@ == folded_commitments(h_commitments@.subrange(i as int, n as int), xn),
        decreases i,
    {
        i = i - 1;
        proof {
            let tail = h_commitments@.subrange(i as int, n as int);
            assert(tail.drop_first() =~= h_commitments@.subrange(i + 1, n as int));
        }
        acc.scale(xn);
        acc.append_term(unit, h_commitments[i]);
    }
    proof {
        assert(h_commitments@.subrange(0, n as int) =~= h_commitments@);
    }
    acc
}

impl<C: Copy, S: Field> PartiallyEvaluated<C, S> {
    /// The commitments to the pieces of the quotient polynomial, the piece of
    /// lowest degree first.
    pub fn h_commitments(&self) -> (r: &Vec<C>)
        ensures
            r@ == self@.h_commitments,
    {
        &self.h_commitments
    }

    /// The commitment to the random polynomial.
    pub fn random_poly_commitment(&self) -> (r: &C)
        ensures
            *r == self@.random_poly_commitment,
    {
        &self.random_poly_commitment
    }

    /// The claimed value of the random polynomial at `x`.
    pub fn random_eval(&self) -> (r: S)
        ensures
            r == self@.random_eval,
    {
        self.random_eval
    }

    /// Rebuilds the commitment to the quotient polynomial and the value it
    /// must open to.
    ///
    /// The constraint values `expressions` are combined by Horner's rule in
    /// `y` and divided by `xn - 1`; the pieces of the quotient polynomial are
    /// combined into one accumulator by Horner's rule in `xn`.  Where `xn - 1`
    /// is zero there is nothing to divide by, and the proof is rejected; so it
    /// is, in particular, where `xn` is one.
    pub fn verify<I: Iterator<Item = S>>(
        self,
        params: &Params,
        expressions: I,
        y: ChallengeY<S>,
        xn: S,
    ) -> (r: Result<Evaluated<C, S>, Error>)
        requires
            expressions.obeys_prophetic_iter_laws(),
            expressions.decrease() is Some,
        ensures
            match r {
                Ok(evaluated) => verify_outcome(self@, expressions.remaining(), y@, xn) == Ok::<
                    EvaluatedView<C, S>,
                    Error,
                >(evaluated@),
                Err(e) => verify_outcome(self@, expressions.remaining(), y@, xn) == Err::<
                    EvaluatedView<C, S>,
                    Error,
                >(e),
            },
            xn == one::<S>() ==> (r matches Err(e) && e == Error::Arithmetic),
    {
        let folded = fold_expressions(expressions, y.get());
        let unit = field_one::<S>();
        proof {
            lemma_one_is_unique(unit);
        }
        match field_invert(field_sub(xn, unit)) {
            None => Err(Error::Arithmetic),
            Some(inverted) => {
                let expected_h_eval = field_mul(folded, inverted);
                let h_commitment = fold_commitments(params, &self.h_commitments, xn);
                Ok(
                    Evaluated {
                        h_commitment,
                        random_poly_commitment: self.random_poly_commitment,
                        expected_h_eval,
                        random_eval: self.random_eval,
                    },
                )
            },
        }
    }
}

impl<C, S: Copy> Evaluated<C, S> {
    /// The accumulator that stands for the commitment to the whole quotient
    /// polynomial.
    pub fn h_commitment(&self) -> (r: &Msm<C, S>)
        ensures
            r@ == self@.h_commitment,
    {
        &self.h_commitment
    }

    /// The commitment to the random polynomial.
    pub fn random_poly_commitment(&self) -> (r: &C)
        ensures
            *r == self@.random_poly_commitment,
    {
        &self.random_poly_commitment
    }

    /// The value that the quotient polynomial must open to at `x`.
    pub fn expected_h_eval(&self) -> (r: S)
        ensures
            r == self@.expected_h_eval,
    {
        self.expected_h_eval
    }

    /// The claimed value of the random polynomial at `x`.
    pub fn random_eval(&self) -> (r: S)
        ensures
            r == self@.random_eval,
    {
        self.random_eval
    }

    /// The two opening claims that remain to be checked, both at the point
    /// `x`: that the rebuilt commitment to the quotient polynomial opens to the
    /// expected value, and that the commitment to the random polynomial opens to
    /// the value that the prover claimed.
    pub fn queries<'r>(&'r self, x: ChallengeX<S>) -> (r: Vec<VerifierQuery<'r, C, S>>)
        ensures
            r@.len() == 2,
            r@[0].commitment matches CommitmentReference::Msm(msm) && msm@
                == self@.h_commitment,
            r@[0].point == x@,
            r@[0].eval == self@.expected_h_eval,
            r@[1].commitment == CommitmentReference::<C, S>::Commitment(
                &self@.random_poly_commitment,
            ),
            r@[1].point == x@,
            r@[1].eval == self@.random_eval,
    {
        let mut queries: Vec<VerifierQuery<'r, C, S>> = Vec::new();
        queries.push(VerifierQuery::new_msm(&self.h_commitment, x.get(), self.expected_h_eval));
        queries.push(
            VerifierQuery::new_commitment(&self.random_poly_commitment, x.get(), self.random_eval),
        );
        queries
    }
}

} // verus!

use std::ops::{Add, AddAssign, Mul, MulAssign, Neg, Sub, SubAssign};

use ff::Field;
use rand_core::RngCore;
use subtle::{Choice, ConditionallySelectable, ConstantTimeEq, CtOption};

use vanishing_argument::challenge::{ChallengeX, ChallengeY};
use vanishing_argument::keys::{EvaluationDomain, VerifyingKey};
use vanishing_argument::msm::{Msm, Params};
use vanishing_argument::query::{CommitmentReference, VerifierQuery};
use vanishing_argument::transcript::{
    read_n_points, Error, ProofElement, ProofStream, TranscriptRead,
};
use vanishing_argument::vanishing::{
    fold_commitments, fold_expressions, Argument, Committed, Constructed, Evaluated,
    PartiallyEvaluated,
};

/// The prime 2^31 - 1.
const P: u64 = 2147483647;

/// An element of the field of integers modulo `P`.
#[derive(Clone, Copy, Debug, Default, PartialEq, Eq)]
struct Fp(u64);

impl Fp {
    fn new(value: u64) -> Fp {
        Fp(value % P)
    }

    fn pow(self, mut exponent: u64) -> Fp {
        let mut base = self;
        let mut result = Fp(1);
        while exponent > 0 {
            if exponent & 1 == 1 {
                result = result * base;
            }
            base = base * base;
            exponent >>= 1;
        }
        result
    }
}

impl Add for Fp {
    type Output = Fp;
    fn add(self, rhs: Fp) -> Fp {
        Fp((self.0 + rhs.0) % P)
    }
}

impl Sub for Fp {
    type Output = Fp;
    fn sub(self, rhs: Fp) -> Fp {
        Fp((self.0 + P - rhs.0) % P)
    }
}

impl Mul for Fp {
    type Output = Fp;
    fn mul(self, rhs: Fp) -> Fp {
        Fp((self.0 * rhs.0) % P)
    }
}

impl Neg for Fp {
    type Output = Fp;
    fn neg(self) -> Fp {
        Fp((P - self.0) % P)
    }
}

impl<'a> Add<&'a Fp> for Fp {
    type Output = Fp;
    fn add(self, rhs: &'a Fp) -> Fp {
        self + *rhs
    }
}

impl<'a> Sub<&'a Fp> for Fp {
    type Output = Fp;
    fn sub(self, rhs: &'a Fp) -> Fp {
        self - *rhs
    }
}

impl<'a> Mul<&'a Fp> for Fp {
    type Output = Fp;
    fn mul(self, rhs: &'a Fp) -> Fp {
        self * *rhs
    }
}

impl AddAssign for Fp {
    fn add_assign(&mut self, rhs: Fp) {
        *self = *self + rhs;
    }
}

impl SubAssign for Fp {
    fn sub_assign(&mut self, rhs: Fp) {
        *self = *self - rhs;
    }
}

impl MulAssign for Fp {
    fn mul_assign(&mut self, rhs: Fp) {
        *self = *self * rhs;
    }
}

impl<'a> AddAssign<&'a Fp> for Fp {
    fn add_assign(&mut self, rhs: &'a Fp) {
        *self = *self + *rhs;
    }
}

impl<'a> SubAssign<&'a Fp> for Fp {
    fn sub_assign(&mut self, rhs: &'a Fp) {
        *self = *self - *rhs;
    }
}

impl<'a> MulAssign<&'a Fp> for Fp {
    fn mul_assign(&mut self, rhs: &'a Fp) {
        *self = *self * *rhs;
    }
}

impl ConstantTimeEq for Fp {
    fn ct_eq(&self, other: &Fp) -> Choice {
        self.0.ct_eq(&other.0)
    }
}

impl ConditionallySelectable for Fp {
    fn conditional_select(a: &Fp, b: &Fp, choice: Choice) -> Fp {
        Fp(u64::conditional_select(&a.0, &b.0, choice))
    }
}

impl Field for Fp {
    fn random(mut rng: impl RngCore) -> Fp {
        Fp::new(rng.next_u64())
    }

    fn zero() -> Fp {
        Fp(0)
    }

    fn one() -> Fp {
        Fp(1)
    }

    fn square(&self) -> Fp {
        *self * *self
    }

    fn double(&self) -> Fp {
        *self + *self
    }

    fn invert(&self) -> CtOption<Fp> {
        CtOption::new(self.pow(P - 2), !self.ct_eq(&Fp(0)))
    }

    fn sqrt(&self) -> CtOption<Fp> {
        let root = self.pow((P + 1) / 4);
        CtOption::new(root, (root * root).ct_eq(self))
    }
}

/// A commitment, known by its label.
type Point = &'static str;

fn point(label: Point) -> ProofElement<Point, Fp> {
    ProofElement::Point(label)
}

fn scalar(value: u64) -> ProofElement<Point, Fp> {
    ProofElement::Scalar(Fp::new(value))
}

fn key(pieces: usize) -> VerifyingKey {
    VerifyingKey::new(EvaluationDomain::new(pieces))
}

/// The proof of a circuit whose quotient polynomial has three pieces.
fn sample_proof() -> Vec<ProofElement<Point, Fp>> {
    vec![point("R"), point("H0"), point("H1"), point("H2"), scalar(42)]
}

/// Walks the three reading stages over `elements`.
fn read_all(elements: Vec<ProofElement<Point, Fp>>, pieces: usize) -> PartiallyEvaluated<Point, Fp> {
    let mut transcript = ProofStream::new(elements);
    let committed = Argument::read_commitments_before_y(&mut transcript).unwrap();
    let constructed = committed.read_commitments_after_y(&key(pieces), &mut transcript).unwrap();
    constructed.evaluate_after_x(&mut transcript).unwrap()
}

fn values(list: &[u64]) -> Vec<Fp> {
    list.iter().map(|v| Fp::new(*v)).collect()
}

fn evaluate(expressions: &[u64], y: u64, xn: u64) -> Result<Evaluated<Point, Fp>, Error> {
    read_all(sample_proof(), 3).verify(
        &Params::new(4),
        values(expressions).into_iter(),
        ChallengeY::new(Fp::new(y)),
        Fp::new(xn),
    )
}

fn inverse(value: u64) -> Fp {
    Option::<Fp>::from(Fp::new(value).invert()).unwrap()
}

/// A transcript written outside the library: every read fails with the error
/// it was made with, once `good` commitments have been handed out.
#[derive(Clone)]
struct Failing {
    good: usize,
    error: Error,
}

impl TranscriptRead<Point, Fp> for Failing {
    fn point(&self) -> Result<Point, Error> {
        if self.good > 0 {
            Ok("G")
        } else {
            Err(self.error)
        }
    }

    fn after_point(&self) -> Failing {
        Failing { good: self.good - 1, error: self.error }
    }

    fn scalar(&self) -> Result<Fp, Error> {
        Err(self.error)
    }

    fn after_scalar(&self) -> Failing {
        self.clone()
    }

    fn read_point(&mut self) -> Result<Point, Error> {
        if self.good > 0 {
            self.good -= 1;
            Ok("G")
        } else {
            Err(self.error)
        }
    }

    fn read_scalar(&mut self) -> Result<Fp, Error> {
        Err(self.error)
    }
}

#[test]
fn field_inverts() {
    assert_eq!(Fp::new(7) * inverse(7), Fp::new(1));
    assert_eq!(Option::<Fp>::from(Fp::new(0).invert()), None);
    assert_eq!(inverse(3), Fp::new(1431655765));
}

#[test]
fn reads_the_random_commitment() {
    let mut transcript = ProofStream::new(sample_proof());
    let committed: Committed<Point> =
        Argument::read_commitments_before_y(&mut transcript).unwrap();
    assert_eq!(*committed.random_poly_commitment(), "R");
    assert_eq!(transcript.remaining(), 4);
}

#[test]
fn first_read_fails_on_an_empty_proof() {
    let mut transcript: ProofStream<Point, Fp> = ProofStream::new(vec![]);
    let result = Argument::read_commitments_before_y(&mut transcript);
    assert!(matches!(result, Err(Error::Transcript)));
}

#[test]
fn first_read_fails_on_a_scalar() {
    let mut transcript = ProofStream::new(vec![scalar(1), point("R")]);
    let result = Argument::read_commitments_before_y(&mut transcript);
    assert!(matches!(result, Err(Error::Transcript)));
}

#[test]
fn reads_the_pieces_in_order() {
    let mut transcript = ProofStream::new(sample_proof());
    let committed = Argument::read_commitments_before_y(&mut transcript).unwrap();
    let constructed: Constructed<Point> =
        committed.read_commitments_after_y(&key(3), &mut transcript).unwrap();
    assert_eq!(*constructed.h_commitments(), vec!["H0", "H1", "H2"]);
    assert_eq!(*constructed.random_poly_commitment(), "R");
    assert_eq!(transcript.remaining(), 1);
}

#[test]
fn reads_no_more_pieces_than_the_degree() {
    let mut transcript = ProofStream::new(sample_proof());
    let committed = Argument::read_commitments_before_y(&mut transcript).unwrap();
    let constructed = committed.read_commitments_after_y(&key(2), &mut transcript).unwrap();
    assert_eq!(*constructed.h_commitments(), vec!["H0", "H1"]);
    assert_eq!(transcript.remaining(), 2);
}

#[test]
fn reads_nothing_for_degree_zero() {
    let mut transcript = ProofStream::new(sample_proof());
    let committed = Argument::read_commitments_before_y(&mut transcript).unwrap();
    let constructed = committed.read_commitments_after_y(&key(0), &mut transcript).unwrap();
    assert!(constructed.h_commitments().is_empty());
    assert_eq!(transcript.remaining(), 4);
}

#[test]
fn too_few_pieces_fail() {
    let mut transcript = ProofStream::new(vec![point("R"), point("H0"), point("H1")]);
    let committed = Argument::read_commitments_before_y(&mut transcript).unwrap();
    let result = committed.read_commitments_after_y(&key(3), &mut transcript);
    assert!(matches!(result, Err(Error::Transcript)));
}

#[test]
fn a_scalar_among_the_pieces_fails() {
    let mut transcript =
        ProofStream::new(vec![point("R"), point("H0"), scalar(9), point("H2"), scalar(42)]);
    let committed = Argument::read_commitments_before_y(&mut transcript).unwrap();
    let result = committed.read_commitments_after_y(&key(3), &mut transcript);
    assert!(matches!(result, Err(Error::Transcript)));
}

#[test]
fn reads_the_random_evaluation() {
    let state = read_all(sample_proof(), 3);
    assert_eq!(state.random_eval(), Fp::new(42));
    assert_eq!(*state.h_commitments(), vec!["H0", "H1", "H2"]);
    assert_eq!(*state.random_poly_commitment(), "R");
}

#[test]
fn evaluation_read_fails_on_a_commitment() {
    let mut transcript = ProofStream::new(vec![point("R"), point("H0"), point("H1")]);
    let committed = Argument::read_commitments_before_y(&mut transcript).unwrap();
    let constructed = committed.read_commitments_after_y(&key(1), &mut transcript).unwrap();
    let result = constructed.evaluate_after_x(&mut transcript);
    assert!(matches!(result, Err(Error::Transcript)));
}

#[test]
fn evaluation_read_fails_at_the_end() {
    let mut transcript = ProofStream::new(vec![point("R"), point("H0")]);
    let committed = Argument::read_commitments_before_y(&mut transcript).unwrap();
    let constructed = committed.read_commitments_after_y(&key(1), &mut transcript).unwrap();
    let result = constructed.evaluate_after_x(&mut transcript);
    assert!(matches!(result, Err(Error::Transcript)));
}

#[test]
fn read_errors_pass_through_unchanged() {
    let mut transcript = Failing { good: 0, error: Error::Arithmetic };
    let result = Argument::read_commitments_before_y(&mut transcript);
    assert!(matches!(result, Err(Error::Arithmetic)));

    let mut transcript = Failing { good: 3, error: Error::Arithmetic };
    let committed = Argument::read_commitments_before_y(&mut transcript).unwrap();
    let result = committed.read_commitments_after_y(&key(3), &mut transcript);
    assert!(matches!(result, Err(Error::Arithmetic)));

    let mut transcript = Failing { good: 3, error: Error::Transcript };
    let committed = Argument::read_commitments_before_y(&mut transcript).unwrap();
    let constructed = committed.read_commitments_after_y(&key(2), &mut transcript).unwrap();
    assert_eq!(*constructed.h_commitments(), vec!["G", "G"]);
    let result = constructed.evaluate_after_x(&mut transcript);
    assert!(matches!(result, Err(Error::Transcript)));
}

#[test]
fn read_n_points_stops_at_the_first_failure() {
    let mut transcript = ProofStream::new(vec![point("A"), point("B"), scalar(1), point("C")]);
    let result = read_n_points::<Point, Fp, ProofStream<Point, Fp>>(&mut transcript, 2);
    assert_eq!(result.unwrap(), vec!["A", "B"]);
    assert_eq!(transcript.remaining(), 2);
    let result = read_n_points::<Point, Fp, ProofStream<Point, Fp>>(&mut transcript, 2);
    assert!(matches!(result, Err(Error::Transcript)));
}

#[test]
fn expected_evaluation_is_the_horner_fold_divided() {
    // ((0 * 10 + 3) * 10 + 5) * 10 + 7 = 357, and 357 / (4 - 1) = 119.
    let evaluated = evaluate(&[3, 5, 7], 10, 4).unwrap();
    assert_eq!(evaluated.expected_h_eval(), Fp::new(119));
    let y = Fp::new(10);
    let by_hand = ((Fp::zero() * y + Fp::new(3)) * y + Fp::new(5)) * y + Fp::new(7);
    assert_eq!(by_hand, Fp::new(357));
    assert_eq!(evaluated.expected_h_eval(), by_hand * inverse(4 - 1));
}

#[test]
fn expected_evaluation_where_the_quotient_is_not_whole() {
    // 357 / (6 - 1) in the field: 357 * 5^-1.
    let evaluated = evaluate(&[3, 5, 7], 10, 6).unwrap();
    assert_eq!(evaluated.expected_h_eval(), Fp::new(357) * inverse(5));
    assert_eq!(evaluated.expected_h_eval() * Fp::new(5), Fp::new(357));
    assert_eq!(evaluated.expected_h_eval(), Fp::new(1717986989));
}

#[test]
fn no_expressions_give_zero() {
    let evaluated = evaluate(&[], 10, 4).unwrap();
    assert_eq!(evaluated.expected_h_eval(), Fp::zero());
}

#[test]
fn one_expression_is_only_divided() {
    let evaluated = evaluate(&[36], 10, 4).unwrap();
    assert_eq!(evaluated.expected_h_eval(), Fp::new(12));
}

#[test]
fn order_of_expressions_matters() {
    let forward = evaluate(&[3, 5, 7], 10, 4).unwrap();
    let backward = evaluate(&[7, 5, 3], 10, 4).unwrap();
    assert_eq!(forward.expected_h_eval(), Fp::new(119));
    // ((7 * 10) + 5) * 10 + 3 = 753, and 753 / 3 = 251.
    assert_eq!(backward.expected_h_eval(), Fp::new(251));
    assert_ne!(forward.expected_h_eval(), backward.expected_h_eval());
}

#[test]
fn verify_is_deterministic() {
    let first = evaluate(&[3, 5, 7], 10, 6).unwrap();
    let second = evaluate(&[3, 5, 7], 10, 6).unwrap();
    assert_eq!(first.expected_h_eval(), second.expected_h_eval());
    assert_eq!(first.h_commitment().terms(), second.h_commitment().terms());
    assert_eq!(first.random_eval(), second.random_eval());
}

#[test]
fn evaluation_point_on_the_domain_is_rejected() {
    let result = evaluate(&[3, 5, 7], 10, 1);
    assert!(matches!(result, Err(Error::Arithmetic)));
    let result = evaluate(&[], 10, P + 1);
    assert!(matches!(result, Err(Error::Arithmetic)));
}

#[test]
fn pieces_fold_into_the_weighted_sum() {
    // The pieces [H0, H1, H2] stand for H0 + H1 * X + H2 * X^2; with X = 4 the
    // piece of highest degree comes first and weighs 16.
    let evaluated = evaluate(&[3, 5, 7], 10, 4).unwrap();
    let x = Fp::new(4);
    let expected = vec![(x * x, "H2"), (x, "H1"), (Fp::one(), "H0")];
    assert_eq!(*evaluated.h_commitment().terms(), expected);
    assert_eq!(
        *evaluated.h_commitment().terms(),
        vec![(Fp::new(16), "H2"), (Fp::new(4), "H1"), (Fp::new(1), "H0")]
    );
}

#[test]
fn pieces_fold_as_horner_steps() {
    // ((empty * X + H2) * X + H1) * X + H0, step by step on an accumulator.
    let x = Fp::new(5);
    let mut by_hand: Msm<Point, Fp> = Params::new(4).empty_msm();
    for piece in ["H2", "H1", "H0"] {
        by_hand.scale(x);
        by_hand.append_term(Fp::one(), piece);
    }
    let folded = fold_commitments(&Params::new(4), &vec!["H0", "H1", "H2"], x);
    assert_eq!(folded.terms(), by_hand.terms());
    assert_eq!(
        *folded.terms(),
        vec![(Fp::new(25), "H2"), (Fp::new(5), "H1"), (Fp::new(1), "H0")]
    );
}

#[test]
fn no_pieces_fold_into_the_empty_accumulator() {
    let folded: Msm<Point, Fp> = fold_commitments(&Params::new(4), &vec![], Fp::new(5));
    assert!(folded.terms().is_empty());
    let evaluated = read_all(vec![point("R"), scalar(42)], 0)
        .verify(&Params::new(4), values(&[8]).into_iter(), ChallengeY::new(Fp::new(2)), Fp::new(3))
        .unwrap();
    assert!(evaluated.h_commitment().terms().is_empty());
    assert_eq!(evaluated.expected_h_eval(), Fp::new(4));
}

#[test]
fn evaluated_carries_what_was_read() {
    let evaluated = evaluate(&[3, 5, 7], 10, 4).unwrap();
    assert_eq!(*evaluated.random_poly_commitment(), "R");
    assert_eq!(evaluated.random_eval(), Fp::new(42));
}

#[test]
fn expressions_are_taken_once_and_in_order() {
    let mut seen: Vec<u64> = Vec::new();
    let lazy = [3u64, 5, 7].into_iter().map(|v| {
        seen.push(v);
        Fp::new(v)
    });
    let folded = fold_expressions(lazy, Fp::new(10));
    assert_eq!(folded, Fp::new(357));
    assert_eq!(seen, vec![3, 5, 7]);
}

#[test]
fn fold_wraps_around_the_modulus() {
    // (P - 1) * 2 + 5 = 2P + 3, which is 3 in the field.
    let folded = fold_expressions(values(&[P - 1, 5]).into_iter(), Fp::new(2));
    assert_eq!(folded, Fp::new(3));
}

#[test]
fn accumulator_scales_every_term() {
    let mut msm: Msm<Point, Fp> = Msm::new();
    assert!(msm.terms().is_empty());
    msm.append_term(Fp::new(2), "A");
    msm.append_term(Fp::new(3), "B");
    msm.scale(Fp::new(7));
    assert_eq!(*msm.terms(), vec![(Fp::new(14), "A"), (Fp::new(21), "B")]);
    msm.append_term(Fp::new(1), "C");
    msm.scale(Fp::new(P - 1));
    assert_eq!(
        *msm.terms(),
        vec![(Fp::new(P - 14), "A"), (Fp::new(P - 21), "B"), (Fp::new(P - 1), "C")]
    );
}

#[test]
fn queries_state_the_two_openings() {
    let evaluated = evaluate(&[3, 5, 7], 10, 4).unwrap();
    let x = Fp::new(77);
    let queries: Vec<VerifierQuery<Point, Fp>> = evaluated.queries(ChallengeX::new(x));
    assert_eq!(queries.len(), 2);
    match queries[0].commitment {
        CommitmentReference::Msm(msm) => {
            assert_eq!(
                *msm.terms(),
                vec![(Fp::new(16), "H2"), (Fp::new(4), "H1"), (Fp::new(1), "H0")]
            );
        }
        CommitmentReference::Commitment(_) => panic!("the first query is about the accumulator"),
    }
    assert_eq!(queries[0].point, x);
    assert_eq!(queries[0].eval, Fp::new(119));
    match queries[1].commitment {
        CommitmentReference::Commitment(commitment) => assert_eq!(*commitment, "R"),
        CommitmentReference::Msm(_) => panic!("the second query is about a commitment"),
    }
    assert_eq!(queries[1].point, x);
    assert_eq!(queries[1].eval, Fp::new(42));
}

#[test]
fn queries_can_be_asked_again() {
    let evaluated = evaluate(&[3, 5, 7], 10, 4).unwrap();
    let first = evaluated.queries(ChallengeX::new(Fp::new(77)));
    let second = evaluated.queries(ChallengeX::new(Fp::new(77)));
    assert_eq!(first.len(), 2);
    assert_eq!(second.len(), 2);
    for (a, b) in first.iter().zip(second.iter()) {
        assert_eq!(a.point, b.point);
        assert_eq!(a.eval, b.eval);
    }
}

#[test]
fn a_changed_read_changes_the_queries() {
    let honest = evaluate(&[3, 5, 7], 10, 4).unwrap();

    let mut changed_piece = sample_proof();
    changed_piece[2] = point("H1'");
    let other = read_all(changed_piece, 3)
        .verify(&Params::new(4), values(&[3, 5, 7]).into_iter(), ChallengeY::new(Fp::new(10)), Fp::new(4))
        .unwrap();
    assert_ne!(honest.h_commitment().terms(), other.h_commitment().terms());

    let mut changed_eval = sample_proof();
    changed_eval[4] = scalar(43);
    let other = read_all(changed_eval, 3)
        .verify(&Params::new(4), values(&[3, 5, 7]).into_iter(), ChallengeY::new(Fp::new(10)), Fp::new(4))
        .unwrap();
    assert_ne!(honest.random_eval(), other.random_eval());

    let mut changed_random = sample_proof();
    changed_random[0] = point("R'");
    let other = read_all(changed_random, 3)
        .verify(&Params::new(4), values(&[3, 5, 7]).into_iter(), ChallengeY::new(Fp::new(10)), Fp::new(4))
        .unwrap();
    assert_ne!(honest.random_poly_commitment(), other.random_poly_commitment());
}

#[test]
fn challenges_hold_their_scalar() {
    assert_eq!(ChallengeX::new(Fp::new(5)).get(), Fp::new(5));
    assert_eq!(ChallengeY::new(Fp::new(6)).get(), Fp::new(6));
}

#[test]
fn key_gives_the_number_of_pieces() {
    assert_eq!(key(3).get_domain().get_quotient_poly_degree(), 3);
}

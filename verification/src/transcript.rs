//! Reading the prover's messages.
//!
//! A transcript hands out, in the order in which the prover wrote them, the
//! commitments and scalars of a proof.  The verifier never looks inside one: it
//! only asks for the next commitment or the next scalar.
use vstd::prelude::*;

verus! {

/// Why a verification run stopped.
#[derive(Clone, Copy, Debug, PartialEq, Eq, Structural)]
pub enum Error {
    /// The proof is truncated or malformed: the transcript could not supply what
    /// was asked of it.
    Transcript,
    /// The evaluation point lies on the evaluation domain, where the vanishing
    /// polynomial is zero and cannot be divided by.
    Arithmetic,
}

/// A sequential reader of commitments `C` and scalars `S`.
///
/// What a read returns, and what is left after it, depends on the reader's
/// state alone: `point` and `scalar` give the result of the next read of each
/// kind, `after_point` and `after_scalar` the reader that a successful read
/// leaves behind.  Nothing is said of a reader after a failed read.
///
/// These four describe the reader and are never run.  An implementation in
/// plain Rust still has to supply them as methods, and does well to make them
/// say what its reads do.
pub trait TranscriptRead<C, S>: Sized {
    /// What the next `read_point` returns.
    spec fn point(&self) -> Result<C, Error>;

    /// The reader after a successful `read_point`.
    spec fn after_point(&self) -> Self;

    /// What the next `read_scalar` returns.
    spec fn scalar(&self) -> Result<S, Error>;

    /// The reader after a successful `read_scalar`.
    spec fn after_scalar(&self) -> Self;

    /// Reads one commitment.
    fn read_point(&mut self) -> (r: Result<C, Error>)
        ensures
            r == old(self).point(),
            r is Ok ==> *final(self) == old(self).after_point(),
    ;

    /// Reads one scalar.
    fn read_scalar(&mut self) -> (r: Result<S, Error>)
        ensures
            r == old(self).scalar(),
            r is Ok ==> *final(self) == old(self).after_scalar(),
    ;
}

/// What reading `n` commitments in a row yields: all of them in the order
/// read, or the error of the first read that fails.
pub open spec fn read_points<C, S, T: TranscriptRead<C, S>>(t: T, n: nat) -> Result<Seq<C>, Error>
    decreases n,
{
    if n == 0 {
        Ok(Seq::empty())
    } else {
        match t.point() {
            Err(e) => Err(e),
            Ok(c) => match read_points::<C, S, T>(t.after_point(), (n - 1) as nat) {
                Err(e) => Err(e),
                Ok(rest) => Ok(seq![c] + rest),
            },
        }
    }
}

/// The reader after `n` successful reads of a commitment.
pub open spec fn after_points<C, S, T: TranscriptRead<C, S>>(t: T, n: nat) -> T
    decreases n,
{
    if n == 0 {
        t
    } else {
        after_points::<C, S, T>(t.after_point(), (n - 1) as nat)
    }
}

/// Reading `n` commitments succeeds exactly where each of the `n` reads does.
/// It then yields what they read, in order and never fewer than `n`; else it
/// yields the error of the first read that fails.
pub proof fn lemma_read_points_each<C, S, T: TranscriptRead<C, S>>(t: T, n: nat)
    ensures
        match read_points::<C, S, T>(t, n) {
            Ok(points) => {
                &&& points.len() == n
                &&& forall|k: int|
                    0 <= k < n ==> after_points::<C, S, T>(t, k as nat).point() == Ok::<C, Error>(
                        #[trigger] points[k],
                    )
            },
            Err(e) => exists|k: int|
                {
                    &&& 0 <= k < n
                    &&& #[trigger] after_points::<C, S, T>(t, k as nat).point() == Err::<C, Error>(e)
                    &&& forall|j: int|
                        0 <= j < k ==> (#[trigger] after_points::<C, S, T>(t, j as nat)).point() is Ok
                },
        },
    decreases n,
{
    if n > 0 {
        let next = t.after_point();
        let m = (n - 1) as nat;
        lemma_read_points_each::<C, S, T>(next, m);
        match t.point() {
            Err(e) => {
                let first: int = 0;
                assert(after_points::<C, S, T>(t, first as nat).point() == Err::<C, Error>(e));
            },
            Ok(c) => {
                match read_points::<C, S, T>(next, m) {
                    Ok(rest) => {
                        let points = seq![c] + rest;
                        assert forall|k: int| 0 <= k < n implies after_points::<C, S, T>(
                            t,
                            k as nat,
                        ).point() == Ok::<C, Error>(#[trigger] points[k]) by {
                            if k > 0 {
                                assert(after_points::<C, S, T>(t, k as nat) == after_points::<C, S, T>(
                                    next,
                                    (k - 1) as nat,
                                ));
                            }
                        }
                    },
                    Err(e) => {
                        let inner = choose|k: int|
                            {
                                &&& 0 <= k < m
                                &&& #[trigger] after_points::<C, S, T>(next, k as nat).point() == Err::<
                                    C,
                                    Error,
                                >(e)
                                &&& forall|j: int|
                                    0 <= j < k ==> (#[trigger] after_points::<C, S, T>(
                                        next,
                                        j as nat,
                                    )).point() is Ok
                            };
                        let outer = inner + 1;
                        assert(after_points::<C, S, T>(t, outer as nat) == after_points::<C, S, T>(
                            next,
                            inner as nat,
                        ));
                        assert forall|j: int| 0 <= j < outer implies (#[trigger] after_points::<
                            C,
                            S,
                            T,
                        >(t, j as nat)).point() is Ok by {
                            if j > 0 {
                                assert(after_points::<C, S, T>(t, j as nat) == after_points::<C, S, T>(
                                    next,
                                    (j - 1) as nat,
                                ));
                            }
                        }
                        assert(after_points::<C, S, T>(t, outer as nat).point() == Err::<C, Error>(e));
                    },
                }
            },
        }
    }
}

/// Reads `n` commitments, stopping at the first read that fails.
pub fn read_n_points<C, S, T: TranscriptRead<C, S>>(transcript: &mut T, n: usize) -> (r: Result<
    Vec<C>,
    Error,
>)
    ensures
        match r {
            Ok(points) => {
                &&& read_points::<C, S, T>(*old(transcript), n as nat) == Ok::<Seq<C>, Error>(points@)
                &&& points@.len() == n
                &&& *final(transcript) == after_points::<C, S, T>(*old(transcript), n as nat)
            },
            Err(e) => read_points::<C, S, T>(*old(transcript), n as nat) == Err::<Seq<C>, Error>(e),
        },
{
    let ghost start = *transcript;
    let mut points: Vec<C> = Vec::new();
    let mut i: usize = 0;
    while i < n
        invariant
            start == *old(transcript),
            i <= n,
            points@.len() == i,
            read_points::<C, S, T>(start, n as nat) == (match read_points::<C, S, T>(
                *transcript,
                (n - i) as nat,
            ) {
                Ok(rest) => Ok::<Seq<C>, Error>(points@ + rest),
                Err(e) => Err(e),
            }),
            after_points::<C, S, T>(start, n as nat) == after_points::<C, S, T>(
                *transcript,
                (n - i) as nat,
            ),
        decreases n - i,
    {
        let ghost sofar = points@;
        match transcript.read_point() {
            Ok(c) => {
                points.push(c);
                i = i + 1;
                proof {
                    match read_points::<C, S, T>(*transcript, (n - i) as nat) {
                        Ok(rest) => {
                            assert(sofar + (seq![c] + rest) =~= points@ + rest);
                        },
                        Err(e) => {},
                    }
                }
            },
            Err(e) => {
                return Err(e);
            },
        }
    }
    Ok(points)
}

/// One element of a proof, as the prover wrote it.
#[derive(Clone, Copy, Debug)]
pub enum ProofElement<C, S> {
    /// A commitment.
    Point(C),
    /// A scalar.
    Scalar(S),
}

/// A transcript over the elements of a proof that were decoded beforehand.
///
/// A read succeeds where the next element is of the kind asked for, and moves
/// past it; it fails with `Error::Transcript` where the next element is of the
/// other kind or the proof has ended.
pub struct ProofStream<C, S> {
    elements: Vec<ProofElement<C, S>>,
    position: usize,
}

impl<C, S> View for ProofStream<C, S> {
    type V = Seq<ProofElement<C, S>>;

    /// The elements that have not been read yet.
    closed spec fn view(&self) -> Seq<ProofElement<C, S>> {
        if self.position <= self.elements@.len() {
            self.elements@.skip(self.position as int)
        } else {
            Seq::empty()
        }
    }
}

impl<C: Copy, S: Copy> ProofStream<C, S> {
    /// A transcript that hands out `elements` from the first on.
    pub fn new(elements: Vec<ProofElement<C, S>>) -> (r: Self)
        ensures
            r@ == elements@,
    {
        ProofStream { elements, position: 0 }
    }

    /// The number of elements that have not been read yet.
    pub fn remaining(&self) -> (r: usize)
        ensures
            r == self@.len(),
    {
        if self.position <= self.elements.len() {
            self.elements.len() - self.position
        } else {
            0
        }
    }
}

impl<C: Copy, S: Copy> TranscriptRead<C, S> for ProofStream<C, S> {
    open spec fn point(&self) -> Result<C, Error> {
        if self@.len() > 0 && self@[0] is Point {
            Ok(self@[0]->Point_0)
        } else {
            Err(Error::Transcript)
        }
    }

    closed spec fn after_point(&self) -> Self {
        ProofStream { elements: self.elements, position: (self.position + 1) as usize }
    }

    open spec fn scalar(&self) -> Result<S, Error> {
        if self@.len() > 0 && self@[0] is Scalar {
            Ok(self@[0]->Scalar_0)
        } else {
            Err(Error::Transcript)
        }
    }

    closed spec fn after_scalar(&self) -> Self {
        ProofStream { elements: self.elements, position: (self.position + 1) as usize }
    }

    fn read_point(&mut self) -> (r: Result<C, Error>) {
        if self.position < self.elements.len() {
            match self.elements[self.position] {
                ProofElement::Point(point) => {
                    self.position = self.position + 1;
                    Ok(point)
                },
                ProofElement::Scalar(_) => Err(Error::Transcript),
            }
        } else {
            Err(Error::Transcript)
        }
    }

    fn read_scalar(&mut self) -> (r: Result<S, Error>) {
        if self.position < self.elements.len() {
            match self.elements[self.position] {
                ProofElement::Scalar(scalar) => {
                    self.position = self.position + 1;
                    Ok(scalar)
                },
                ProofElement::Point(_) => Err(Error::Transcript),
            }
        } else {
            Err(Error::Transcript)
        }
    }
}

/// A successful read from a `ProofStream` moves past one element.
pub proof fn lemma_stream_reads_advance<C: Copy, S: Copy>(stream: ProofStream<C, S>)
    ensures
        stream.point() is Ok ==> stream.after_point()@ == stream@.drop_first(),
        stream.scalar() is Ok ==> stream.after_scalar()@ == stream@.drop_first(),
{
    if stream@.len() > 0 {
        assert(stream.position < stream.elements.len());
        assert(stream.after_point()@ =~= stream@.drop_first());
        assert(stream.after_scalar()@ =~= stream@.drop_first());
    }
}

/// Reading `n` commitments from a `ProofStream` succeeds exactly where its
/// next `n` elements are there and are commitments; it then yields them in
/// order and moves past them.  A stream that holds fewer fails.
pub proof fn lemma_stream_read_points<C: Copy, S: Copy>(stream: ProofStream<C, S>, n: nat)
    ensures
        match read_points::<C, S, ProofStream<C, S>>(stream, n) {
            Ok(points) => {
                &&& n <= stream@.len()
                &&& points.len() == n
                &&& forall|k: int|
                    0 <= k < n ==> #[trigger] stream@[k] == ProofElement::<C, S>::Point(points[k])
                &&& after_points::<C, S, ProofStream<C, S>>(stream, n)@ == stream@.skip(n as int)
            },
            Err(e) => {
                &&& e == Error::Transcript
                &&& stream@.len() < n || exists|k: int| 0 <= k < n && #[trigger] stream@[k] is Scalar
            },
        },
    decreases n,
{
    if n > 0 {
        match stream.point() {
            Err(e) => {
                if stream@.len() > 0 {
                    assert(stream@[0] is Scalar);
                }
            },
            Ok(c) => {
                let next = stream.after_point();
                let m = (n - 1) as nat;
                lemma_stream_reads_advance(stream);
                lemma_stream_read_points(next, m);
                match read_points::<C, S, ProofStream<C, S>>(next, m) {
                    Ok(rest) => {
                        let points = seq![c] + rest;
                        assert forall|k: int| 0 <= k < n implies #[trigger] stream@[k]
                            == ProofElement::<C, S>::Point(points[k]) by {
                            if k > 0 {
                                assert(next@[k - 1] == stream@[k]);
                            }
                        }
                    },
                    Err(e) => {
                        if next@.len() >= m {
                            let inner = choose|k: int| 0 <= k < m && #[trigger] next@[k] is Scalar;
                            assert(stream@[inner + 1] == next@[inner]);
                        }
                    },
                }
            },
        }
    }
}

} // verus!

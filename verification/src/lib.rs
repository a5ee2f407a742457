use vstd::prelude::*;

verus! {

/// An instance is associated with a specific invocation of an operation that
/// offers a strong exception safety guarantee: all fallible work happens in a
/// read-only phase, and state is mutated only in a phase that cannot fail.
/// Implementers are encouraged to hold the arguments of the invocation as
/// members, so that once a value exists, no further external input is needed.
///
/// The two phases are pinned down by the spec functions `may_fail_spec` and
/// `commit_spec`: every implementation's executable phases must return exactly
/// what those spec functions say, which in particular rules out any hidden
/// dependence on mutable state.
pub trait Invocation: Sized {
    /// The failure type produced by the fallible phase.
    type Error;

    /// The result type produced by successful completion.
    type Output;

    /// The value computed by the fallible phase and handed to the commit
    /// phase; it carries everything the commit phase needs, so that the
    /// commit phase itself cannot fail.
    type IntermediateState;

    /// What the fallible phase returns for this invocation: either the
    /// intermediate state that the commit phase needs, or the error.
    spec fn may_fail_spec(&self) -> Result<Self::IntermediateState, Self::Error>;

    /// The output that committing this invocation with a given intermediate
    /// state produces. It is defined for every intermediate state, so the
    /// commit phase has no way to fail.
    spec fn commit_spec(self, tmp: Self::IntermediateState) -> Self::Output;

    /// The fallible phase: performs all validation and any fallible work,
    /// with read-only access to the held input, and must not commit any
    /// application state.
    fn may_fail(&self) -> (r: Result<Self::IntermediateState, Self::Error>)
        ensures
            r == self.may_fail_spec(),
    ;

    /// The commit phase: consumes the invocation together with the
    /// intermediate state computed by `may_fail`, applies the state change,
    /// and produces the output. Infallible by contract.
    fn commit(self, tmp: Self::IntermediateState) -> (out: Self::Output)
        ensures
            out == self.commit_spec(tmp),
    ;

    /// Runs the fallible phase first; if it fails, returns that error at once,
    /// without calling `commit`, so the invocation is discarded with no side
    /// effects. If it succeeds, ownership of the invocation moves into
    /// `commit` together with the intermediate state, and the output is
    /// returned wrapped in success. No state mutation can occur unless
    /// success of the fallible phase is already certain, so the operation is
    /// either fully applied or not applied at all.
    fn execute(self) -> (r: Result<Self::Output, Self::Error>)
        ensures
            r == (match self.may_fail_spec() {
                Ok(tmp) => Ok::<Self::Output, Self::Error>(self.commit_spec(tmp)),
                Err(e) => Err(e),
            }),
    {
        match self.may_fail() {
            Ok(tmp) => Ok(self.commit(tmp)),
            Err(e) => Err(e),
        }
    }
}

/// The result that executing an invocation must produce: the fallible phase's
/// error if that phase fails, and otherwise the output of committing with the
/// intermediate state the fallible phase computed.
pub open spec fn execute_spec<F: Invocation>(f: F) -> Result<F::Output, F::Error> {
    match f.may_fail_spec() {
        Ok(tmp) => Ok(f.commit_spec(tmp)),
        Err(e) => Err(e),
    }
}

/// Chains two invocations while maintaining the strong exception safety
/// guarantee. This only works if the error types of both invocations are
/// identical. The pair's fallible phase runs the elements' fallible phases
/// left to right and short-circuits on the first error; its commit phase
/// commits both elements in order. Because a pair is itself an invocation,
/// pairs can be nested to chain arbitrarily many invocations.
impl<F1, F2> Invocation for (F1, F2) where
    F1: Invocation,
    F2: Invocation<Error = F1::Error>,
 {
    type Error = F1::Error;

    type Output = (F1::Output, F2::Output);

    type IntermediateState = (F1::IntermediateState, F2::IntermediateState);

    open spec fn may_fail_spec(&self) -> Result<Self::IntermediateState, Self::Error> {
        match self.0.may_fail_spec() {
            Ok(s1) => match self.1.may_fail_spec() {
                Ok(s2) => Ok((s1, s2)),
                Err(e) => Err(e),
            },
            Err(e) => Err(e),
        }
    }

    open spec fn commit_spec(self, tmp: Self::IntermediateState) -> Self::Output {
        (self.0.commit_spec(tmp.0), self.1.commit_spec(tmp.1))
    }

    fn may_fail(&self) -> (r: Result<Self::IntermediateState, Self::Error>) {
        match self.0.may_fail() {
            Ok(s1) => match self.1.may_fail() {
                Ok(s2) => Ok((s1, s2)),
                Err(e) => Err(e),
            },
            Err(e) => Err(e),
        }
    }

    fn commit(self, tmp: Self::IntermediateState) -> (out: Self::Output) {
        let (f1, f2) = self;
        let (t1, t2) = tmp;
        (f1.commit(t1), f2.commit(t2))
    }
}

/// Atomicity: for any invocation whose fallible phase fails, executing it
/// produces exactly the returned error. The commit phase plays no part in the
/// result, so no state change has occurred.
pub proof fn lemma_atomicity<F: Invocation>(f: F, e: F::Error)
    requires
        f.may_fail_spec() == Err::<F::IntermediateState, F::Error>(e),
    ensures
        execute_spec(f) == Err::<F::Output, F::Error>(e),
{
}

/// Success passthrough: for an invocation whose fallible phase succeeds with
/// intermediate state `s`, executing it produces success with exactly the
/// output of committing the invocation with `s`.
pub proof fn lemma_success_passthrough<F: Invocation>(f: F, s: F::IntermediateState)
    requires
        f.may_fail_spec() == Ok::<F::IntermediateState, F::Error>(s),
    ensures
        execute_spec(f) == Ok::<F::Output, F::Error>(f.commit_spec(s)),
{
}

/// Pair short-circuit: if the first element's fallible phase fails with `e`,
/// executing the pair produces exactly `e`, whatever the second element would
/// do; neither element's commit phase contributes to the result.
pub proof fn lemma_pair_short_circuit_first<F1, F2>(p: (F1, F2), e: F1::Error) where
    F1: Invocation,
    F2: Invocation<Error = F1::Error>,
    requires
        p.0.may_fail_spec() == Err::<F1::IntermediateState, F1::Error>(e),
    ensures
        execute_spec(p) == Err::<(F1::Output, F2::Output), F1::Error>(e),
{
}

/// Pair short-circuit symmetry: if the first element's fallible phase
/// succeeds and the second element's fails with `e`, executing the pair
/// produces exactly `e`; the first element's intermediate state is discarded
/// and neither element's commit phase contributes to the result.
pub proof fn lemma_pair_short_circuit_second<F1, F2>(p: (F1, F2), e: F1::Error) where
    F1: Invocation,
    F2: Invocation<Error = F1::Error>,
    requires
        p.0.may_fail_spec() is Ok,
        p.1.may_fail_spec() == Err::<F2::IntermediateState, F1::Error>(e),
    ensures
        execute_spec(p) == Err::<(F1::Output, F2::Output), F1::Error>(e),
{
}

/// Pair success: if both elements' fallible phases succeed, executing the
/// pair produces success with the pair of both elements' outputs, first
/// element's first.
pub proof fn lemma_pair_success<F1, F2>(
    p: (F1, F2),
    s1: F1::IntermediateState,
    s2: F2::IntermediateState,
) where
    F1: Invocation,
    F2: Invocation<Error = F1::Error>,
    requires
        p.0.may_fail_spec() == Ok::<F1::IntermediateState, F1::Error>(s1),
        p.1.may_fail_spec() == Ok::<F2::IntermediateState, F1::Error>(s2),
    ensures
        execute_spec(p) == Ok::<(F1::Output, F2::Output), F1::Error>(
            (p.0.commit_spec(s1), p.1.commit_spec(s2)),
        ),
{
}

/// An invocation with no meaningful input that always succeeds, with `42` as
/// its output. Not a realistic use case — an operation that cannot fail needs
/// no two-phase protocol — but it shows how little it takes to implement the
/// simplest invocation.
pub struct Constant;

/// The intermediate state of `Constant`: the commit phase needs nothing, so
/// this carries nothing.
pub struct DummyState;

impl Invocation for Constant {
    type Error = ();

    type Output = i32;

    type IntermediateState = DummyState;

    open spec fn may_fail_spec(&self) -> Result<DummyState, ()> {
        Ok(DummyState)
    }

    open spec fn commit_spec(self, tmp: DummyState) -> i32 {
        42
    }

    fn may_fail(&self) -> (r: Result<DummyState, ()>) {
        Ok(DummyState)
    }

    fn commit(self, _tmp: DummyState) -> (out: i32) {
        42
    }
}

/// Passes its argument through unchanged. The argument is held by ownership
/// and moved out by the commit phase, so any value works, including one that
/// cannot be copied and does not live forever.
pub struct Identity<A>(pub A);

impl<A> Identity<A> {
    /// Wraps `arg` as the invocation's held input.
    pub fn new(arg: A) -> (r: Self)
        ensures
            r.0 == arg,
    {
        Identity(arg)
    }
}

impl<A> Invocation for Identity<A> {
    type Error = ();

    type Output = A;

    type IntermediateState = ();

    open spec fn may_fail_spec(&self) -> Result<(), ()> {
        Ok(())
    }

    open spec fn commit_spec(self, tmp: ()) -> A {
        self.0
    }

    fn may_fail(&self) -> (r: Result<(), ()>) {
        Ok(())
    }

    fn commit(self, _tmp: ()) -> (out: A) {
        self.0
    }
}

/// Move-only input support: executing a pass-through invocation produces
/// success with exactly the wrapped value, unchanged, for every value.
pub proof fn lemma_identity_passthrough<A>(inv: Identity<A>)
    ensures
        execute_spec(inv) == Ok::<A, ()>(inv.0),
{
}

} // verus!

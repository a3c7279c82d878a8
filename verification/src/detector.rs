use vstd::prelude::*;

verus! {

/// The unified error of the detect-and-accept pipeline; the variant says
/// which stage failed, the payload carries that stage's cause verbatim.
#[derive(Clone, Debug, PartialEq, Eq)]
pub enum AcceptError<E> {
    /// The detection strategy failed.
    Detection(E),
    /// The inner acceptor never became ready.
    Readiness(E),
    /// The inner acceptor was invoked and failed.
    AcceptCall(E),
}

/// Layer that wraps an acceptor with a detection strategy.
#[derive(Clone, Debug)]
pub struct AcceptLayer<D> {
    detect: D,
}

/// Detection-and-accept service: runs the strategy's detection and the inner
/// acceptor's readiness concurrently, cancelling the loser of a failure, and
/// only then hands the detected target and stream to the acceptor.
#[derive(Clone, Debug)]
pub struct Accept<D, A> {
    detect: D,
    accept: A,
}

impl<D> AcceptLayer<D> {
    pub closed spec fn spec_detect(self) -> D {
        self.detect
    }

    pub fn new(detect: D) -> (s: Self)
        ensures
            s.spec_detect() == detect,
    {
        AcceptLayer { detect }
    }
}

impl<D: Clone> AcceptLayer<D> {
    /// Wrap an acceptor; the detection strategy is cloned into the service.
    pub fn layer<A>(&self, accept: A) -> (s: Accept<D, A>)
        ensures
            s.spec_accept() == accept,
    {
        Accept::new(self.detect.clone(), accept)
    }
}

impl<D: Clone, A> Accept<D, A> {
    pub closed spec fn spec_detect(self) -> D {
        self.detect
    }

    pub closed spec fn spec_accept(self) -> A {
        self.accept
    }

    pub fn new(detect: D, accept: A) -> (s: Self)
        ensures
            s.spec_detect() == detect,
            s.spec_accept() == accept,
    {
        Accept { detect, accept }
    }
}

/// One branch's completion, as the per-connection task observes it.
#[derive(Debug, PartialEq, Eq)]
pub enum RaceEvent<T, E> {
    /// The detection strategy finished, with its target or its failure.
    Detected(Result<T, E>),
    /// The acceptor's readiness check finished.
    Ready(Result<(), E>),
}

/// Progress of the race between protocol detection and acceptor readiness.
#[derive(Debug, PartialEq, Eq)]
pub enum RaceState<T, E> {
    /// Neither branch has settled.
    Running,
    /// Detection succeeded; readiness is still pending.
    Detected(T),
    /// The acceptor is ready; detection is still pending.
    Ready,
    /// Terminal: either both branches succeeded, or the first failure won
    /// and the still-pending branch was cancelled unobserved.
    Resolved(Result<T, AcceptError<E>>),
}

/// Which events a state still consumes: each branch settles at most once,
/// and a resolved race consumes nothing.
pub open spec fn spec_race_accepts<T, E>(s: RaceState<T, E>, ev: RaceEvent<T, E>) -> bool {
    match s {
        RaceState::Running => true,
        RaceState::Detected(_) => ev matches RaceEvent::Ready(_),
        RaceState::Ready => ev matches RaceEvent::Detected(_),
        RaceState::Resolved(_) => false,
    }
}

/// The race's transition on one settled branch: a success is recorded and
/// waits for the other branch; a failure resolves the race at that very
/// step, under the failing stage's tag.
pub open spec fn spec_race_step<T, E>(s: RaceState<T, E>, ev: RaceEvent<T, E>) -> RaceState<T, E> {
    match (s, ev) {
        (RaceState::Running, RaceEvent::Detected(Ok(t))) => RaceState::Detected(t),
        (RaceState::Running, RaceEvent::Detected(Err(e))) => RaceState::Resolved(
            Err(AcceptError::Detection(e)),
        ),
        (RaceState::Running, RaceEvent::Ready(Ok(_))) => RaceState::Ready,
        (RaceState::Running, RaceEvent::Ready(Err(e))) => RaceState::Resolved(
            Err(AcceptError::Readiness(e)),
        ),
        (RaceState::Detected(t), RaceEvent::Ready(Ok(_))) => RaceState::Resolved(Ok(t)),
        (RaceState::Detected(_), RaceEvent::Ready(Err(e))) => RaceState::Resolved(
            Err(AcceptError::Readiness(e)),
        ),
        (RaceState::Ready, RaceEvent::Detected(Ok(t))) => RaceState::Resolved(Ok(t)),
        (RaceState::Ready, RaceEvent::Detected(Err(e))) => RaceState::Resolved(
            Err(AcceptError::Detection(e)),
        ),
        (s0, _) => s0,
    }
}

/// Advance the race on one settled branch.
pub fn race_step<T, E>(s: RaceState<T, E>, ev: RaceEvent<T, E>) -> (r: RaceState<T, E>)
    requires
        spec_race_accepts(s, ev),
    ensures
        r == spec_race_step(s, ev),
{
    match (s, ev) {
        (RaceState::Running, RaceEvent::Detected(Ok(t))) => RaceState::Detected(t),
        (RaceState::Running, RaceEvent::Detected(Err(e))) => RaceState::Resolved(
            Err(AcceptError::Detection(e)),
        ),
        (RaceState::Running, RaceEvent::Ready(Ok(_))) => RaceState::Ready,
        (RaceState::Running, RaceEvent::Ready(Err(e))) => RaceState::Resolved(
            Err(AcceptError::Readiness(e)),
        ),
        (RaceState::Detected(t), RaceEvent::Ready(Ok(_))) => RaceState::Resolved(Ok(t)),
        (RaceState::Detected(_), RaceEvent::Ready(Err(e))) => RaceState::Resolved(
            Err(AcceptError::Readiness(e)),
        ),
        (RaceState::Ready, RaceEvent::Detected(Ok(t))) => RaceState::Resolved(Ok(t)),
        (RaceState::Ready, RaceEvent::Detected(Err(e))) => RaceState::Resolved(
            Err(AcceptError::Detection(e)),
        ),
        (s0, _) => s0,
    }
}

/// Once both branches have succeeded the acceptor itself is invoked; its
/// outcome is the pipeline's, a failure tagged as the call stage's.
pub fn accept_call_result<R, E>(res: Result<R, E>) -> (r: Result<R, AcceptError<E>>)
    ensures
        res matches Ok(v) ==> r == Result::<R, AcceptError<E>>::Ok(v),
        res matches Err(e) ==> r == Result::<R, AcceptError<E>>::Err(AcceptError::AcceptCall(e)),
{
    match res {
        Ok(v) => Ok(v),
        Err(e) => Err(AcceptError::AcceptCall(e)),
    }
}

/// Race cancellation: a branch that fails while the other is still pending
/// resolves the race at that very step, with the failing stage's error; the
/// pending branch's eventual result is never consumed — a resolved race
/// accepts no further event — so the call returns at the failure's time, not
/// the slower branch's.
pub proof fn lemma_race_cancellation<T, E>(e: E)
    ensures
        spec_race_step(
            RaceState::<T, E>::Running,
            RaceEvent::<T, E>::Detected(Err(e)),
        ) == RaceState::<T, E>::Resolved(Err(AcceptError::Detection(e))),
        spec_race_step(RaceState::<T, E>::Running, RaceEvent::<T, E>::Ready(Err(e)))
            == RaceState::<T, E>::Resolved(Err(AcceptError::Readiness(e))),
        forall|ev: RaceEvent<T, E>|
            !spec_race_accepts(RaceState::<T, E>::Resolved(Err(AcceptError::Detection(e))), ev),
{
}

} // verus!

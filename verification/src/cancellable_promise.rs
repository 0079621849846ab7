//! The race between a pending operation and a cancellation signal.
//!
//! [`make`] couples the two. What happens afterwards reaches the result as
//! events, and the first event settles it: a signal that fires first makes
//! the outcome [`Outcome::Aborted`], an operation that finishes first hands on
//! its own result. Every later event is discarded.

use crate::signal::{AbortSignal, SignalState};
use vstd::prelude::*;

verus! {

/// The message with which an aborted operation is rejected.
pub const ABORT_MESSAGE: &'static str = "Request has been aborted";

/// How a cancellable operation ended.
#[derive(Debug, PartialEq, Eq)]
pub enum Outcome<T, E> {
    /// The operation finished with a value.
    Success(T),
    /// The operation finished with an error of its own.
    Failure(E),
    /// The signal fired before the operation finished.
    Aborted,
}

/// Something that can happen to a cancellable operation.
#[derive(Debug, PartialEq, Eq)]
pub enum Event<T, E> {
    /// The cancellation signal fired.
    Abort,
    /// The operation finished with a value.
    Resolve(T),
    /// The operation finished with an error.
    Reject(E),
}

impl<T, E> Event<T, E> {
    /// The outcome that the event gives to an operation that it settles.
    pub open spec fn outcome(self) -> Outcome<T, E> {
        match self {
            Event::Abort => Outcome::Aborted,
            Event::Resolve(value) => Outcome::Success(value),
            Event::Reject(error) => Outcome::Failure(error),
        }
    }
}

/// The outcome of an operation that finished with `result`.
pub open spec fn outcome_of<T, E>(result: Result<T, E>) -> Outcome<T, E> {
    match result {
        Ok(value) => Outcome::Success(value),
        Err(error) => Outcome::Failure(error),
    }
}

/// A user computation in flight: pending, or finished with its result.
#[derive(Debug)]
pub struct Promise<T, E> {
    result: Option<Result<T, E>>,
}

impl<T, E> View for Promise<T, E> {
    type V = Option<Result<T, E>>;

    closed spec fn view(&self) -> Option<Result<T, E>> {
        self.result
    }
}

impl<T, E> Promise<T, E> {
    /// A computation that has not finished.
    pub fn pending() -> (p: Promise<T, E>)
        ensures
            p@.is_none(),
    {
        Promise { result: None }
    }

    /// A computation that finished with `value`.
    pub fn resolved(value: T) -> (p: Promise<T, E>)
        ensures
            p@ == Some(Ok::<T, E>(value)),
    {
        Promise { result: Some(Ok(value)) }
    }

    /// A computation that failed with `error`.
    pub fn rejected(error: E) -> (p: Promise<T, E>)
        ensures
            p@ == Some(Err::<T, E>(error)),
    {
        Promise { result: Some(Err(error)) }
    }

    /// Whether the computation has finished.
    pub fn is_settled(&self) -> (settled: bool)
        ensures
            settled == self@.is_some(),
    {
        self.result.is_some()
    }

    /// Records that the computation finished with `result`. Only the first
    /// result counts: the call returns whether it was this one.
    pub fn settle(&mut self, result: Result<T, E>) -> (first: bool)
        ensures
            first == old(self)@.is_none(),
            final(self)@ == if first {
                Some(result)
            } else {
                old(self)@
            },
    {
        if self.result.is_none() {
            self.result = Some(result);
            true
        } else {
            false
        }
    }
}

/// What a cancellable operation is at one instant.
pub struct RaceState<T, E> {
    /// The signal that the operation races against.
    pub signal: SignalState,
    /// How the race ended, once it has.
    pub outcome: Option<Outcome<T, E>>,
}

impl<T, E> RaceState<T, E> {
    /// The operation listens to its signal exactly as long as it is pending.
    pub open spec fn wf(self) -> bool {
        &&& self.signal.wf()
        &&& self.outcome.is_none() <==> self.signal.subscribed
    }

    /// The race that [`make`] sets up between `signal` and an operation in
    /// the state `p`.
    pub open spec fn start(signal: SignalState, p: Option<Result<T, E>>) -> RaceState<T, E> {
        if signal.aborted {
            RaceState { signal: signal.unsubscribe(), outcome: Some(Outcome::Aborted) }
        } else {
            match p {
                Some(result) => RaceState {
                    signal: signal.unsubscribe(),
                    outcome: Some(outcome_of(result)),
                },
                None => RaceState { signal: signal.subscribe(), outcome: None },
            }
        }
    }

    /// Whether the next event is the one that settles the race.
    pub open spec fn is_pending(self) -> bool {
        self.outcome.is_none()
    }

    /// The race after `event`. A pending race takes the event's outcome and
    /// gives up its callback. A settled race keeps its outcome; of a signal
    /// that fires late it only records that it fired.
    pub open spec fn settle(self, event: Event<T, E>) -> RaceState<T, E> {
        if self.is_pending() {
            RaceState {
                signal: if event is Abort {
                    self.signal.fire()
                } else {
                    self.signal.unsubscribe()
                },
                outcome: Some(event.outcome()),
            }
        } else {
            RaceState {
                signal: if event is Abort {
                    self.signal.fire()
                } else {
                    self.signal
                },
                outcome: self.outcome,
            }
        }
    }

    /// The race after the events of `events`, in their order.
    pub open spec fn settle_all(self, events: Seq<Event<T, E>>) -> RaceState<T, E>
        decreases events.len(),
    {
        if events.len() == 0 {
            self
        } else {
            self.settle_all(events.drop_last()).settle(events.last())
        }
    }
}

/// An operation coupled to a cancellation signal.
#[derive(Debug)]
pub struct CancellablePromise<T, E> {
    signal: AbortSignal,
    outcome: Option<Outcome<T, E>>,
}

impl<T, E> View for CancellablePromise<T, E> {
    type V = RaceState<T, E>;

    closed spec fn view(&self) -> RaceState<T, E> {
        RaceState { signal: self.signal@, outcome: self.outcome }
    }
}

impl<T, E> CancellablePromise<T, E> {
    #[verifier::type_invariant]
    pub closed spec fn inv(self) -> bool {
        self@.wf()
    }

    /// How the race ended, or `None` while it is pending.
    pub fn outcome(&self) -> (outcome: &Option<Outcome<T, E>>)
        ensures
            *outcome == self@.outcome,
    {
        &self.outcome
    }

    /// Whether the race has ended.
    pub fn is_settled(&self) -> (settled: bool)
        ensures
            settled == !self@.is_pending(),
    {
        self.outcome.is_some()
    }

    /// The signal that the operation races against. Its callback is
    /// registered exactly while the race is pending.
    pub fn signal(&self) -> (signal: &AbortSignal)
        ensures
            signal@ == self@.signal,
            self@.wf(),
    {
        proof {
            use_type_invariant(self);
        }
        &self.signal
    }

    /// Ends the race for good and hands out how it ended.
    pub fn into_outcome(self) -> (outcome: Option<Outcome<T, E>>)
        ensures
            outcome == self@.outcome,
    {
        self.outcome
    }

    /// The signal fired. Shorthand for [`Event::Abort`].
    pub fn abort(&mut self) -> (settled: bool)
        ensures
            settled == old(self)@.is_pending(),
            final(self)@ == old(self)@.settle(Event::Abort),
    {
        self.settle(Event::Abort)
    }

    /// The operation finished with `value`. Shorthand for [`Event::Resolve`].
    pub fn resolve(&mut self, value: T) -> (settled: bool)
        ensures
            settled == old(self)@.is_pending(),
            final(self)@ == old(self)@.settle(Event::Resolve(value)),
    {
        self.settle(Event::Resolve(value))
    }

    /// The operation failed with `error`. Shorthand for [`Event::Reject`].
    pub fn reject(&mut self, error: E) -> (settled: bool)
        ensures
            settled == old(self)@.is_pending(),
            final(self)@ == old(self)@.settle(Event::Reject(error)),
    {
        self.settle(Event::Reject(error))
    }

    /// Delivers `event`. Returns whether the event settled the race; an event
    /// that comes after the first is discarded and the call returns `false`.
    pub fn settle(&mut self, event: Event<T, E>) -> (settled: bool)
        ensures
            settled == old(self)@.is_pending(),
            final(self)@ == old(self)@.settle(event),
    {
        proof {
            use_type_invariant(&*self);
        }
        let mut signal: AbortSignal = self.signal;
        let pending: bool = match &self.outcome {
            Some(_) => false,
            None => true,
        };
        match event {
            Event::Abort => {
                signal.fire();
                if pending {
                    *self = CancellablePromise { signal, outcome: Some(Outcome::Aborted) };
                } else {
                    self.signal = signal;
                }
            },
            Event::Resolve(value) => {
                if pending {
                    signal.unsubscribe();
                    *self = CancellablePromise { signal, outcome: Some(Outcome::Success(value)) };
                }
            },
            Event::Reject(error) => {
                if pending {
                    signal.unsubscribe();
                    *self = CancellablePromise { signal, outcome: Some(Outcome::Failure(error)) };
                }
            },
        }
        pending
    }

    /// Delivers the events of `events`, in their order. Returns whether one
    /// of them settled the race; if so it was the first.
    pub fn settle_all(&mut self, events: Vec<Event<T, E>>) -> (settled: bool)
        ensures
            settled == (old(self)@.is_pending() && events@.len() > 0),
            final(self)@ == old(self)@.settle_all(events@),
    {
        let ghost all: Seq<Event<T, E>> = events@;
        let ghost start: RaceState<T, E> = self@;
        let mut settled: bool = false;
        for event in it: events
            invariant
                it.seq() == all,
                self@ == start.settle_all(all.take(it.index() as int)),
                settled == (start.is_pending() && it.index() > 0),
        {
            proof {
                let n: int = it.index() as int;
                assert(all.take(n + 1).drop_last() =~= all.take(n));
                lemma_first_event_wins(start, all.take(n));
            }
            if self.settle(event) {
                settled = true;
            }
        }
        assert(all.take(all.len() as int) =~= all);
        settled
    }
}

/// Couples the operation `p` to `signal`.
///
/// A signal that has fired already settles the result as aborted at once,
/// whatever `p` holds. Otherwise an operation that has finished already
/// hands on its result, and a pending one leaves the result pending, with
/// its callback registered on the signal.
pub fn make<T, E>(signal: AbortSignal, p: Promise<T, E>) -> (combined: CancellablePromise<T, E>)
    ensures
        combined@ == RaceState::start(signal@, p@),
{
    proof {
        use_type_invariant(&signal);
    }
    let mut signal: AbortSignal = signal;
    if signal.aborted() {
        signal.unsubscribe();
        CancellablePromise { signal, outcome: Some(Outcome::Aborted) }
    } else {
        match p.result {
            Some(Ok(value)) => {
                signal.unsubscribe();
                CancellablePromise { signal, outcome: Some(Outcome::Success(value)) }
            },
            Some(Err(error)) => {
                signal.unsubscribe();
                CancellablePromise { signal, outcome: Some(Outcome::Failure(error)) }
            },
            None => {
                signal.subscribe();
                CancellablePromise { signal, outcome: None }
            },
        }
    }
}

/// Every race that [`make`] sets up is well formed, and no sequence of
/// events ends that: a race has its callback registered exactly while it is
/// pending.
pub proof fn lemma_race_stays_well_formed<T, E>(
    signal: SignalState,
    p: Option<Result<T, E>>,
    race: RaceState<T, E>,
    events: Seq<Event<T, E>>,
)
    requires
        signal.wf(),
        race.wf(),
    ensures
        RaceState::start(signal, p).wf(),
        race.settle_all(events).wf(),
    decreases events.len(),
{
    if events.len() > 0 {
        lemma_race_stays_well_formed(signal, p, race, events.drop_last());
    }
}

/// The first event wins: a pending race ends as its first event says, and a
/// settled race keeps its outcome whatever follows.
pub proof fn lemma_first_event_wins<T, E>(race: RaceState<T, E>, events: Seq<Event<T, E>>)
    ensures
        race.settle_all(events).outcome == if race.is_pending() && events.len() > 0 {
            Some(events[0].outcome())
        } else {
            race.outcome
        },
    decreases events.len(),
{
    if events.len() > 0 {
        lemma_first_event_wins(race, events.drop_last());
        if events.len() > 1 {
            assert(events.drop_last()[0] == events[0]);
        }
    }
}

/// A signal that has fired when the race is set up makes the outcome aborted
/// whatever the operation holds and whatever follows.
pub proof fn lemma_set_signal_aborts<T, E>(
    signal: SignalState,
    p: Option<Result<T, E>>,
    events: Seq<Event<T, E>>,
)
    requires
        signal.aborted,
    ensures
        RaceState::start(signal, p).settle_all(events).outcome == Some(Outcome::<T, E>::Aborted),
{
    lemma_first_event_wins(RaceState::start(signal, p), events);
}

/// A signal that fires before the operation settles makes the outcome
/// aborted, from that moment on: whatever the operation yields later is
/// discarded and never becomes the outcome.
pub proof fn lemma_signal_first_aborts<T, E>(race: RaceState<T, E>, events: Seq<Event<T, E>>)
    requires
        race.is_pending(),
        events.len() > 0,
        events[0] is Abort,
    ensures
        race.settle_all(events).outcome == Some(Outcome::<T, E>::Aborted),
        forall|n: int|
            1 <= n <= events.len() ==> #[trigger] race.settle_all(events.take(n)).outcome == Some(
                Outcome::<T, E>::Aborted,
            ),
{
    lemma_first_event_wins(race, events);
    assert forall|n: int| 1 <= n <= events.len() implies #[trigger] race.settle_all(
        events.take(n),
    ).outcome == Some(Outcome::<T, E>::Aborted) by {
        lemma_first_event_wins(race, events.take(n));
    }
}

/// An operation that settles before any signal fires gives the race its own
/// result, and does so exactly once: the first event is the only one that
/// finds the race pending.
pub proof fn lemma_uncancelled_outcome_is_own<T, E>(
    race: RaceState<T, E>,
    events: Seq<Event<T, E>>,
)
    requires
        race.is_pending(),
        events.len() > 0,
        !(events[0] is Abort),
    ensures
        match events[0] {
            Event::Resolve(value) => race.settle_all(events).outcome == Some(
                Outcome::<T, E>::Success(value),
            ),
            Event::Reject(error) => race.settle_all(events).outcome == Some(
                Outcome::<T, E>::Failure(error),
            ),
            Event::Abort => false,
        },
        forall|n: int|
            0 <= n < events.len() ==> (#[trigger] race.settle_all(events.take(n)).is_pending()
                <==> n == 0),
{
    lemma_first_event_wins(race, events);
    assert forall|n: int| 0 <= n < events.len() implies (#[trigger] race.settle_all(
        events.take(n),
    ).is_pending() <==> n == 0) by {
        lemma_first_event_wins(race, events.take(n));
    }
}

} // verus!

//! The life cycle of request invocations.
//!
//! Every invocation starts by creating a controller, putting it into the
//! registry and racing the handler against the controller's signal. It ends
//! when the handler finishes, when its signal fires, or when a fatal fault
//! forces the latest invocation to abort. Whatever ends an invocation empties
//! the registry.
//!
//! The [`Dispatcher`] keeps the invocations in the order in which they
//! started; an invocation is known by its place in that order.

use crate::cancellable_promise::{make, CancellablePromise, Event, Outcome, Promise, RaceState};
use crate::event::ErrorHandling;
use crate::registry::{Registry, RegistryState};
use crate::signal::{AbortController, ControllerState};
use vstd::prelude::*;

verus! {

/// Where an invocation stands.
#[derive(Clone, Copy, Debug, PartialEq, Eq, Structural)]
pub enum Phase {
    /// The handler runs and nothing has ended the invocation.
    Running,
    /// The handler finished first, with a value or with an error.
    Completed,
    /// The invocation's signal fired first.
    Aborted,
    /// A fatal fault forced the invocation to abort.
    FatalTrapped,
}

/// What an invocation is at one instant.
pub struct InvocationState<T, E> {
    /// The race between the handler and the invocation's signal.
    pub race: RaceState<T, E>,
    /// The race was ended by a forced abort.
    pub trapped: bool,
}

impl<T, E> InvocationState<T, E> {
    /// Only an aborted invocation can have been trapped.
    pub open spec fn wf(self) -> bool {
        &&& self.race.wf()
        &&& self.trapped ==> self.race.outcome == Some(Outcome::<T, E>::Aborted)
    }

    /// The invocation `operation` as it starts: its handler pending, raced
    /// against the signal of a fresh controller.
    pub open spec fn started(operation: usize) -> InvocationState<T, E> {
        InvocationState {
            race: RaceState::start(ControllerState::idle(operation).signal(), None),
            trapped: false,
        }
    }

    /// Where the invocation stands.
    pub open spec fn phase(self) -> Phase {
        match self.race.outcome {
            None => Phase::Running,
            Some(Outcome::Aborted) => if self.trapped {
                Phase::FatalTrapped
            } else {
                Phase::Aborted
            },
            Some(_) => Phase::Completed,
        }
    }

    /// The invocation after `event` reached it.
    pub open spec fn deliver(self, event: Event<T, E>) -> InvocationState<T, E> {
        InvocationState { race: self.race.settle(event), trapped: self.trapped }
    }

    /// The invocation after a forced abort reached it.
    pub open spec fn trap(self) -> InvocationState<T, E> {
        InvocationState {
            race: self.race.settle(Event::Abort),
            trapped: self.trapped || self.race.is_pending(),
        }
    }
}

/// What the dispatcher is at one instant.
pub struct DispatcherState<T, E> {
    /// The invocations, in the order in which they started.
    pub invocations: Seq<InvocationState<T, E>>,
    /// The slot for the controller of the latest invocation.
    pub registry: RegistryState,
}

impl<T, E> DispatcherState<T, E> {
    /// The registry holds nothing, or the controller of the invocation that
    /// started last, never an older one; and while that controller has not
    /// been triggered, its invocation is still running.
    pub open spec fn wf(self) -> bool {
        &&& forall|i: int| 0 <= i < self.invocations.len() ==> (#[trigger] self.invocations[i]).wf()
        &&& match self.registry.slot {
            Some(controller) => {
                &&& controller.operation + 1 == self.invocations.len()
                &&& controller.triggered || self.is_running(controller.operation)
            },
            None => true,
        }
    }

    /// The dispatcher before any invocation.
    pub open spec fn empty() -> DispatcherState<T, E> {
        DispatcherState { invocations: Seq::empty(), registry: RegistryState::empty() }
    }

    /// Where the invocation `id` stands, if there is such an invocation.
    pub open spec fn phase(self, id: usize) -> Option<Phase> {
        if id < self.invocations.len() {
            Some(self.invocations[id as int].phase())
        } else {
            None
        }
    }

    /// How the invocation `id` ended, if it has.
    pub open spec fn outcome(self, id: usize) -> Option<Outcome<T, E>> {
        if id < self.invocations.len() {
            self.invocations[id as int].race.outcome
        } else {
            None
        }
    }

    /// The invocation `id` exists and nothing has ended it.
    pub open spec fn is_running(self, id: usize) -> bool {
        id < self.invocations.len() && self.invocations[id as int].race.is_pending()
    }

    /// The dispatcher after a new invocation started: it comes last, and its
    /// controller replaces whatever the registry held.
    pub open spec fn start(self) -> DispatcherState<T, E> {
        let id = self.invocations.len() as usize;
        DispatcherState {
            invocations: self.invocations.push(InvocationState::started(id)),
            registry: self.registry.install(ControllerState::idle(id)),
        }
    }

    /// The dispatcher after `event` reached the invocation `id`. An event
    /// that ends the invocation empties the registry; one for an invocation
    /// that has ended, or that never started, leaves every outcome as it is.
    pub open spec fn deliver(self, id: usize, event: Event<T, E>) -> DispatcherState<T, E> {
        if id < self.invocations.len() {
            DispatcherState {
                invocations: self.invocations.update(
                    id as int,
                    self.invocations[id as int].deliver(event),
                ),
                registry: if self.is_running(id) {
                    self.registry.clear()
                } else {
                    self.registry
                },
            }
        } else {
            self
        }
    }

    /// The invocation that a fatal fault aborts: the one whose controller the
    /// registry holds untriggered.
    pub open spec fn trap_target(self) -> Option<usize> {
        match self.registry.abort_target() {
            Some(id) => if id < self.invocations.len() {
                Some(id)
            } else {
                None
            },
            None => None,
        }
    }

    /// The dispatcher after a fatal fault.
    pub open spec fn fatal_trap(self) -> DispatcherState<T, E> {
        match self.trap_target() {
            Some(id) => DispatcherState {
                invocations: self.invocations.update(id as int, self.invocations[id as int].trap()),
                registry: if self.is_running(id) {
                    self.registry.force_abort().clear()
                } else {
                    self.registry.force_abort()
                },
            },
            None => DispatcherState {
                invocations: self.invocations,
                registry: self.registry.force_abort(),
            },
        }
    }
}

/// The status of the response that answers a failed handler.
pub const ERROR_STATUS: u16 = 500;

/// What an entry point hands to the host when its handler has finished.
#[derive(Debug, PartialEq, Eq)]
pub enum Response<R> {
    /// The response that the handler produced.
    Handler(R),
    /// The response that stands for a failure of the handler.
    Error { status: u16, message: String },
}

/// What becomes of a handler's `result` under `handling`: a response for the
/// host, or the failure that has to be raised. A failure is answered with
/// the status [`ERROR_STATUS`] and its own text.
pub open spec fn response_of<R>(handling: ErrorHandling, result: Result<R, String>) -> Result<
    Response<R>,
    String,
> {
    match result {
        Ok(response) => Ok(Response::Handler(response)),
        Err(message) => match handling {
            ErrorHandling::Respond => Ok(Response::Error { status: ERROR_STATUS, message }),
            ErrorHandling::Raise => Err(message),
        },
    }
}

/// Applies `handling` to the `result` of a handler. `Ok` holds what the host
/// is answered with. `Err` holds a failure that is not answered: the caller
/// raises it, and the invocation stays as it is until a fatal fault ends it.
pub fn respond<R>(handling: ErrorHandling, result: Result<R, String>) -> (response: Result<
    Response<R>,
    String,
>)
    ensures
        response == response_of(handling, result),
{
    match result {
        Ok(response) => Ok(Response::Handler(response)),
        Err(message) => match handling {
            ErrorHandling::Respond => Ok(Response::Error { status: ERROR_STATUS, message }),
            ErrorHandling::Raise => Err(message),
        },
    }
}

/// One request invocation.
#[derive(Debug)]
struct Invocation<T, E> {
    promise: CancellablePromise<T, E>,
    trapped: bool,
}

impl<T, E> View for Invocation<T, E> {
    type V = InvocationState<T, E>;

    closed spec fn view(&self) -> InvocationState<T, E> {
        InvocationState { race: self.promise@, trapped: self.trapped }
    }
}

impl<T, E> Invocation<T, E> {
    fn start(controller: &AbortController) -> (invocation: Invocation<T, E>)
        requires
            !controller@.triggered,
        ensures
            invocation@ == InvocationState::<T, E>::started(controller@.operation),
    {
        Invocation { promise: make(controller.signal(), Promise::pending()), trapped: false }
    }

    fn deliver(&mut self, event: Event<T, E>) -> (settled: bool)
        ensures
            settled == old(self)@.race.is_pending(),
            final(self)@ == old(self)@.deliver(event),
    {
        self.promise.settle(event)
    }

    fn trap(&mut self) -> (settled: bool)
        ensures
            settled == old(self)@.race.is_pending(),
            final(self)@ == old(self)@.trap(),
    {
        let settled: bool = self.promise.abort();
        if settled {
            self.trapped = true;
        }
        settled
    }
}

/// The request invocations of one process and the registry that they share.
#[derive(Debug)]
pub struct Dispatcher<T, E> {
    invocations: Vec<Invocation<T, E>>,
    registry: Registry,
}

impl<T, E> View for Dispatcher<T, E> {
    type V = DispatcherState<T, E>;

    closed spec fn view(&self) -> DispatcherState<T, E> {
        DispatcherState {
            invocations: Seq::new(self.invocations@.len(), |i: int| self.invocations@[i]@),
            registry: self.registry@,
        }
    }
}

impl<T, E> Dispatcher<T, E> {
    /// A dispatcher without invocations, its registry empty.
    pub fn new() -> (dispatcher: Dispatcher<T, E>)
        ensures
            dispatcher@ == DispatcherState::<T, E>::empty(),
    {
        let dispatcher = Dispatcher { invocations: Vec::new(), registry: Registry::new() };
        assert(dispatcher@.invocations =~= Seq::empty());
        dispatcher
    }

    /// The number of invocations that have started.
    pub fn len(&self) -> (len: usize)
        ensures
            len == self@.invocations.len(),
    {
        self.invocations.len()
    }

    /// The invocation whose controller the registry holds.
    pub fn active(&self) -> (id: Option<usize>)
        ensures
            id == self@.registry.active(),
    {
        self.registry.active()
    }

    /// Where the invocation `id` stands, or `None` if no such invocation has
    /// started.
    pub fn phase(&self, id: usize) -> (phase: Option<Phase>)
        ensures
            phase == self@.phase(id),
    {
        if id < self.invocations.len() {
            let invocation: &Invocation<T, E> = &self.invocations[id];
            Some(
                match invocation.promise.outcome() {
                    None => Phase::Running,
                    Some(Outcome::Aborted) => if invocation.trapped {
                        Phase::FatalTrapped
                    } else {
                        Phase::Aborted
                    },
                    Some(_) => Phase::Completed,
                },
            )
        } else {
            None
        }
    }

    /// How the invocation `id` ended, or `None` if it has not ended or never
    /// started.
    pub fn outcome(&self, id: usize) -> (outcome: &Option<Outcome<T, E>>)
        ensures
            *outcome == self@.outcome(id),
    {
        if id < self.invocations.len() {
            self.invocations[id].promise.outcome()
        } else {
            &None
        }
    }

    /// Starts an invocation and returns its place. The invocation is running;
    /// its controller takes the registry's slot, and the controller that was
    /// there is abandoned as it is.
    pub fn start(&mut self) -> (id: usize)
        ensures
            id == old(self)@.invocations.len(),
            final(self)@ == old(self)@.start(),
    {
        let id: usize = self.invocations.len();
        let controller: AbortController = AbortController::new(id);
        let invocation: Invocation<T, E> = Invocation::start(&controller);
        self.invocations.push(invocation);
        self.registry.install(controller);
        assert(self@.invocations =~= old(self)@.start().invocations);
        id
    }

    /// Delivers `event` to the invocation `id`. Returns whether the event
    /// ended the invocation, which empties the registry. An event for an
    /// invocation that has ended, or that never started, is discarded.
    pub fn deliver(&mut self, id: usize, event: Event<T, E>) -> (settled: bool)
        ensures
            settled == old(self)@.is_running(id),
            final(self)@ == old(self)@.deliver(id, event),
    {
        if id >= self.invocations.len() {
            return false;
        }
        let settled: bool = self.invocations[id].deliver(event);
        if settled {
            self.registry.clear();
        }
        assert(self@.invocations =~= old(self)@.deliver(id, event).invocations);
        settled
    }

    /// A fatal fault struck. The controller in the registry is triggered,
    /// which ends the latest invocation if it is still running; the registry
    /// is then emptied. Returns the invocation that was aborted, or `None`
    /// where there is nothing to abort and nothing changes.
    pub fn fatal_trap(&mut self) -> (target: Option<usize>)
        ensures
            target == old(self)@.trap_target(),
            final(self)@ == old(self)@.fatal_trap(),
    {
        let target: Option<usize> = self.registry.force_abort();
        if let Some(id) = target {
            if id < self.invocations.len() {
                if self.invocations[id].trap() {
                    self.registry.clear();
                }
                assert(self@.invocations =~= old(self)@.fatal_trap().invocations);
                return target;
            }
        }
        assert(self@.invocations =~= old(self)@.invocations);
        None
    }
}

/// The dispatcher is well formed before any invocation.
pub proof fn lemma_empty_is_well_formed<T, E>()
    ensures
        DispatcherState::<T, E>::empty().wf(),
{
}

/// Every transition keeps the dispatcher well formed. The registry therefore
/// never holds the controller of an invocation other than the latest, and an
/// untriggered controller in it belongs to an invocation that still runs.
pub proof fn lemma_transitions_keep_well_formed<T, E>(
    dispatcher: DispatcherState<T, E>,
    id: usize,
    event: Event<T, E>,
)
    requires
        dispatcher.wf(),
    ensures
        dispatcher.invocations.len() < usize::MAX ==> dispatcher.start().wf(),
        dispatcher.deliver(id, event).wf(),
        dispatcher.fatal_trap().wf(),
{
}

/// A fatal fault repeated changes nothing more: the second one finds nothing
/// to abort and leaves the dispatcher as the first left it.
pub proof fn lemma_fatal_trap_idempotent<T, E>(dispatcher: DispatcherState<T, E>)
    ensures
        dispatcher.fatal_trap().trap_target().is_none(),
        dispatcher.fatal_trap().fatal_trap() == dispatcher.fatal_trap(),
{
    let once = dispatcher.fatal_trap();
    assert(once.fatal_trap().invocations =~= once.invocations);
}

/// Where the registry is empty, or its controller has been triggered, a
/// fatal fault changes nothing at all.
pub proof fn lemma_fatal_trap_without_target<T, E>(dispatcher: DispatcherState<T, E>)
    requires
        dispatcher.registry.abort_target().is_none(),
    ensures
        dispatcher.fatal_trap() == dispatcher,
{
}

/// A fatal fault reaches the invocation that started last and no other. The
/// one that it reaches was running, and is trapped afterwards.
pub proof fn lemma_fatal_trap_reaches_latest_only<T, E>(
    dispatcher: DispatcherState<T, E>,
    id: usize,
)
    requires
        dispatcher.wf(),
        id < dispatcher.invocations.len(),
    ensures
        dispatcher.fatal_trap().invocations.len() == dispatcher.invocations.len(),
        dispatcher.fatal_trap().invocations[id as int] != dispatcher.invocations[id as int] ==> {
            &&& id + 1 == dispatcher.invocations.len()
            &&& dispatcher.trap_target() == Some(id)
            &&& dispatcher.phase(id) == Some(Phase::Running)
            &&& dispatcher.fatal_trap().phase(id) == Some(Phase::FatalTrapped)
        },
{
}

/// Of two invocations that start one after the other, a fatal fault aborts
/// the second and leaves the first as it was, though the first is still
/// running.
pub proof fn lemma_later_start_shields_earlier<T, E>(dispatcher: DispatcherState<T, E>)
    requires
        dispatcher.wf(),
        dispatcher.invocations.len() + 1 < usize::MAX,
    ensures
        ({
            let first = dispatcher.invocations.len() as usize;
            let second = (first + 1) as usize;
            let started = dispatcher.start().start();
            let trapped = started.fatal_trap();
            &&& started.trap_target() == Some(second)
            &&& trapped.phase(second) == Some(Phase::FatalTrapped)
            &&& trapped.phase(first) == Some(Phase::Running)
            &&& forall|i: int| 0 <= i <= first ==> trapped.invocations[i] == started.invocations[i]
        }),
{
}

/// An invocation that has ended is out of reach of every fatal fault.
pub proof fn lemma_ended_is_out_of_reach<T, E>(dispatcher: DispatcherState<T, E>, id: usize)
    requires
        dispatcher.wf(),
        id < dispatcher.invocations.len(),
        !dispatcher.is_running(id),
    ensures
        dispatcher.fatal_trap().invocations[id as int] == dispatcher.invocations[id as int],
{
}

/// The event that ends an invocation gives it its outcome and empties the
/// registry, so that a fatal fault right after it changes nothing.
pub proof fn lemma_completion_disarms<T, E>(
    dispatcher: DispatcherState<T, E>,
    id: usize,
    event: Event<T, E>,
)
    requires
        dispatcher.is_running(id),
    ensures
        dispatcher.deliver(id, event).outcome(id) == Some(event.outcome()),
        dispatcher.deliver(id, event).registry == RegistryState::empty(),
        dispatcher.deliver(id, event).fatal_trap() == dispatcher.deliver(id, event),
{
}

/// An outcome is final: no start, no event and no fatal fault changes how an
/// invocation has ended.
pub proof fn lemma_outcome_is_final<T, E>(
    dispatcher: DispatcherState<T, E>,
    id: usize,
    other: usize,
    event: Event<T, E>,
)
    requires
        dispatcher.outcome(id).is_some(),
    ensures
        dispatcher.start().outcome(id) == dispatcher.outcome(id),
        dispatcher.deliver(other, event).outcome(id) == dispatcher.outcome(id),
        dispatcher.fatal_trap().outcome(id) == dispatcher.outcome(id),
{
}

} // verus!

//! A one-shot cancellation signal, split into the end that listens
//! ([`AbortSignal`]) and the end that triggers ([`AbortController`]).

use vstd::prelude::*;

verus! {

/// What a cancellation signal is at one instant.
pub struct SignalState {
    /// The signal has fired. It never goes back.
    pub aborted: bool,
    /// A callback is registered and has not been invoked yet.
    pub subscribed: bool,
}

impl SignalState {
    /// A signal that has fired holds no callback: a subscription ends with
    /// its first invocation.
    pub open spec fn wf(self) -> bool {
        self.aborted ==> !self.subscribed
    }

    /// The signal that has not fired and that nobody listens to.
    pub open spec fn idle() -> SignalState {
        SignalState { aborted: false, subscribed: false }
    }

    /// Whether registering a callback invokes it at once.
    pub open spec fn subscribe_notifies(self) -> bool {
        self.aborted
    }

    /// The signal after a callback was registered.
    pub open spec fn subscribe(self) -> SignalState {
        SignalState { aborted: self.aborted, subscribed: !self.aborted }
    }

    /// Whether firing the signal invokes the registered callback.
    pub open spec fn fire_notifies(self) -> bool {
        self.subscribed && !self.aborted
    }

    /// The signal after it fired.
    pub open spec fn fire(self) -> SignalState {
        SignalState { aborted: true, subscribed: false }
    }

    /// The signal after its callback was dropped.
    pub open spec fn unsubscribe(self) -> SignalState {
        SignalState { aborted: self.aborted, subscribed: false }
    }
}

/// Every step leaves a signal well formed, and a callback is invoked at most
/// once: the one that is invoked on registration is spent when the signal
/// fires, and a signal that fires again invokes nothing. A callback that is
/// registered after the signal fired is still invoked, at once.
pub proof fn lemma_callback_runs_once(signal: SignalState)
    requires
        signal.wf(),
    ensures
        signal.subscribe().wf(),
        signal.fire().wf(),
        signal.unsubscribe().wf(),
        signal.subscribe_notifies() ==> !signal.subscribe().fire_notifies(),
        !signal.fire().fire_notifies(),
        signal.fire().subscribe_notifies(),
        !signal.aborted ==> signal.subscribe().fire_notifies(),
{
}

/// The listening end of a cancellation signal.
#[derive(Clone, Copy, Debug)]
pub struct AbortSignal {
    aborted: bool,
    subscribed: bool,
}

impl View for AbortSignal {
    type V = SignalState;

    closed spec fn view(&self) -> SignalState {
        SignalState { aborted: self.aborted, subscribed: self.subscribed }
    }
}

impl AbortSignal {
    #[verifier::type_invariant]
    pub closed spec fn inv(self) -> bool {
        self@.wf()
    }

    /// A signal that has not fired and has no callback.
    pub fn new() -> (signal: AbortSignal)
        ensures
            signal@ == SignalState::idle(),
    {
        AbortSignal { aborted: false, subscribed: false }
    }

    /// Whether the signal has fired.
    pub fn aborted(&self) -> (set: bool)
        ensures
            set == self@.aborted,
    {
        self.aborted
    }

    /// Whether a callback is waiting for the signal to fire.
    pub fn is_subscribed(&self) -> (subscribed: bool)
        ensures
            subscribed == self@.subscribed,
    {
        self.subscribed
    }

    /// Registers the callback. Returns whether it has to be invoked now,
    /// which is the case exactly when the signal has fired already; the
    /// subscription is then spent.
    pub fn subscribe(&mut self) -> (notify: bool)
        ensures
            notify == old(self)@.subscribe_notifies(),
            final(self)@ == old(self)@.subscribe(),
    {
        self.subscribed = !self.aborted;
        self.aborted
    }

    /// Fires the signal. Returns whether the registered callback has to be
    /// invoked: only the first firing of a signal with a callback does so.
    pub fn fire(&mut self) -> (notify: bool)
        ensures
            notify == old(self)@.fire_notifies(),
            final(self)@ == old(self)@.fire(),
    {
        let notify: bool = self.subscribed && !self.aborted;
        self.subscribed = false;
        self.aborted = true;
        notify
    }

    /// Drops the callback, if one is registered.
    pub fn unsubscribe(&mut self)
        ensures
            final(self)@ == old(self)@.unsubscribe(),
    {
        self.subscribed = false;
    }
}

/// What a controller is at one instant.
pub struct ControllerState {
    /// The operation that the controller cancels.
    pub operation: usize,
    /// The controller has been triggered. It never goes back.
    pub triggered: bool,
}

impl ControllerState {
    /// The controller of `operation` that has not been triggered.
    pub open spec fn idle(operation: usize) -> ControllerState {
        ControllerState { operation, triggered: false }
    }

    /// The operation whose cancellation a trigger sets off, if it sets one off.
    pub open spec fn abort_target(self) -> Option<usize> {
        if self.triggered {
            None
        } else {
            Some(self.operation)
        }
    }

    /// The controller after it was triggered.
    pub open spec fn abort(self) -> ControllerState {
        ControllerState { operation: self.operation, triggered: true }
    }

    /// The signal that the controller's operation starts to listen to.
    pub open spec fn signal(self) -> SignalState {
        SignalState { aborted: self.triggered, subscribed: false }
    }
}

/// The triggering end of a cancellation signal, tied to one operation.
#[derive(Debug)]
pub struct AbortController {
    operation: usize,
    triggered: bool,
}

impl View for AbortController {
    type V = ControllerState;

    closed spec fn view(&self) -> ControllerState {
        ControllerState { operation: self.operation, triggered: self.triggered }
    }
}

impl AbortController {
    /// An idle controller for the operation `operation`.
    pub fn new(operation: usize) -> (controller: AbortController)
        ensures
            controller@ == ControllerState::idle(operation),
    {
        AbortController { operation, triggered: false }
    }

    /// The operation that the controller cancels.
    pub fn operation(&self) -> (operation: usize)
        ensures
            operation == self@.operation,
    {
        self.operation
    }

    /// Whether the controller has been triggered.
    pub fn is_triggered(&self) -> (triggered: bool)
        ensures
            triggered == self@.triggered,
    {
        self.triggered
    }

    /// The listening end as it stands now: fired if the controller has been
    /// triggered, and without a callback. A later trigger reaches the
    /// listener as the operation that [`AbortController::abort`] returns.
    pub fn signal(&self) -> (signal: AbortSignal)
        ensures
            signal@ == self@.signal(),
    {
        AbortSignal { aborted: self.triggered, subscribed: false }
    }

    /// Triggers the cancellation. The first trigger returns the operation to
    /// cancel; any later one changes nothing and returns `None`.
    pub fn abort(&mut self) -> (target: Option<usize>)
        ensures
            final(self)@ == old(self)@.abort(),
            target == old(self)@.abort_target(),
    {
        if self.triggered {
            None
        } else {
            self.triggered = true;
            Some(self.operation)
        }
    }
}

} // verus!

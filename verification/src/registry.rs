//! The single slot that remembers the controller of the operation that was
//! started last, so that a fatal fault can still abort that one operation.
//!
//! The slot is an explicit value: whoever shares it between invocations
//! guards it with one lock and calls these methods under it.

use crate::signal::{AbortController, ControllerState};
use vstd::prelude::*;

verus! {

/// What the registry holds at one instant.
pub struct RegistryState {
    /// The controller of the latest operation, if any is remembered.
    pub slot: Option<ControllerState>,
}

impl RegistryState {
    /// The registry that holds nothing.
    pub open spec fn empty() -> RegistryState {
        RegistryState { slot: None }
    }

    /// The registry after `controller` replaced whatever it held.
    pub open spec fn install(self, controller: ControllerState) -> RegistryState {
        RegistryState { slot: Some(controller) }
    }

    /// The registry after its slot was emptied.
    pub open spec fn clear(self) -> RegistryState {
        RegistryState { slot: None }
    }

    /// The operation whose controller is in the slot.
    pub open spec fn active(self) -> Option<usize> {
        match self.slot {
            Some(controller) => Some(controller.operation),
            None => None,
        }
    }

    /// The operation that a forced abort cancels: the one of the controller
    /// in the slot, unless that controller has been triggered before.
    pub open spec fn abort_target(self) -> Option<usize> {
        match self.slot {
            Some(controller) => controller.abort_target(),
            None => None,
        }
    }

    /// The registry after a forced abort: the controller in the slot, if
    /// there is one, is triggered and stays where it is.
    pub open spec fn force_abort(self) -> RegistryState {
        match self.slot {
            Some(controller) => RegistryState { slot: Some(controller.abort()) },
            None => self,
        }
    }
}

/// A store for at most one [`AbortController`].
#[derive(Debug)]
pub struct Registry {
    slot: Option<AbortController>,
}

impl View for Registry {
    type V = RegistryState;

    closed spec fn view(&self) -> RegistryState {
        RegistryState {
            slot: match self.slot {
                Some(controller) => Some(controller@),
                None => None,
            },
        }
    }
}

impl Registry {
    /// A registry that holds nothing.
    pub fn new() -> (registry: Registry)
        ensures
            registry@ == RegistryState::empty(),
    {
        Registry { slot: None }
    }

    /// The operation whose controller is in the slot.
    pub fn active(&self) -> (operation: Option<usize>)
        ensures
            operation == self@.active(),
    {
        match &self.slot {
            Some(controller) => Some(controller.operation()),
            None => None,
        }
    }

    /// Puts `controller` into the slot. A controller that was there is
    /// dropped as it is: abandoned, not triggered.
    pub fn install(&mut self, controller: AbortController)
        ensures
            final(self)@ == old(self)@.install(controller@),
    {
        self.slot = Some(controller);
    }

    /// Empties the slot.
    pub fn clear(&mut self)
        ensures
            final(self)@ == old(self)@.clear(),
    {
        self.slot = None;
    }

    /// Triggers the controller in the slot. Returns the operation to cancel,
    /// or `None` where nothing is left to do: the slot is empty, or its
    /// controller was triggered by an earlier call.
    pub fn force_abort(&mut self) -> (target: Option<usize>)
        ensures
            final(self)@ == old(self)@.force_abort(),
            target == old(self)@.abort_target(),
    {
        match &mut self.slot {
            Some(controller) => controller.abort(),
            None => None,
        }
    }
}

/// A forced abort repeated changes nothing more: the second call finds
/// nothing to cancel and leaves the registry as the first left it.
pub proof fn lemma_force_abort_idempotent(registry: RegistryState)
    ensures
        registry.force_abort().abort_target().is_none(),
        registry.force_abort().force_abort() == registry.force_abort(),
{
}

/// On a registry that is empty, or whose controller has been triggered
/// already, a forced abort cancels nothing and changes nothing.
pub proof fn lemma_force_abort_without_target(registry: RegistryState)
    requires
        registry.abort_target().is_none(),
    ensures
        registry.force_abort() == registry,
{
}

/// After two installs a forced abort reaches the second controller only: the
/// first one left the registry untriggered when the second came in.
pub proof fn lemma_install_last_wins(
    registry: RegistryState,
    first: ControllerState,
    second: ControllerState,
)
    ensures
        registry.install(first).install(second) == registry.install(second),
        registry.install(first).install(second).abort_target() == second.abort_target(),
        registry.install(first).install(second).force_abort().slot == Some(second.abort()),
{
}

/// Once the slot is cleared a forced abort cancels nothing.
pub proof fn lemma_clear_disarms(registry: RegistryState)
    ensures
        registry.clear().abort_target().is_none(),
        registry.clear().force_abort() == RegistryState::empty(),
{
}

} // verus!

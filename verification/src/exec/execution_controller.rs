use vstd::prelude::*;

use crate::exec::execution_state::ExecutionState;
use crate::sync::channel_send;

verus! {

/// The handle through which the outside world observes and steers a run:
/// the executor's phase, a cancellation flag, and a notifier with which a
/// cancellation can break the executor out of its sleep.
pub struct ExecutionController {
    state: ExecutionState,
    cancellation_requested: bool,
    change_notifier: std::sync::mpsc::Sender<bool>,
}

impl ExecutionController {
    pub closed spec fn spec_state(&self) -> ExecutionState {
        self.state
    }

    pub closed spec fn spec_cancellation_requested(&self) -> bool {
        self.cancellation_requested
    }

    pub fn new(change_notifier: std::sync::mpsc::Sender<bool>) -> (r: Self)
        ensures
            r.spec_state() == ExecutionState::Ready,
            !r.spec_cancellation_requested(),
    {
        Self { state: ExecutionState::Ready, cancellation_requested: false, change_notifier }
    }

    /// Requests cancellation.  When the executor is sleeping, a wake token
    /// is posted so that it leaves `wait_for_changes` and observes the flag.
    pub fn cancel(&mut self)
        ensures
            final(self).spec_cancellation_requested(),
            final(self).spec_state() == old(self).spec_state(),
    {
        self.cancellation_requested = true;
        if self.state == ExecutionState::Sleeping {
            let _res = channel_send(&self.change_notifier, true);
        }
    }

    pub fn state(&self) -> (r: ExecutionState)
        ensures
            r == self.spec_state(),
    {
        self.state
    }

    /// Internal: only the executor moves the phase.
    pub fn set_state(&mut self, s: ExecutionState)
        ensures
            final(self).spec_state() == s,
            final(self).spec_cancellation_requested() == old(self).spec_cancellation_requested(),
    {
        self.state = s
    }

    pub fn cancellation_requested(&self) -> (r: bool)
        ensures
            r == self.spec_cancellation_requested(),
    {
        self.cancellation_requested
    }
}

/// Relies on std::sync::Mutex::lock: reads the cancellation flag of the
/// shared controller.  The flag may be set from another thread at any time,
/// so the reading is a snapshot and nothing is promised of it.
#[verifier::external_body]
pub(crate) fn shared_cancellation_requested(
    c: &std::sync::Arc<std::sync::Mutex<ExecutionController>>,
) -> (r: bool) {
    match c.lock() {
        Ok(g) => g.cancellation_requested,
        Err(poisoned) => poisoned.into_inner().cancellation_requested,
    }
}

/// Relies on std::sync::Mutex::lock: stores the executor's phase into the
/// shared controller.
#[verifier::external_body]
pub(crate) fn shared_set_state(
    c: &std::sync::Arc<std::sync::Mutex<ExecutionController>>,
    s: crate::exec::execution_state::ExecutionState,
) {
    match c.lock() {
        Ok(mut g) => g.state = s,
        Err(poisoned) => poisoned.into_inner().state = s,
    }
}

} // verus!

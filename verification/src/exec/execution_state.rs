use vstd::prelude::*;

verus! {

/// The phase the executor is in, as observed through its controller.
/// Initially `Ready`; `Running` while epochs are driven; `Sleeping` while
/// the executor waits for a change notification.
#[derive(Debug, PartialEq, Eq, Structural, Clone, Copy)]
pub enum ExecutionState {
    Ready,
    Sleeping,
    Running,
}

impl ExecutionState {
    /// The phase's name, for reports.
    pub fn label(&self) -> (r: &'static str)
        ensures
            *self is Ready ==> r@ == "Ready"@,
            *self is Sleeping ==> r@ == "Sleeping"@,
            *self is Running ==> r@ == "Running"@,
    {
        match *self {
            ExecutionState::Ready => "Ready",
            ExecutionState::Sleeping => "Sleeping",
            ExecutionState::Running => "Running",
        }
    }
}

} // verus!

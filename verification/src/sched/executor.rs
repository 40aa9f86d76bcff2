use vstd::prelude::*;

use crate::flow::flow::NodeId;
use crate::nodes::connection::{controller_cancel, node_on_update, node_try_on_update};
use crate::nodes::node::{ChangeObserver, UpdateError};
use crate::sched::flow::{Flow, FlowError};
use crate::sched::scheduler::{Scheduler, SchedulingInfo};
use crate::sync::{channel_send, new_shared, sender_clone, share};

verus! {

/// The phase the executor is in, as observed through its controller.
#[derive(Debug, PartialEq, Eq, Structural, Clone, Copy)]
pub enum ExecutorState {
    Ready,
    Sleeping,
    Running,
}

impl ExecutorState {
    /// The phase's name, for reports.
    pub fn label(&self) -> (r: &'static str)
        ensures
            *self is Ready ==> r@ == "Ready"@,
            *self is Sleeping ==> r@ == "Sleeping"@,
            *self is Running ==> r@ == "Running"@,
    {
        match *self {
            ExecutorState::Ready => "Ready",
            ExecutorState::Sleeping => "Sleeping",
            ExecutorState::Running => "Running",
        }
    }
}

/// The handle through which the outside world observes and steers a run.
pub struct ExecutionController {
    state: ExecutorState,
    cancellation_requested: bool,
    change_notifier: std::sync::mpsc::Sender<bool>,
}

impl ExecutionController {
    pub closed spec fn spec_state(&self) -> ExecutorState {
        self.state
    }

    pub closed spec fn spec_cancellation_requested(&self) -> bool {
        self.cancellation_requested
    }

    pub fn new(change_notifier: std::sync::mpsc::Sender<bool>) -> (r: Self)
        ensures
            r.spec_state() == ExecutorState::Ready,
            !r.spec_cancellation_requested(),
    {
        Self { state: ExecutorState::Ready, cancellation_requested: false, change_notifier }
    }

    /// Requests cancellation.  When the executor is sleeping, a wake token
    /// is posted so that it leaves its wait and observes the flag.
    pub fn cancel(&mut self)
        ensures
            final(self).spec_cancellation_requested(),
            final(self).spec_state() == old(self).spec_state(),
    {
        self.cancellation_requested = true;
        if self.state == ExecutorState::Sleeping {
            let _res = channel_send(&self.change_notifier, true);
        }
    }

    pub fn state(&self) -> (r: ExecutorState)
        ensures
            r == self.spec_state(),
    {
        self.state
    }

    fn set_state(&mut self, s: ExecutorState)
        ensures
            final(self).spec_state() == s,
            final(self).spec_cancellation_requested() == old(self).spec_cancellation_requested(),
    {
        self.state = s
    }

    fn cancellation_requested(&self) -> (r: bool)
        ensures
            r == self.spec_cancellation_requested(),
    {
        self.cancellation_requested
    }
}

/// Relies on std::sync::Mutex::lock: reads the cancellation flag of the
/// shared controller; a snapshot, since the flag may be set from another
/// thread at any time.
#[verifier::external_body]
fn shared_cancellation_requested(
    c: &std::sync::Arc<std::sync::Mutex<ExecutionController>>,
) -> (r: bool) {
    match c.lock() {
        Ok(g) => g.cancellation_requested,
        Err(poisoned) => poisoned.into_inner().cancellation_requested,
    }
}

/// Relies on std::sync::Mutex::lock: stores the executor's phase into the
/// shared controller.
#[verifier::external_body]
fn shared_set_state(
    c: &std::sync::Arc<std::sync::Mutex<ExecutionController>>,
    s: ExecutorState,
) {
    match c.lock() {
        Ok(mut g) => g.state = s,
        Err(poisoned) => poisoned.into_inner().state = s,
    }
}

/// Drives a flow until cancellation or an aborting error.
pub trait Executor {
    /// Runs the flow.  Every aborted run reports where it failed: a failing
    /// lifecycle hook surfaces with the recorded name of the node whose hook
    /// failed, and update errors surface as one non-empty collection.
    fn run<S: Scheduler + Send>(&mut self, flow: Flow<NodeId>, scheduler: S) -> (r: Result<
        (),
        ExecutionError,
    >)
        ensures
            final(self).spec_controller() == old(self).spec_controller(),
            flow.node_seq().len() == 0 ==> r is Ok,
            r matches Err(ExecutionError::Lifecycle { source }) ==> flow.has_node_named(
                source.spec_node_name(),
            ),
            r matches Err(ExecutionError::UpdateErrorCollection { errors }) ==> errors@.len()
                > 0,
    ;

    /// The one shared controller this executor consults while running.
    spec fn spec_controller(&self) -> std::sync::Arc<std::sync::Mutex<ExecutionController>>;

    /// The shared handle through which this run is observed and cancelled:
    /// every call hands out the same controller the epoch loop consults, so
    /// a cancellation through any returned handle is seen by the run.
    fn controller(&self) -> (r: std::sync::Arc<std::sync::Mutex<ExecutionController>>)
        ensures
            r == self.spec_controller(),
    ;
}

/// An error that aborted a run.
#[derive(Debug)]
pub enum ExecutionError {
    /// Update errors collected while visiting nodes, in collection order.
    UpdateErrorCollection { errors: Vec<UpdateError> },
    /// A lifecycle hook (init, ready or shutdown) failed.
    Lifecycle { source: FlowError },
    /// Any other cause.
    Other(anyhow::Error),
}

/// Drives epochs over a flow, updating each visited node on the calling
/// thread.  The configured worker count decides whether nodes are updated
/// under a blocking or a skip-on-contention lock, and whether the executor
/// sleeps reactively between epochs.
pub struct StandardExecutor {
    controller: std::sync::Arc<std::sync::Mutex<ExecutionController>>,
    observer: ChangeObserver,
    num_workers: usize,
}

impl StandardExecutor {
    /// The configured worker count.
    pub closed spec fn spec_num_workers(&self) -> usize {
        self.num_workers
    }

    pub fn new(num_workers: usize, observer: ChangeObserver) -> (r: Self)
        ensures
            r.spec_num_workers() == num_workers,
    {
        let controller = new_shared(ExecutionController::new(sender_clone(&observer.notifier)));
        Self { num_workers, controller, observer }
    }

    pub fn num_workers(&self) -> (r: usize)
        ensures
            r == self.spec_num_workers(),
    {
        self.num_workers
    }

    /// The epoch loop: visits the scheduler's node indices, updating each
    /// node as it goes, sleeps reactively between epochs when workers are
    /// configured, and aborts with the collected errors of an epoch that saw
    /// any.  Without errors it loops until cancellation is observed, then
    /// cancels outstanding node updates and parks the controller in `Ready`.
    fn run_update_loop<S: Scheduler>(&mut self, flow: &Flow<NodeId>, scheduler: S) -> (r: Result<
        (),
        ExecutionError,
    >)
        ensures
            final(self).spec_controller() == old(self).spec_controller(),
            flow.node_seq().len() == 0 ==> r is Ok,
            r matches Err(e) ==> e matches ExecutionError::UpdateErrorCollection { errors }
                && errors@.len() > 0,
    {
        let mut scheduler = scheduler;

        shared_set_state(&self.controller, ExecutorState::Running);

        let mut info = SchedulingInfo::new(flow.num_nodes());

        let update_controllers = flow.get_update_controllers();

        let mut epochs_left: u64 = u64::MAX;
        let mut aborted: Option<ExecutionError> = None;
        while aborted.is_none() && epochs_left > 0 && !shared_cancellation_requested(
            &self.controller,
        )
            invariant
                flow.node_seq().len() == 0 ==> aborted is None,
                aborted matches Some(e) ==> e matches ExecutionError::UpdateErrorCollection {
                    errors,
                } && errors@.len() > 0,
            decreases epochs_left,
        {
            epochs_left = epochs_left - 1;

            // Run an epoch (an update of each node).
            scheduler.restart_epoch(&mut info);
            let mut epoch_errors: Vec<UpdateError> = Vec::new();
            let mut steps_left: u64 = u64::MAX;
            while steps_left > 0 && !scheduler.epoch_is_over(&mut info)
                invariant
                    flow.node_seq().len() == 0 ==> epoch_errors@.len() == 0,
                decreases steps_left,
            {
                steps_left = steps_left - 1;
                let node_idx = scheduler.get_next_node_idx();
                match flow.node_by_index(node_idx) {
                    Some(n) => {
                        if self.num_workers == 0 {
                            match node_on_update(&n.1) {
                                Ok(()) => {},
                                Err(err) => {
                                    epoch_errors.push(err);
                                },
                            }
                        } else {
                            match node_try_on_update(&n.1) {
                                Some(Err(err)) => {
                                    epoch_errors.push(err);
                                },
                                Some(Ok(())) => {},
                                None => {},
                            }
                        }
                    },
                    None => {},
                }
            }

            if epoch_errors.len() > 0 {
                aborted = Some(ExecutionError::UpdateErrorCollection { errors: epoch_errors });
            } else {
                // Sleep check only if workers are configured.
                if self.num_workers > 0 {
                    shared_set_state(&self.controller, ExecutorState::Sleeping);
                    self.observer.wait_for_changes();
                    shared_set_state(&self.controller, ExecutorState::Running);
                }
            }
        }

        // Cancel long-running node updates.
        let mut i: usize = 0;
        while i < update_controllers.len()
            decreases update_controllers.len() - i,
        {
            controller_cancel(&update_controllers[i]);
            i = i + 1;
        }

        // All done.
        shared_set_state(&self.controller, ExecutorState::Ready);

        match aborted {
            Some(e) => Err(e),
            None => Ok(()),
        }
    }
}

impl Executor for StandardExecutor {
    closed spec fn spec_controller(&self) -> std::sync::Arc<
        std::sync::Mutex<ExecutionController>,
    > {
        self.controller
    }

    /// Lifecycle order: init all nodes, make all ready, drive the epoch
    /// loop, then shut all nodes down.  An init or ready failure aborts
    /// before the loop and skips shutdown; a loop abort still shuts the
    /// nodes down and then reports the loop's error.
    fn run<S: Scheduler + Send>(&mut self, flow: Flow<NodeId>, scheduler: S) -> (r: Result<
        (),
        ExecutionError,
    >) {
        match flow.init_all() {
            Ok(()) => {},
            Err(e) => {
                return Err(ExecutionError::Lifecycle { source: e });
            },
        }

        match flow.ready_all() {
            Ok(()) => {},
            Err(e) => {
                return Err(ExecutionError::Lifecycle { source: e });
            },
        }

        let loop_result = self.run_update_loop(&flow, scheduler);

        let shutdown_result = flow.shutdown_all();

        match loop_result {
            Err(e) => Err(e),
            Ok(()) => match shutdown_result {
                Err(e) => Err(ExecutionError::Lifecycle { source: e }),
                Ok(()) => Ok(()),
            },
        }
    }

    fn controller(&self) -> std::sync::Arc<std::sync::Mutex<ExecutionController>> {
        share(&self.controller)
    }
}

} // verus!

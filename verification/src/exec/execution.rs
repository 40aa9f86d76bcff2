use vstd::prelude::*;

use crate::exec::execution_controller::{
    shared_cancellation_requested, shared_set_state, ExecutionController,
};
use crate::exec::execution_state::ExecutionState;
use crate::exec::node_updater::{NodeUpdateError, NodeUpdater, SleepMode};
use crate::flow::flow::{Flow, FlowError};
use crate::nodes::connection::controller_cancel;
use crate::nodes::node::ChangeObserver;
use crate::sched::scheduler::{Scheduler, SchedulingInfo};
use crate::sync::{channel, channel_recv_timeout_ms, new_shared, sender_clone, share};

verus! {

/// An executor paired with the flow it is to drive.
pub struct ExecutionContext {
    pub executor: StandardExecutor,
    pub flow: Flow,
}

impl ExecutionContext {
    pub fn new(executor: StandardExecutor, flow: Flow) -> (r: Self)
        ensures
            r.executor == executor,
            r.flow == flow,
    {
        Self { executor, flow }
    }
}

/// Opaque handle under which an [`ExecutionContext`] is passed across an
/// interface that cannot carry the type itself.
pub struct ExecutionContextHandle {
    _private: (),
}

/// An error that aborted a run.
#[derive(Debug)]
pub enum ExecutionError {
    /// Update errors drained at an epoch's end, enriched with descriptions,
    /// in the order they were drained.
    UpdateErrorCollection { errors: Vec<NodeUpdateError> },
    /// A lifecycle hook (init, ready or shutdown) failed.
    Lifecycle { source: FlowError },
}

/// A node-update error is enriched with respect to a flow when, given that
/// it names a node the flow has a description for, it carries that
/// description.  An error that names no node is enriched trivially: there is
/// nothing to look up for it, and it passes through untouched.
pub open spec fn enriched_wrt(e: NodeUpdateError, flow: &Flow) -> bool {
    match e.node_id {
        Some(id) => flow.descs().contains_key(id) ==> match e.node_desc {
            Some(d) => d.same_as(&flow.descs()[id]),
            None => false,
        },
        None => true,
    }
}

/// Fills each error's `node_desc` from the flow's descriptions, leaving
/// sources, ids and order untouched.
fn enrich_update_errors(flow: &Flow, errs: Vec<NodeUpdateError>) -> (r: Vec<NodeUpdateError>)
    ensures
        r@.len() == errs@.len(),
        forall|i: int|
            0 <= i < r@.len() ==> (#[trigger] r@[i]).source == errs@[i].source && r@[i].node_id
                == errs@[i].node_id && enriched_wrt(r@[i], flow),
{
    let mut rest = errs;
    let ghost input = rest@;
    let mut out: Vec<NodeUpdateError> = Vec::new();
    while rest.len() > 0
        invariant
            out@.len() + rest@.len() == input.len(),
            rest@ == input.skip(out@.len() as int),
            forall|i: int|
                0 <= i < out@.len() ==> (#[trigger] out@[i]).source == input[i].source
                    && out@[i].node_id == input[i].node_id && enriched_wrt(out@[i], flow),
        decreases rest@.len(),
    {
        let mut err = rest.remove(0);
        proof {
            assert(input.skip(out@.len() as int)[0] == input[out@.len() as int]);
            assert(input.skip(out@.len() as int).skip(1) =~= input.skip(out@.len() + 1 as int));
        }
        match err.node_id {
            Some(id) => {
                match flow.node_description_by_id(id) {
                    Some(desc) => {
                        err.node_desc = Some(desc.clone());
                    },
                    None => {},
                }
            },
            None => {},
        }
        out.push(err);
    }
    out
}

/// Drives a flow: lifecycle calls, the epoch loop, sleep policy,
/// cancellation and error aggregation.
pub trait Executor {
    /// The one shared controller this executor consults while running.
    spec fn spec_controller(&self) -> std::sync::Arc<std::sync::Mutex<ExecutionController>>;

    /// Runs the flow until cancellation or an aborting error.
    ///
    /// Every aborted run reports where it failed: a failing lifecycle hook
    /// surfaces with the id of the node whose hook failed, and drained
    /// update errors surface as one non-empty collection, each entry
    /// enriched with the node's description where the flow has one.  The
    /// run consults the controller a prior [`Executor::controller`] call
    /// handed out: that handle is kept across the run.
    fn run<S: Scheduler + Send, U: NodeUpdater>(
        &mut self,
        flow: Flow,
        scheduler: S,
        node_updater: U,
    ) -> (r: Result<(), ExecutionError>)
        ensures
            final(self).spec_controller() == old(self).spec_controller(),
            r matches Err(ExecutionError::Lifecycle { source }) ==> flow.contains_id(
                source.spec_node_id(),
            ),
            r matches Err(ExecutionError::UpdateErrorCollection { errors }) ==> errors@.len() > 0
                && forall|i: int| 0 <= i < errors@.len() ==> enriched_wrt(
                #[trigger] errors@[i],
                &flow,
            ),
    ;

    /// The shared handle through which this run is observed and cancelled:
    /// every call hands out the same controller the epoch loop consults, so
    /// a cancellation through any returned handle is seen by the run.
    fn controller(&self) -> (r: std::sync::Arc<std::sync::Mutex<ExecutionController>>)
        ensures
            r == self.spec_controller(),
    ;
}

/// Consumes the updater so that its teardown (a worker pool posts its cancel
/// commands and joins its workers) happens at a chosen point of the run, not
/// at the end of the caller's scope.
fn retire_updater<U: NodeUpdater>(_node_updater: U) {
}

/// The provided executor: one main loop that visits the nodes each epoch in
/// scheduler order, applies the updater's sleep policy between epochs, and
/// drains the updater's errors at each epoch's end.
pub struct StandardExecutor {
    controller: std::sync::Arc<std::sync::Mutex<ExecutionController>>,
    observer: ChangeObserver,
    pacer: (std::sync::mpsc::Sender<bool>, std::sync::mpsc::Receiver<bool>),
}

impl StandardExecutor {
    pub fn new(observer: ChangeObserver) -> Self {
        let controller = new_shared(ExecutionController::new(sender_clone(&observer.notifier)));
        Self { controller, observer, pacer: channel() }
    }

    /// Waits out the remainder of an epoch's pacing budget.  The pacing
    /// channel never carries a value, so this simply passes the time.
    fn pause_ms(&self, ms: u64) {
        channel_recv_timeout_ms(&self.pacer.1, ms);
    }

    /// The epoch loop.
    /// Aborts with the enriched, non-empty error collection when the updater
    /// reports errors; otherwise loops until cancellation is observed, then
    /// cancels outstanding node updates, releases the updater, and parks the
    /// controller back in `Ready`.
    fn run_update_loop<S: Scheduler, U: NodeUpdater>(
        &mut self,
        flow: &Flow,
        scheduler: S,
        node_updater: U,
    ) -> (r: Result<(), ExecutionError>)
        ensures
            final(self).spec_controller() == old(self).spec_controller(),
            r matches Err(e) ==> e matches ExecutionError::UpdateErrorCollection { errors }
                && errors@.len() > 0 && forall|i: int|
                0 <= i < errors@.len() ==> enriched_wrt(#[trigger] errors@[i], flow),
    {
        let mut scheduler = scheduler;
        let mut node_updater = node_updater;

        shared_set_state(&self.controller, ExecutionState::Running);

        let mut info = SchedulingInfo::new(flow.num_nodes());

        let update_controllers = flow.get_update_controllers();

        let mut epochs_left: u64 = u64::MAX;
        let mut aborted: Option<ExecutionError> = None;
        while aborted.is_none() && epochs_left > 0 && !shared_cancellation_requested(
            &self.controller,
        )
            invariant
                aborted matches Some(e) ==> e matches ExecutionError::UpdateErrorCollection {
                    errors,
                } && errors@.len() > 0 && forall|i: int|
                    0 <= i < errors@.len() ==> enriched_wrt(#[trigger] errors@[i], flow),
            decreases epochs_left,
        {
            epochs_left = epochs_left - 1;

            // Run an epoch (an update of each node).
            scheduler.restart_epoch(&mut info);
            let mut steps_left: u64 = u64::MAX;
            while steps_left > 0 && !scheduler.epoch_is_over(&mut info)
                decreases steps_left,
            {
                steps_left = steps_left - 1;
                let node_idx = scheduler.get_next_node_idx();
                match flow.node_by_index(node_idx) {
                    Some(n) => {
                        let description = match flow.node_description_by_id(n.0) {
                            Some(d) => Some(d.clone()),
                            None => None,
                        };
                        node_updater.update((n.0, share(&n.1)), description);
                    },
                    None => {},
                }
            }

            // Sleep if necessary.
            match node_updater.sleep_mode() {
                SleepMode::NoSleep => {},
                SleepMode::Reactive => {
                    shared_set_state(&self.controller, ExecutionState::Sleeping);
                    self.observer.wait_for_changes();
                    shared_set_state(&self.controller, ExecutionState::Running);
                },
                SleepMode::FixedFrequency(fps) => {
                    if fps > 0 {
                        let target_ms: u64 = 1000 / fps;
                        if target_ms > info.epoch_duration {
                            self.pause_ms(target_ms - info.epoch_duration);
                        }
                    }
                },
            }

            // Check if asynchronously reported errors occurred.
            let raw_errors = node_updater.errors();
            if raw_errors.len() > 0 {
                let errors = enrich_update_errors(flow, raw_errors);
                aborted = Some(ExecutionError::UpdateErrorCollection { errors });
            }
        }

        // Cancel long-running node updates.
        let mut i: usize = 0;
        while i < update_controllers.len()
            decreases update_controllers.len() - i,
        {
            controller_cancel(&update_controllers[i]);
            i = i + 1;
        }

        // Release the node updater; a worker-pool updater joins its workers
        // as it goes out of use.
        retire_updater(node_updater);

        // All done.
        shared_set_state(&self.controller, ExecutionState::Ready);

        match aborted {
            Some(e) => Err(e),
            None => Ok(()),
        }
    }
}

impl Executor for StandardExecutor {
    closed spec fn spec_controller(&self) -> std::sync::Arc<
        std::sync::Mutex<ExecutionController>,
    > {
        self.controller
    }

    /// Lifecycle order: init all nodes,
    /// make all ready, drive the epoch loop, then shut all nodes down.  An
    /// init or ready failure aborts before the loop and skips shutdown; a
    /// loop abort still shuts the nodes down and then reports the loop's
    /// error.
    fn run<S: Scheduler + Send, U: NodeUpdater>(
        &mut self,
        flow: Flow,
        scheduler: S,
        node_updater: U,
    ) -> (r: Result<(), ExecutionError>) {
        match flow.init_all() {
            Ok(()) => {},
            Err(e) => {
                return Err(ExecutionError::Lifecycle { source: e });
            },
        }

        match flow.ready_all() {
            Ok(()) => {},
            Err(e) => {
                return Err(ExecutionError::Lifecycle { source: e });
            },
        }

        let loop_result = self.run_update_loop(&flow, scheduler, node_updater);

        let shutdown_result = flow.shutdown_all();

        match loop_result {
            Err(e) => Err(e),
            Ok(()) => match shutdown_result {
                Err(e) => Err(ExecutionError::Lifecycle { source: e }),
                Ok(()) => Ok(()),
            },
        }
    }

    fn controller(&self) -> std::sync::Arc<std::sync::Mutex<ExecutionController>> {
        share(&self.controller)
    }
}

} // verus!

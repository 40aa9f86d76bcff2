use vstd::prelude::*;

use crate::flow::flow::NodeId;
use crate::nodes::connection::{node_try_on_update, SharedNode};
use crate::nodes::node::UpdateError;
use crate::nodes::node_description::NodeDescription;

verus! {

/// An error from a node's `on_update`, wrapped with the id of the offending
/// node and, once the executor has enriched it, the node's description.
#[derive(Debug)]
pub struct NodeUpdateError {
    pub source: UpdateError,
    pub node_id: Option<NodeId>,
    pub node_desc: Option<NodeDescription>,
}

impl From<UpdateError> for NodeUpdateError {
    /// Wraps a bare update error; id and description are filled in later by
    /// whoever knows them.
    fn from(source: UpdateError) -> (r: Self) {
        Self { source, node_id: None, node_desc: None }
    }
}

impl vstd::std_specs::convert::FromSpecImpl<UpdateError> for NodeUpdateError {
    open spec fn obeys_from_spec() -> bool {
        true
    }

    open spec fn from_spec(source: UpdateError) -> Self {
        NodeUpdateError { source, node_id: None, node_desc: None }
    }
}

/// How the executor should wait between epochs.
pub enum SleepMode {
    /// Sleep until an output posts a change notification.
    Reactive,
    /// Pace epochs to the given number of events per second.
    FixedFrequency(u64),
    /// Do not sleep at all.
    NoSleep,
}

/// Dispatches update calls on selected nodes and collects their errors.
/// The single-threaded implementation below runs updates on the caller's
/// thread; a worker-pool implementation dispatches them to worker threads.
pub trait NodeUpdater {
    /// Requests an update of the node.
    fn update(&mut self, node: (NodeId, SharedNode), node_description: Option<NodeDescription>);

    /// Drains the errors accumulated since the last call.
    fn errors(&mut self) -> Vec<NodeUpdateError>;

    /// The sleep policy the executor should apply between epochs.
    fn sleep_mode(&self) -> SleepMode;
}

/// One update command, decided and run on the calling thread: try the node's
/// exclusion lock; run `on_update` when it is free; skip the node when
/// another holder has it.  A failure comes back wrapped with the node's id,
/// for the error channel; a clean or skipped update yields nothing.  Both
/// the single-threaded updater and the worker threads of a pool run exactly
/// this step per command.
pub fn worker_step(node: (NodeId, SharedNode)) -> (r: Option<NodeUpdateError>)
    ensures
        r matches Some(e) ==> e.node_id == Some(node.0) && e.node_desc is None,
{
    match node_try_on_update(&node.1) {
        Some(Err(err)) => Some(
            NodeUpdateError { source: err, node_id: Some(node.0), node_desc: None },
        ),
        Some(Ok(())) => None,
        None => None,
    }
}

/// Runs every requested update synchronously on the caller's thread.  A node
/// whose exclusion lock is held elsewhere is skipped for the epoch, not
/// queued.
pub struct SingleThreadedNodeUpdater {
    errors: Vec<NodeUpdateError>,
    eps: Option<u64>,
}

impl SingleThreadedNodeUpdater {
    /// The errors accumulated and not yet drained, oldest first.
    pub closed spec fn pending_errors(&self) -> Seq<NodeUpdateError> {
        self.errors@
    }

    /// The configured pacing, as events per second.
    pub closed spec fn events_per_second(&self) -> Option<u64> {
        self.eps
    }

    pub fn new(eps: Option<u64>) -> (r: Self)
        ensures
            r.pending_errors().len() == 0,
            r.events_per_second() == eps,
    {
        Self { errors: Vec::new(), eps }
    }

    /// Runs the node's update now, if its lock is free.  A failed update is
    /// recorded with the node's id; earlier recorded errors are kept, in
    /// order, ahead of it.
    fn update_now(&mut self, node: (NodeId, SharedNode))
        ensures
            final(self).events_per_second() == old(self).events_per_second(),
            old(self).pending_errors().len() <= final(self).pending_errors().len()
                <= old(self).pending_errors().len() + 1,
            final(self).pending_errors().take(
                old(self).pending_errors().len() as int,
            ) == old(self).pending_errors(),
            forall|i: int|
                old(self).pending_errors().len() <= i < final(self).pending_errors().len()
                    ==> (#[trigger] final(self).pending_errors()[i]).node_id == Some(node.0)
                    && final(self).pending_errors()[i].node_desc is None,
    {
        proof {
            assert(old(self).pending_errors().take(old(self).pending_errors().len() as int)
                =~= old(self).pending_errors());
        }
        match worker_step(node) {
            Some(err) => {
                self.errors.push(err);
                proof {
                    assert(final(self).pending_errors().take(
                        old(self).pending_errors().len() as int,
                    ) =~= old(self).pending_errors());
                }
            },
            None => {},
        }
    }

    /// Hands out the accumulated errors, oldest first, leaving none behind.
    fn drain_errors(&mut self) -> (r: Vec<NodeUpdateError>)
        ensures
            r@ == old(self).pending_errors(),
            final(self).pending_errors().len() == 0,
            final(self).events_per_second() == old(self).events_per_second(),
    {
        let mut drained: Vec<NodeUpdateError> = Vec::new();
        std::mem::swap(&mut drained, &mut self.errors);
        drained
    }

    /// `FixedFrequency` when an events-per-second pacing was configured,
    /// plain spinning otherwise.
    fn current_sleep_mode(&self) -> (r: SleepMode)
        ensures
            match self.events_per_second() {
                Some(eps) => r == SleepMode::FixedFrequency(eps),
                None => r is NoSleep,
            },
    {
        match self.eps {
            None => SleepMode::NoSleep,
            Some(eps) => SleepMode::FixedFrequency(eps),
        }
    }
}

impl NodeUpdater for SingleThreadedNodeUpdater {
    fn update(&mut self, node: (NodeId, SharedNode), node_description: Option<NodeDescription>) {
        self.update_now(node);
    }

    fn errors(&mut self) -> Vec<NodeUpdateError> {
        self.drain_errors()
    }

    fn sleep_mode(&self) -> SleepMode {
        self.current_sleep_mode()
    }
}

impl Drop for SingleThreadedNodeUpdater {
    fn drop(&mut self)
        opens_invariants none
        no_unwind
    {
    }
}

} // verus!

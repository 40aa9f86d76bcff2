use vstd::prelude::*;

verus! {

/// Per-epoch bookkeeping handed to the scheduler: the number of nodes to
/// visit, the measured duration of the last epoch (in milliseconds), and
/// optional priority hints for later use.
pub struct SchedulingInfo {
    pub num_nodes: usize,
    /// Duration of the most recently finished epoch, in milliseconds.
    pub epoch_duration: u64,
    /// For later use.
    pub priorities: Vec<i8>,
}

impl SchedulingInfo {
    pub fn new(num_nodes: usize) -> (r: Self)
        ensures
            r.num_nodes == num_nodes,
            r.epoch_duration == 0,
            r.priorities@.len() == 0,
    {
        Self { num_nodes, epoch_duration: 0, priorities: Vec::new() }
    }
}

/// Selects which node index is updated next within an epoch.  The executor
/// assumes only these three methods; the round-robin policy is the provided
/// default, and alternate policies may implement this trait instead.
pub trait Scheduler {
    /// The next node index to update.
    fn get_next_node_idx(&mut self) -> usize;

    /// Whether the current epoch has enumerated all nodes; on the epoch's
    /// end the scheduler records the epoch's duration into `info`.
    fn epoch_is_over(&self, info: &mut SchedulingInfo) -> bool;

    /// Resets the scheduler's cursor for a fresh epoch.
    fn restart_epoch(&mut self, info: &mut SchedulingInfo);
}

} // verus!

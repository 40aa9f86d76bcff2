use vstd::prelude::*;

use crate::sched::scheduler::{Scheduler, SchedulingInfo};

verus! {

#[verifier::external_type_specification]
#[verifier::external_body]
pub struct ExInstant(web_time::Instant);

/// Relies on web_time::Instant::now: a reading of the monotonic clock.
#[verifier::external_body]
pub(crate) fn clock_now() -> web_time::Instant {
    web_time::Instant::now()
}

/// Relies on web_time::Instant::elapsed: the milliseconds passed since the
/// reading was taken, saturated into a u64.
#[verifier::external_body]
pub(crate) fn elapsed_ms(t: &web_time::Instant) -> u64 {
    let ms = t.elapsed().as_millis();
    if ms > u64::MAX as u128 {
        u64::MAX
    } else {
        ms as u64
    }
}

/// The default scheduling policy: within one epoch the cursor walks the node
/// indices `0, 1, 2, ...` in order, each position at most once, until every
/// node has been enumerated.
pub struct RoundRobinScheduler {
    cur_node_idx: usize,
    last_restart: web_time::Instant,
}

impl RoundRobinScheduler {
    /// The position of the epoch cursor: how many indices have been handed
    /// out since the epoch started.
    pub closed spec fn cursor(&self) -> usize {
        self.cur_node_idx
    }

    pub fn new() -> (r: Self)
        ensures
            r.cursor() == 0,
    {
        Self { cur_node_idx: 0, last_restart: clock_now() }
    }

}

/// The positions a freshly restarted round-robin scheduler hands out over
/// one epoch with `n` nodes: `0, 1, ..., n - 1`, in order.  The cursor
/// starts at 0 ([`RoundRobinScheduler::new`], `restart_epoch`), each
/// `get_next_node_idx` returns it and moves it one forward, and the epoch is
/// over once it reaches `n` (`epoch_is_over`).
pub open spec fn epoch_positions(n: nat) -> Seq<nat> {
    Seq::new(n, |i: int| i as nat)
}

/// Law: within one epoch the round-robin scheduler hands out no position
/// twice, so no node index is offered to the updater twice between an epoch's
/// restart and its end.
pub proof fn lemma_epoch_positions_distinct(n: nat, k1: int, k2: int)
    requires
        0 <= k1 < n,
        0 <= k2 < n,
        k1 != k2,
    ensures
        epoch_positions(n)[k1] != epoch_positions(n)[k2],
{
}

impl Scheduler for RoundRobinScheduler {
    /// Hands out the cursor position and moves the cursor forward: across
    /// one epoch the emitted indices are strictly increasing, so no index is
    /// emitted twice.  (The cursor saturates at the far end of `usize`,
    /// unreachable for any real flow.)
    fn get_next_node_idx(&mut self) -> (r: usize)
        ensures
            r == old(self).cursor(),
            old(self).cursor() < usize::MAX ==> final(self).cursor() == old(self).cursor() + 1,
            old(self).cursor() == usize::MAX ==> final(self).cursor() == usize::MAX,
            final(self).cursor() >= old(self).cursor(),
    {
        let r = self.cur_node_idx;
        if self.cur_node_idx < usize::MAX {
            self.cur_node_idx = self.cur_node_idx + 1;
        }
        r
    }

    /// True exactly when the cursor has enumerated all `info.num_nodes`
    /// positions; at that point the epoch's measured duration is written
    /// into `info`.
    fn epoch_is_over(&self, info: &mut SchedulingInfo) -> (r: bool)
        ensures
            r == (self.cursor() >= final(info).num_nodes),
            final(info).num_nodes == old(info).num_nodes,
            final(info).priorities == old(info).priorities,
            !r ==> *final(info) == *old(info),
    {
        if self.cur_node_idx >= info.num_nodes {
            info.epoch_duration = elapsed_ms(&self.last_restart);
            true
        } else {
            false
        }
    }

    /// Rewinds the cursor to position 0 and records the epoch's start time.
    fn restart_epoch(&mut self, _info: &mut SchedulingInfo)
        ensures
            final(self).cursor() == 0,
    {
        self.cur_node_idx = 0;
        self.last_restart = clock_now();
    }
}

} // verus!

use flowrs::scheduler::{Scheduler, SchedulingInfo};
use flowrs::sched::round_robin::RoundRobinScheduler;

/// One round-robin epoch over three nodes emits the positions 0, 1, 2, each
/// exactly once, and then reports the epoch as over.
#[test]
fn round_robin_emits_each_position_once_per_epoch() {
    let mut scheduler = RoundRobinScheduler::new();
    let mut info = SchedulingInfo::new(3);
    scheduler.restart_epoch(&mut info);
    let mut seen = vec![];
    while !scheduler.epoch_is_over(&mut info) {
        seen.push(scheduler.get_next_node_idx());
    }
    assert_eq!(seen, vec![0, 1, 2]);

    // The next epoch walks the same positions again, from the start.
    scheduler.restart_epoch(&mut info);
    let mut again = vec![];
    while !scheduler.epoch_is_over(&mut info) {
        again.push(scheduler.get_next_node_idx());
    }
    assert_eq!(again, vec![0, 1, 2]);
}

#[test]
fn scheduling_info_starts_clean() {
    let info = SchedulingInfo::new(7);
    assert_eq!(info.num_nodes, 7);
    assert_eq!(info.epoch_duration, 0);
    assert!(info.priorities.is_empty());
}

/// An epoch over an empty flow is over before it begins.
#[test]
fn empty_epoch_is_immediately_over() {
    let mut scheduler = RoundRobinScheduler::new();
    let mut info = SchedulingInfo::new(0);
    scheduler.restart_epoch(&mut info);
    assert!(scheduler.epoch_is_over(&mut info));
}

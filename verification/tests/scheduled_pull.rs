use quorum_store::logical_time::LogicalTime;
use quorum_store::scheduled_pull::{ScheduledPull, PULL_INTERVAL_MS};

#[test]
fn pull_is_pending_before_the_deadline_and_ready_from_it_on() {
    let mut pull: ScheduledPull<&str> = ScheduledPull::new(100, true);
    assert_eq!(pull.poll(0, "a"), None);
    assert_eq!(pull.poll(99, "b"), None);
    assert_eq!(pull.poll(100, "c"), Some(true));
    assert_eq!(pull.poll(101, "d"), Some(true));
    let mut pull: ScheduledPull<&str> = ScheduledPull::new(100, false);
    assert_eq!(pull.poll(500, "a"), Some(false));
}

#[test]
fn latest_poller_is_the_one_to_wake() {
    let mut pull: ScheduledPull<u32> = ScheduledPull::new(100, false);
    assert_eq!(pull.take_waker(), None);
    assert_eq!(pull.poll(10, 1), None);
    assert_eq!(pull.poll(20, 2), None);
    assert_eq!(pull.waker, Some(2));
    assert_eq!(pull.take_waker(), Some(2));
    assert_eq!(pull.take_waker(), None);
    // A poll at the deadline keeps what is there and registers nobody.
    assert_eq!(pull.poll(30, 3), None);
    assert_eq!(pull.poll(100, 4), Some(false));
    assert_eq!(pull.take_waker(), Some(3));
}

#[test]
fn timer_is_needed_only_before_the_deadline() {
    let pull: ScheduledPull<()> = ScheduledPull::new(100, false);
    assert!(pull.needs_timer(0));
    assert!(pull.needs_timer(99));
    assert!(!pull.needs_timer(100));
    assert!(!pull.needs_timer(u64::MAX));
}

#[test]
fn next_pull_is_one_interval_later() {
    assert_eq!(PULL_INTERVAL_MS, 50);
    let pull: ScheduledPull<()> = ScheduledPull::after(1000);
    assert_eq!(pull.deadline, 1050);
    assert!(!pull.backoff);
    assert!(pull.waker.is_none());
    let pull: ScheduledPull<()> = ScheduledPull::after(u64::MAX - 50);
    assert_eq!(pull.deadline, u64::MAX);
    let pull: ScheduledPull<()> = ScheduledPull::after(u64::MAX - 49);
    assert_eq!(pull.deadline, u64::MAX);
    let pull: ScheduledPull<()> = ScheduledPull::after(u64::MAX);
    assert_eq!(pull.deadline, u64::MAX);
}

#[test]
fn logical_time_is_ordered_by_epoch_then_round() {
    let t = LogicalTime::new(2, 5);
    assert_eq!(t.epoch(), 2);
    assert_eq!(t.round(), 5);
    assert!(LogicalTime::new(1, 100).is_before(&t));
    assert!(LogicalTime::new(2, 4).is_before(&t));
    assert!(!LogicalTime::new(2, 5).is_before(&t));
    assert!(!LogicalTime::new(2, 6).is_before(&t));
    assert!(!LogicalTime::new(3, 0).is_before(&t));
    assert!(LogicalTime::new(3, 0).is_after(&t));
    assert!(LogicalTime::new(2, 6).is_after(&t));
    assert!(!t.is_after(&t));
    assert!(!LogicalTime::new(1, 100).is_after(&t));
    // The order that comparisons use is the same one.
    let times = [(0u64, 0u64), (0, 9), (1, 0), (1, 10), (2, 5), (u64::MAX, 0)];
    for a in times.iter() {
        for b in times.iter() {
            let (x, y) = (LogicalTime::new(a.0, a.1), LogicalTime::new(b.0, b.1));
            assert_eq!(x.is_before(&y), x < y);
            assert_eq!(x.is_after(&y), x > y);
        }
    }
}

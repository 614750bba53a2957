use pros_async::reactor::{Reactor, TimerEntry, WakeHandle};

fn handle(id: u64) -> WakeHandle {
    WakeHandle { task_id: id }
}

#[test]
fn fresh_reactor_is_empty() {
    let r = Reactor::new();
    assert_eq!(r.len(), 0);
}

#[test]
fn push_keeps_ascending_target_order() {
    let mut r = Reactor::new();
    r.push(handle(1), 50);
    r.push(handle(2), 10);
    r.push(handle(3), 30);
    assert_eq!(r.len(), 3);
    assert_eq!(r.entry(0), TimerEntry { wake: handle(2), target: 10 });
    assert_eq!(r.entry(1), TimerEntry { wake: handle(3), target: 30 });
    assert_eq!(r.entry(2), TimerEntry { wake: handle(1), target: 50 });
}

#[test]
fn equal_targets_stay_in_insertion_order() {
    let mut r = Reactor::new();
    r.push(handle(1), 20);
    r.push(handle(2), 20);
    r.push(handle(3), 10);
    assert_eq!(r.entry(0), TimerEntry { wake: handle(3), target: 10 });
    assert_eq!(r.entry(1), TimerEntry { wake: handle(1), target: 20 });
    assert_eq!(r.entry(2), TimerEntry { wake: handle(2), target: 20 });
}

#[test]
fn pop_ready_returns_due_wakes_soonest_first() {
    // Insertion order [50, 10, 30]; a sweep at 100 fires in target order.
    let mut r = Reactor::new();
    r.push(handle(50), 50);
    r.push(handle(10), 10);
    r.push(handle(30), 30);
    let fired = r.pop_ready(100);
    let ids: Vec<u64> = fired.iter().map(|w| w.task_id).collect();
    assert_eq!(ids, vec![10, 30, 50]);
    assert_eq!(r.len(), 0);
}

#[test]
fn pop_ready_fires_exactly_the_strictly_earlier_entries() {
    let mut r = Reactor::new();
    r.push(handle(1), 5);
    r.push(handle(2), 40);
    r.push(handle(3), 41);
    r.push(handle(4), 100);
    let fired = r.pop_ready(41);
    let ids: Vec<u64> = fired.iter().map(|w| w.task_id).collect();
    assert_eq!(ids, vec![1, 2]);
    // Entries with target at or after the sweep time stay registered.
    assert_eq!(r.len(), 2);
    assert_eq!(r.entry(0), TimerEntry { wake: handle(3), target: 41 });
    assert_eq!(r.entry(1), TimerEntry { wake: handle(4), target: 100 });
}

#[test]
fn pop_ready_at_exact_target_leaves_entry_registered() {
    // Strict "<": an entry at exactly `now` must not fire.
    let mut r = Reactor::new();
    r.push(handle(7), 1020);
    let fired = r.pop_ready(1020);
    assert!(fired.is_empty());
    assert_eq!(r.len(), 1);
    let fired = r.pop_ready(1021);
    assert_eq!(fired.len(), 1);
    assert_eq!(fired[0].task_id, 7);
    assert_eq!(r.len(), 0);
}

#[test]
fn duplicate_registrations_fire_independently() {
    let mut r = Reactor::new();
    r.push(handle(9), 15);
    r.push(handle(9), 15);
    assert_eq!(r.len(), 2);
    let fired = r.pop_ready(16);
    assert_eq!(fired.len(), 2);
    assert_eq!(fired[0].task_id, 9);
    assert_eq!(fired[1].task_id, 9);
}

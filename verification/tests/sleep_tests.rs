use pros_async::reactor::{Reactor, WakeHandle};
use pros_async::suspend::{sleep, Poll, Suspend};

fn handle(id: u64) -> WakeHandle {
    WakeHandle { task_id: id }
}

#[test]
fn sleep_stores_target_once() {
    let mut reactor = Reactor::new();
    let mut s = sleep(1000, 20);
    // Polling early registers the fixed target, not a recomputed one.
    assert!(matches!(s.poll(1005, handle(0), &mut reactor), Poll::Pending));
    assert_eq!(reactor.entry(0).target, 1020);
}

#[test]
fn pending_before_target_ready_strictly_after() {
    let mut reactor = Reactor::new();
    let mut s = sleep(100, 50);
    assert!(matches!(s.poll(100, handle(0), &mut reactor), Poll::Pending));
    assert!(matches!(s.poll(149, handle(0), &mut reactor), Poll::Pending));
    assert_eq!(reactor.len(), 2);
    // Once the clock is strictly past the target the poll resolves and the
    // reactor is left untouched.
    assert!(matches!(s.poll(151, handle(0), &mut reactor), Poll::Ready(())));
    assert_eq!(reactor.len(), 2);
}

#[test]
fn still_pending_at_exact_target_time() {
    // Boundary rule: `now == target` reports pending; readiness needs a
    // strictly greater reading.
    let mut reactor = Reactor::new();
    let mut s = sleep(1000, 20);
    assert!(matches!(s.poll(1020, handle(0), &mut reactor), Poll::Pending));
    assert!(matches!(s.poll(1021, handle(0), &mut reactor), Poll::Ready(())));
}

#[test]
fn repolling_registers_two_independent_entries() {
    let mut reactor = Reactor::new();
    let mut s = sleep(0, 30);
    assert!(matches!(s.poll(10, handle(4), &mut reactor), Poll::Pending));
    assert!(matches!(s.poll(20, handle(4), &mut reactor), Poll::Pending));
    assert_eq!(reactor.len(), 2);
    assert_eq!(reactor.entry(0).target, 30);
    assert_eq!(reactor.entry(1).target, 30);
    // Both stale copies fire once due; each firing is harmless.
    let fired = reactor.pop_ready(31);
    assert_eq!(fired.len(), 2);
}

#[test]
fn sleep_target_wraps_at_clock_boundary() {
    // The millisecond arithmetic is not wraparound-safe: a target past the
    // u32 boundary wraps below `now`, and the very first poll resolves.
    let mut reactor = Reactor::new();
    let mut s = sleep(u32::MAX, 2);
    assert!(matches!(s.poll(u32::MAX, handle(0), &mut reactor), Poll::Ready(())));
    assert_eq!(reactor.len(), 0);
}

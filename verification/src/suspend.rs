//! Suspended computations and the sleep suspension primitive.
//!
//! A suspended computation can be polled repeatedly, returning either a
//! final result or a pending signal, and may register interest in being
//! re-polled later by pushing a timer entry onto the reactor.  The clock is
//! an external collaborator: every poll takes the current millisecond
//! reading as an argument instead of sampling hardware itself.

use crate::reactor::{
    insert_pos, lemma_insert_pos_bounds, lemma_insert_pos_unique, pushed, sorted_by_target,
    Reactor, TimerEntry, WakeHandle,
};
use vstd::prelude::*;

verus! {

/// What one poll of a suspended computation reports: a final result, or a
/// signal that the computation is parked until a wake handle fires.
#[derive(Debug)]
pub enum Poll<T> {
    /// The computation resolved with this value and is done.
    Ready(T),
    /// Not due yet; a wake was (or will be) arranged for a re-poll.
    Pending,
}

/// A suspended computation drivable by the executor.
///
/// Besides the executable `poll`, an implementor supplies a specification
/// of poll's behaviour at a given clock reading: the value it resolves
/// with, if due ([`outcome`](Self::outcome)); its state afterwards
/// ([`after_poll`](Self::after_poll)); and the timer target it registers
/// with the reactor, if any ([`registration`](Self::registration)).
pub trait Suspend: Sized {
    /// The type of the value the computation resolves with.
    type Output;

    /// The value a poll at `now` resolves with, or `None` if the
    /// computation stays pending.
    spec fn outcome(self, now: u32) -> Option<Self::Output>;

    /// The computation's state after being polled at `now`.
    spec fn after_poll(self, now: u32) -> Self;

    /// The timer target a poll at `now` registers with the reactor, if any.
    spec fn registration(self, now: u32) -> Option<u32>;

    /// Polls the computation at clock reading `now`.  A pending poll may
    /// register `waker` with the reactor so that the owner is re-polled
    /// once due.
    fn poll(&mut self, now: u32, waker: WakeHandle, reactor: &mut Reactor) -> (r: Poll<
        Self::Output,
    >)
        requires
            old(reactor).wf(),
        ensures
            final(reactor).wf(),
            *final(self) == (*old(self)).after_poll(now),
            (match r {
                Poll::Ready(v) => (*old(self)).outcome(now) == Some(v),
                Poll::Pending => (*old(self)).outcome(now) is None,
            }),
            (match (*old(self)).registration(now) {
                Some(t) => final(reactor)@ == pushed(old(reactor)@, waker, t),
                None => final(reactor)@ == old(reactor)@,
            }),
    ;
}

/// A suspension point that completes once the clock passes a fixed target
/// time.  The target is computed once, at construction, and never
/// recomputed.  Sleepers closer to completion are prioritized by the
/// reactor, so when several timers become due in one sweep the soonest
/// targets are woken first.
#[derive(Debug)]
pub struct SleepFuture {
    target_millis: u32,
}

/// Returns a suspension point that completes once the clock reading passes
/// `now + duration_ms`.  The sum wraps at the `u32` boundary, and the
/// readiness comparisons elsewhere in the core are likewise not
/// wraparound-safe: behaviour across the clock's rollover is a documented
/// hazard, not corrected here.
pub fn sleep(now: u32, duration_ms: u32) -> (r: SleepFuture)
    ensures
        r.target() == vstd::wrapping::u32_specs::wrapping_add(now, duration_ms),
{
    SleepFuture { target_millis: now.wrapping_add(duration_ms) }
}

impl SleepFuture {
    /// The clock reading the suspension point waits to be passed.
    pub closed spec fn target(self) -> u32 {
        self.target_millis
    }

    /// Readiness check: due only when `now` lies strictly beyond the
    /// target.  At `now == target` the suspension point still reports
    /// pending.
    pub open spec fn is_due(self, now: u32) -> bool {
        self.target() < now
    }
}

impl Suspend for SleepFuture {
    type Output = ();

    open spec fn outcome(self, now: u32) -> Option<()> {
        if self.is_due(now) {
            Some(())
        } else {
            None
        }
    }

    open spec fn after_poll(self, now: u32) -> SleepFuture {
        self
    }

    open spec fn registration(self, now: u32) -> Option<u32> {
        if self.is_due(now) {
            None
        } else {
            Some(self.target())
        }
    }

    fn poll(&mut self, now: u32, waker: WakeHandle, reactor: &mut Reactor) -> (r: Poll<()>) {
        if self.target_millis < now {
            Poll::Ready(())
        } else {
            reactor.push(waker, self.target_millis);
            Poll::Pending
        }
    }
}

/// For a positive duration that keeps the target within the clock's range,
/// the suspension point built at `now0` stays pending — registering its
/// fixed target — at every reading up to and including the target, and
/// resolves at every reading strictly past it, with no reactor interaction
/// once due.  The wrapping construction is excluded here: a target that
/// wraps past the `u32` boundary lies below `now0` and resolves at once.
pub proof fn lemma_sleep_lifecycle(
    now0: u32,
    duration_ms: u32,
    s: SleepFuture,
    now_early: u32,
    now_late: u32,
)
    requires
        1 <= duration_ms,
        now0 + duration_ms <= u32::MAX,
        s.target() == vstd::wrapping::u32_specs::wrapping_add(now0, duration_ms),
        now0 <= now_early <= s.target(),
        s.target() < now_late,
    ensures
        s.target() == now0 + duration_ms,
        s.outcome(now_early) is None,
        s.registration(now_early) == Some(s.target()),
        s.after_poll(now_early) == s,
        s.outcome(now_late) == Some(()),
        s.registration(now_late) is None,
{
}

/// Boundary rule: at `now == target` the suspension point still reports
/// pending and still registers — readiness needs `now` strictly greater
/// than the target.
pub proof fn lemma_sleep_boundary(s: SleepFuture)
    ensures
        s.outcome(s.target()) is None,
        s.registration(s.target()) == Some(s.target()),
{
}

/// Polling the same still-pending suspension point twice registers two
/// independent reactor entries: after both pushes the reactor holds the
/// entry twice, side by side, in insertion order.  Nothing deduplicates
/// them; the second, redundant firing is left to the executor, where a
/// wake without a parked owner is a harmless no-op.
pub proof fn lemma_repoll_registers_twice(
    s: SleepFuture,
    now1: u32,
    now2: u32,
    timers: Seq<TimerEntry>,
    w: WakeHandle,
)
    requires
        !s.is_due(now1),
        !s.is_due(now2),
        sorted_by_target(timers),
    ensures
        s.registration(now1) == Some(s.target()),
        s.registration(now2) == Some(s.target()),
        ({
            let twice = pushed(pushed(timers, w, s.target()), w, s.target());
            let p = insert_pos(timers, s.target());
            &&& twice.len() == timers.len() + 2
            &&& twice[p] == TimerEntry { wake: w, target: s.target() }
            &&& twice[p + 1] == TimerEntry { wake: w, target: s.target() }
        }),
{
    let t = s.target();
    let entry = TimerEntry { wake: w, target: t };
    let p = insert_pos(timers, t);
    lemma_insert_pos_bounds(timers, t);
    let once = pushed(timers, w, t);
    assert forall|j: int| 0 <= j < p + 1 implies once[j].target <= t by {
        if j < p {
            assert(once[j] == timers[j]);
        } else {
            assert(once[j] == entry);
        }
    }
    if p + 1 < once.len() {
        assert(once[p + 1] == timers[p]);
    }
    lemma_insert_pos_unique(once, t, p + 1);
    let twice = pushed(once, w, t);
    assert(twice[p] == once[p]);
    assert(once[p] == entry);
    assert(twice[p + 1] == entry);
}

/// A computation that is ready at once: its first poll resolves with the
/// stored value, with no reactor interaction.
#[derive(Debug)]
pub struct Immediate<T> {
    /// The value still to be handed out, if the computation has not
    /// resolved yet.
    pub value: Option<T>,
}

impl<T> Immediate<T> {
    /// A computation whose first poll resolves with `value`.
    pub fn new(value: T) -> (r: Immediate<T>)
        ensures
            r.value == Some(value),
    {
        Immediate { value: Some(value) }
    }
}

impl<T> Suspend for Immediate<T> {
    type Output = T;

    open spec fn outcome(self, now: u32) -> Option<T> {
        self.value
    }

    open spec fn after_poll(self, now: u32) -> Immediate<T> {
        Immediate { value: None }
    }

    open spec fn registration(self, now: u32) -> Option<u32> {
        None
    }

    fn poll(&mut self, now: u32, waker: WakeHandle, reactor: &mut Reactor) -> (r: Poll<T>) {
        match self.value.take() {
            Some(v) => Poll::Ready(v),
            None => Poll::Pending,
        }
    }
}

/// A computation that awaits a sleep suspension point and then resolves
/// with the stored value: the shape of a root task that sleeps once and
/// returns.
#[derive(Debug)]
pub struct Delayed<T> {
    /// The suspension point gating the result.
    pub sleep: SleepFuture,
    /// The value handed out once the sleep is due, if not yet resolved.
    pub value: Option<T>,
}

impl<T> Delayed<T> {
    /// A computation that resolves with `value` once `sleep` is due.
    pub fn new(sleep: SleepFuture, value: T) -> (r: Delayed<T>)
        ensures
            r.sleep == sleep,
            r.value == Some(value),
    {
        Delayed { sleep, value: Some(value) }
    }
}

impl<T> Suspend for Delayed<T> {
    type Output = T;

    open spec fn outcome(self, now: u32) -> Option<T> {
        if self.sleep.is_due(now) {
            self.value
        } else {
            None
        }
    }

    open spec fn after_poll(self, now: u32) -> Delayed<T> {
        if self.sleep.is_due(now) {
            Delayed { sleep: self.sleep, value: None }
        } else {
            self
        }
    }

    open spec fn registration(self, now: u32) -> Option<u32> {
        if self.sleep.is_due(now) {
            None
        } else {
            Some(self.sleep.target())
        }
    }

    fn poll(&mut self, now: u32, waker: WakeHandle, reactor: &mut Reactor) -> (r: Poll<T>) {
        match self.sleep.poll(now, waker, reactor) {
            Poll::Ready(()) => match self.value.take() {
                Some(v) => Poll::Ready(v),
                None => Poll::Pending,
            },
            Poll::Pending => Poll::Pending,
        }
    }
}

} // verus!

//! The executor: a ready queue of runnable computations and a private
//! timer reactor, driven cooperatively until the root computation resolves.
//!
//! One executor is scoped to one execution context — it is owned by the
//! synchronous driver's call frame, never globally shared.  Each call to
//! [`Executor::step`] is one iteration of the run loop: poll every
//! currently-ready computation exactly once, then sweep the reactor at the
//! given clock reading and re-enqueue everything that came due.  The caller
//! supplies the clock readings; a driver loop outside the verified core
//! busy-polls the hardware clock between steps.

use crate::reactor::{due_count, pushed, Reactor, TimerEntry, WakeHandle};
use crate::suspend::{Immediate, Poll, Suspend};
use vstd::prelude::*;

verus! {

/// The task identity of the root computation.  A single driver invocation
/// is responsible for exactly one root, so one well-known identity
/// suffices; wake handles carrying any other identity fire into the void.
pub const ROOT_TASK: u64 = 0;

/// The wake handle handed to the root computation on every poll.
pub open spec fn root_waker() -> WakeHandle {
    WakeHandle { task_id: ROOT_TASK }
}

/// What one pass over a ready batch does, given the root computation (if
/// still unresolved), the reactor contents and the batch of task
/// identities to poll, at clock reading `now`: the root afterwards, the
/// reactor contents afterwards, and the root's result if it resolved
/// during the pass.  The pass stops at the first resolution; identities
/// other than [`ROOT_TASK`], and wakes for an already-resolved root, are
/// harmless no-ops.
pub open spec fn batch_run<F: Suspend>(
    root: Option<F>,
    timers: Seq<TimerEntry>,
    batch: Seq<u64>,
    now: u32,
) -> (Option<F>, Seq<TimerEntry>, Option<F::Output>)
    decreases batch.len(),
{
    if batch.len() <= 0 {
        (root, timers, None)
    } else if batch[0] == ROOT_TASK && root is Some {
        let f = root->Some_0;
        let timers2 = match f.registration(now) {
            Some(t) => pushed(timers, root_waker(), t),
            None => timers,
        };
        match f.outcome(now) {
            Some(v) => (None, timers2, Some(v)),
            None => batch_run(Some(f.after_poll(now)), timers2, batch.drop_first(), now),
        }
    } else {
        batch_run(root, timers, batch.drop_first(), now)
    }
}

/// A wake for an already-resolved root is a no-op, however often it fires:
/// the pass leaves the reactor untouched and resolves nothing.
pub proof fn lemma_stale_wakes_noop<F: Suspend>(
    timers: Seq<TimerEntry>,
    batch: Seq<u64>,
    now: u32,
)
    ensures
        batch_run(None::<F>, timers, batch, now) == (None::<F>, timers, None::<F::Output>),
    decreases batch.len(),
{
    if batch.len() > 0 {
        lemma_stale_wakes_noop::<F>(timers, batch.drop_first(), now);
    }
}

/// A root that resolves on its first poll, registering no timer, completes
/// the run loop in a single ready pass: the result surfaces at once, no
/// timer is registered, and the reactor is not even swept — the iteration
/// leaves it exactly as it was.
pub proof fn lemma_ready_root_completes<F: Suspend>(
    root: F,
    timers: Seq<TimerEntry>,
    now: u32,
    v: F::Output,
)
    requires
        root.outcome(now) == Some(v),
        root.registration(now) is None,
    ensures
        batch_run(Some(root), timers, seq![ROOT_TASK], now) == (
            None::<F>,
            timers,
            Some(v),
        ),
        stepped(Some(root), timers, seq![ROOT_TASK], now) == (
            (None::<F>, timers, Seq::<u64>::empty()),
            Some(v),
        ),
{
}

/// What one whole run-loop iteration does to the executor state, at the
/// specification level: the ready pass of [`batch_run`], then — unless the
/// root resolved — the reactor sweep at `now`, whose due wakes become the
/// next ready queue.  Returns the state afterwards, as the triple of root,
/// reactor contents and ready queue, together with the root's result if it
/// resolved.
pub open spec fn stepped<F: Suspend>(
    root: Option<F>,
    timers: Seq<TimerEntry>,
    queue: Seq<u64>,
    now: u32,
) -> ((Option<F>, Seq<TimerEntry>, Seq<u64>), Option<F::Output>) {
    let (root2, timers2, out) = batch_run(root, timers, queue, now);
    if out is Some {
        ((None, timers2, Seq::<u64>::empty()), out)
    } else {
        (
            (
                root2,
                timers2.skip(due_count(timers2, now)),
                timers2.take(due_count(timers2, now)).map_values(|e: TimerEntry| e.wake.task_id),
            ),
            None,
        )
    }
}

/// What the run loop returns when it observes the given schedule of clock
/// readings, one whole iteration per reading: the root's result at the
/// first reading under which it resolves, or `None` if the schedule runs
/// out first.
pub open spec fn driven<F: Suspend>(
    root: Option<F>,
    timers: Seq<TimerEntry>,
    queue: Seq<u64>,
    readings: Seq<u32>,
) -> Option<F::Output>
    decreases readings.len(),
{
    if readings.len() <= 0 {
        None
    } else {
        let (state, out) = stepped(root, timers, queue, readings[0]);
        if out is Some {
            out
        } else {
            driven(state.0, state.1, state.2, readings.drop_first())
        }
    }
}

/// Driving an immediately-ready root — the shape of an unoverridden
/// lifecycle hook's no-op result — completes the driver with that value on
/// the very first clock reading, whatever the schedule holds.
pub proof fn lemma_drive_immediate<T>(v: T, readings: Seq<u32>)
    requires
        readings.len() > 0,
    ensures
        driven(
            Some(Immediate { value: Some(v) }),
            Seq::<TimerEntry>::empty(),
            seq![ROOT_TASK],
            readings,
        ) == Some(v),
{
    lemma_ready_root_completes(
        Immediate { value: Some(v) },
        Seq::<TimerEntry>::empty(),
        readings[0],
        v,
    );
}

/// Owns the ready queue and the timer reactor for one execution context
/// and drives one root computation.
pub struct Executor<F: Suspend> {
    root: Option<F>,
    ready_queue: Vec<u64>,
    reactor: Reactor,
}

impl<F: Suspend> Executor<F> {
    /// The root computation, or `None` once it has resolved and been
    /// dropped from scheduling.
    pub closed spec fn spec_root(self) -> Option<F> {
        self.root
    }

    /// The task identities queued for the next ready pass, in FIFO order.
    pub closed spec fn queue(self) -> Seq<u64> {
        self.ready_queue@
    }

    /// The reactor's registered timer entries, in ascending target order.
    pub closed spec fn timers(self) -> Seq<TimerEntry> {
        self.reactor@
    }

    /// The executor's reactor keeps its entries sorted.
    pub open spec fn wf(self) -> bool {
        crate::reactor::sorted_by_target(self.timers())
    }

    /// A fresh executor: the root is enqueued for the first ready pass and
    /// no timers are registered.
    pub fn new(root: F) -> (e: Executor<F>)
        ensures
            e.wf(),
            e.spec_root() == Some(root),
            e.queue() == seq![ROOT_TASK],
            e.timers() == Seq::<TimerEntry>::empty(),
    {
        let mut queue: Vec<u64> = Vec::new();
        queue.push(ROOT_TASK);
        proof {
            assert(queue@ =~= seq![ROOT_TASK]);
        }
        Executor { root: Some(root), ready_queue: queue, reactor: Reactor::new() }
    }

    /// Whether the root computation has resolved.
    pub fn is_finished(&self) -> (r: bool)
        ensures
            r == (self.spec_root() is None),
    {
        self.root.is_none()
    }

    /// How many timer registrations the executor's reactor holds.
    pub fn timer_count(&self) -> (n: usize)
        ensures
            n == self.timers().len(),
    {
        self.reactor.len()
    }

    /// How many task identities are queued for the next ready pass.
    pub fn queue_len(&self) -> (n: usize)
        ensures
            n == self.queue().len(),
    {
        self.ready_queue.len()
    }

    /// Invoking a wake handle: marks the computation it identifies as
    /// ready by enqueueing it for the next ready pass.  Stale handles —
    /// any identity without a parked owner — are filtered out at poll
    /// time, not here.
    pub fn wake(&mut self, w: WakeHandle)
        ensures
            final(self).spec_root() == old(self).spec_root(),
            final(self).timers() == old(self).timers(),
            final(self).queue() == old(self).queue().push(w.task_id),
    {
        self.ready_queue.push(w.task_id);
    }

    /// One iteration of the run loop at clock reading `now`: polls every
    /// queued identity exactly once, stopping early if the root resolves,
    /// then sweeps the reactor and enqueues the due wakes — soonest target
    /// first — for the next pass.  Returns the root's result as soon as it
    /// resolves, and `None` while work remains pending.
    pub fn step(&mut self, now: u32) -> (r: Option<F::Output>)
        requires
            old(self).wf(),
        ensures
            final(self).wf(),
            ({
                let (state, out) = stepped(
                    old(self).spec_root(),
                    old(self).timers(),
                    old(self).queue(),
                    now,
                );
                &&& r == out
                &&& final(self).spec_root() == state.0
                &&& final(self).timers() == state.1
                &&& final(self).queue() == state.2
            }),
    {
        let ghost root0 = old(self).spec_root();
        let ghost timers0 = old(self).timers();
        let ghost queue0 = old(self).queue();
        let n = self.ready_queue.len();
        let mut i: usize = 0;
        proof {
            assert(queue0.skip(0) =~= queue0);
        }
        while i < n
            invariant
                0 <= i <= n,
                n == queue0.len(),
                root0 == old(self).spec_root(),
                timers0 == old(self).timers(),
                queue0 == old(self).queue(),
                self.ready_queue@ == queue0,
                self.wf(),
                batch_run(self.root, self.reactor@, queue0.skip(i as int), now) == batch_run(
                    root0,
                    timers0,
                    queue0,
                    now,
                ),
            decreases n - i,
        {
            let ghost pre_root = self.root;
            let ghost pre_timers = self.reactor@;
            proof {
                assert(queue0.skip(i as int).len() > 0);
                assert(queue0.skip(i as int)[0] == queue0[i as int]);
                assert(queue0.skip(i as int).drop_first() =~= queue0.skip(i as int + 1));
            }
            let id = self.ready_queue[i];
            if id == ROOT_TASK {
                match self.root.take() {
                    Some(mut f) => {
                        let waker = WakeHandle { task_id: ROOT_TASK };
                        match f.poll(now, waker, &mut self.reactor) {
                            Poll::Ready(v) => {
                                self.ready_queue.clear();
                                proof {
                                    assert(batch_run(pre_root, pre_timers, queue0.skip(i as int), now)
                                        == (None::<F>, self.reactor@, Some(v)));
                                    assert(batch_run(root0, timers0, queue0, now) == (
                                        None::<F>,
                                        self.reactor@,
                                        Some(v),
                                    ));
                                    assert(self.ready_queue@ =~= Seq::<u64>::empty());
                                }
                                return Some(v);
                            },
                            Poll::Pending => {
                                self.root = Some(f);
                            },
                        }
                    },
                    None => {},
                }
            }
            i += 1;
        }
        proof {
            assert(queue0.skip(n as int) =~= Seq::<u64>::empty());
        }
        let ghost timers_after_batch = self.reactor@;
        let fired = self.reactor.pop_ready(now);
        self.ready_queue.clear();
        let ghost root1 = self.root;
        let ghost timers1 = self.reactor@;
        let m = fired.len();
        let mut j: usize = 0;
        while j < m
            invariant
                0 <= j <= m,
                m == fired@.len(),
                self.root == root1,
                self.reactor@ == timers1,
                self.ready_queue@ == fired@.take(j as int).map_values(|w: WakeHandle| w.task_id),
            decreases m - j,
        {
            let w = fired[j];
            self.ready_queue.push(w.task_id);
            proof {
                assert(fired@.take(j as int + 1).map_values(|x: WakeHandle| x.task_id)
                    =~= fired@.take(j as int).map_values(|x: WakeHandle| x.task_id).push(
                    fired@[j as int].task_id,
                ));
            }
            j += 1;
        }
        proof {
            assert(fired@.take(m as int) =~= fired@);
            let dc = due_count(timers_after_batch, now);
            assert(fired@.map_values(|w: WakeHandle| w.task_id) =~= timers_after_batch.take(
                dc,
            ).map_values(|e: TimerEntry| e.wake.task_id));
        }
        None
    }
}

/// The synchronous driver over a fixed schedule of clock readings: builds a
/// fresh executor for the root and runs one whole loop iteration per
/// reading, returning the root's result as soon as it resolves.  The
/// busy-polling driver outside the core is this same loop with the
/// schedule supplied by the hardware clock, one reading per spin.
pub fn drive<F: Suspend>(root: F, readings: &Vec<u32>) -> (r: Option<F::Output>)
    ensures
        r == driven(
            Some(root),
            Seq::<TimerEntry>::empty(),
            seq![ROOT_TASK],
            readings@,
        ),
{
    let ghost root0 = root;
    let mut exec = Executor::new(root);
    let n = readings.len();
    let mut i: usize = 0;
    proof {
        assert(readings@.skip(0) =~= readings@);
    }
    while i < n
        invariant
            0 <= i <= n,
            n == readings@.len(),
            root0 == root,
            exec.wf(),
            driven(exec.spec_root(), exec.timers(), exec.queue(), readings@.skip(i as int))
                == driven(
                Some(root0),
                Seq::<TimerEntry>::empty(),
                seq![ROOT_TASK],
                readings@,
            ),
        decreases n - i,
    {
        let ghost pre_root = exec.spec_root();
        let ghost pre_timers = exec.timers();
        let ghost pre_queue = exec.queue();
        proof {
            assert(readings@.skip(i as int).len() > 0);
            assert(readings@.skip(i as int)[0] == readings@[i as int]);
            assert(readings@.skip(i as int).drop_first() =~= readings@.skip(i as int + 1));
        }
        let now = readings[i];
        match exec.step(now) {
            Some(v) => {
                proof {
                    assert(driven(pre_root, pre_timers, pre_queue, readings@.skip(i as int))
                        == Some(v));
                }
                return Some(v);
            },
            None => {},
        }
        i += 1;
    }
    proof {
        assert(readings@.skip(n as int) =~= Seq::<u32>::empty());
    }
    None
}

} // verus!

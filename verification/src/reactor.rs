//! The timer reactor: the set of pending "wake at time T" registrations.
//!
//! The reactor owns an ordered multiset of [`TimerEntry`] values.  Entries
//! are kept sorted by target time, stable among equal targets, so that a
//! sweep always hands back the soonest sleepers first.  An entry can only
//! leave the structure by becoming due: there is no cancellation interface,
//! because firing a wake whose owner is already resolved or discarded is a
//! harmless no-op.

use vstd::prelude::*;

verus! {

/// An opaque, clonable capability that identifies the suspended computation
/// a timer firing should mark ready for re-polling.  It holds no ownership
/// of the computation itself — a back-reference only.
#[derive(Clone, Copy, PartialEq, Eq, Structural, Debug)]
pub struct WakeHandle {
    /// The executor-assigned identity of the computation to re-poll.
    pub task_id: u64,
}

/// One "wake at `target`" registration.  Created when a sleep suspension
/// point is polled while still pending; consumed exactly once, when its
/// target time becomes due.
#[derive(Clone, Copy, PartialEq, Eq, Structural, Debug)]
pub struct TimerEntry {
    /// Who to wake when the entry fires.
    pub wake: WakeHandle,
    /// The entry fires once the clock reading is strictly greater than this.
    pub target: u32,
}

/// The registered entries are ordered by ascending target time.
pub open spec fn sorted_by_target(s: Seq<TimerEntry>) -> bool {
    forall|i: int, j: int| 0 <= i <= j < s.len() ==> s[i].target <= s[j].target
}

/// Length of the longest prefix whose targets are at most `t`: the position
/// where a new entry with target `t` lands, keeping insertion order among
/// equal targets.
pub open spec fn insert_pos(s: Seq<TimerEntry>, t: u32) -> int
    decreases s.len(),
{
    if s.len() == 0 {
        0
    } else if s[0].target <= t {
        1 + insert_pos(s.drop_first(), t)
    } else {
        0
    }
}

/// The registered entries after a push of `(w, t)`.
pub open spec fn pushed(s: Seq<TimerEntry>, w: WakeHandle, t: u32) -> Seq<TimerEntry> {
    s.insert(insert_pos(s, t), TimerEntry { wake: w, target: t })
}

/// Length of the longest prefix whose targets lie strictly before `now`:
/// how many entries a sweep at `now` fires.
pub open spec fn due_count(s: Seq<TimerEntry>, now: u32) -> int
    decreases s.len(),
{
    if s.len() == 0 {
        0
    } else if s[0].target < now {
        1 + due_count(s.drop_first(), now)
    } else {
        0
    }
}

/// `insert_pos` is the unique boundary `k` such that everything before `k`
/// has target at most `t` and the entry at `k`, if any, exceeds `t`.
pub proof fn lemma_insert_pos_unique(s: Seq<TimerEntry>, t: u32, k: int)
    requires
        0 <= k <= s.len(),
        forall|j: int| 0 <= j < k ==> s[j].target <= t,
        k < s.len() ==> s[k].target > t,
    ensures
        insert_pos(s, t) == k,
    decreases s.len(),
{
    if s.len() == 0 {
    } else if k == 0 {
    } else {
        assert(s[0].target <= t);
        lemma_insert_pos_unique(s.drop_first(), t, k - 1);
    }
}

/// `insert_pos` lies within the sequence, everything before it has target at
/// most `t`, and the entry at the position, if any, exceeds `t`.
pub proof fn lemma_insert_pos_bounds(s: Seq<TimerEntry>, t: u32)
    ensures
        0 <= insert_pos(s, t) <= s.len(),
        forall|j: int| 0 <= j < insert_pos(s, t) ==> s[j].target <= t,
        insert_pos(s, t) < s.len() ==> s[insert_pos(s, t)].target > t,
    decreases s.len(),
{
    if s.len() == 0 {
    } else if s[0].target <= t {
        let st = s.drop_first();
        lemma_insert_pos_bounds(st, t);
        let p = insert_pos(s, t);
        assert forall|j: int| 0 <= j < p implies s[j].target <= t by {
            if j > 0 {
                assert(s[j] == st[j - 1]);
            }
        }
        if p < s.len() {
            assert(s[p] == st[p - 1]);
        }
    }
}

/// Pushing preserves the ascending-target order.
pub proof fn lemma_pushed_sorted(s: Seq<TimerEntry>, w: WakeHandle, t: u32)
    requires
        sorted_by_target(s),
    ensures
        sorted_by_target(pushed(s, w, t)),
{
    lemma_insert_pos_bounds(s, t);
    let p = insert_pos(s, t);
    let s2 = pushed(s, w, t);
    assert forall|i: int, j: int| 0 <= i <= j < s2.len() implies s2[i].target <= s2[j].target by {
        if i < p && p < j {
            assert(s[i].target <= t);
            assert(s[j - 1].target > t) by {
                assert(s[p].target > t);
                assert(s[p].target <= s[j - 1].target);
            }
        }
    }
}

/// `due_count` is the unique boundary `k` such that everything before `k` is
/// strictly before `now` and the entry at `k`, if any, is not.
pub proof fn lemma_due_count_unique(s: Seq<TimerEntry>, now: u32, k: int)
    requires
        0 <= k <= s.len(),
        forall|j: int| 0 <= j < k ==> s[j].target < now,
        k < s.len() ==> s[k].target >= now,
    ensures
        due_count(s, now) == k,
    decreases s.len(),
{
    if s.len() == 0 {
    } else if k == 0 {
    } else {
        assert(s[0].target < now);
        lemma_due_count_unique(s.drop_first(), now, k - 1);
    }
}

/// `due_count` lies within the sequence, everything before it is due, and —
/// given the sort order — everything from it on is not yet due.
pub proof fn lemma_due_count_bounds(s: Seq<TimerEntry>, now: u32)
    requires
        sorted_by_target(s),
    ensures
        0 <= due_count(s, now) <= s.len(),
        forall|j: int| 0 <= j < due_count(s, now) ==> s[j].target < now,
        forall|j: int| due_count(s, now) <= j < s.len() ==> s[j].target >= now,
    decreases s.len(),
{
    if s.len() == 0 {
    } else if s[0].target < now {
        let st = s.drop_first();
        assert forall|i: int, j: int| 0 <= i <= j < st.len() implies st[i].target
            <= st[j].target by {
            assert(st[i] == s[i + 1]);
            assert(st[j] == s[j + 1]);
        }
        lemma_due_count_bounds(st, now);
        let d = due_count(s, now);
        assert forall|j: int| 0 <= j < d implies s[j].target < now by {
            if j > 0 {
                assert(s[j] == st[j - 1]);
            }
        }
        assert forall|j: int| d <= j < s.len() implies s[j].target >= now by {
            assert(s[j] == st[j - 1]);
        }
    } else {
        let d = due_count(s, now);
        assert forall|j: int| d <= j < s.len() implies s[j].target >= now by {
            assert(s[0].target <= s[j].target);
        }
    }
}

/// Owns the pending timer registrations and answers "which registrations are
/// due" queries.  Viewed as the sequence of registered entries in ascending
/// target order.
pub struct Reactor {
    sleepers: Vec<TimerEntry>,
}

impl View for Reactor {
    type V = Seq<TimerEntry>;

    closed spec fn view(&self) -> Seq<TimerEntry> {
        self.sleepers@
    }
}

impl Reactor {
    /// The registered entries are kept in ascending target order.
    pub open spec fn wf(&self) -> bool {
        sorted_by_target(self@)
    }

    /// A fresh reactor holds no registrations.
    pub fn new() -> (r: Reactor)
        ensures
            r.wf(),
            r@ == Seq::<TimerEntry>::empty(),
    {
        Reactor { sleepers: Vec::new() }
    }

    /// How many registrations are pending.
    pub fn len(&self) -> (n: usize)
        ensures
            n == self@.len(),
    {
        self.sleepers.len()
    }

    /// The registered entry at position `i`, soonest targets first.
    pub fn entry(&self, i: usize) -> (e: TimerEntry)
        requires
            i < self@.len(),
        ensures
            e == self@[i as int],
    {
        self.sleepers[i]
    }

    /// Registers a wake at `target`.  No deduplication: registering the same
    /// logical sleeper twice creates two independent entries.  The new entry
    /// goes after every entry with an equal or earlier target, so equal
    /// targets stay in insertion order.
    pub fn push(&mut self, wake: WakeHandle, target: u32)
        requires
            old(self).wf(),
        ensures
            final(self).wf(),
            final(self)@ == pushed(old(self)@, wake, target),
    {
        let ghost s0 = self.sleepers@;
        let n = self.sleepers.len();
        let mut i: usize = 0;
        while i < n && self.sleepers[i].target <= target
            invariant
                self.sleepers@ == s0,
                n == s0.len(),
                0 <= i <= n,
                forall|j: int| 0 <= j < i ==> s0[j].target <= target,
            decreases n - i,
        {
            i += 1;
        }
        proof {
            lemma_insert_pos_unique(s0, target, i as int);
            lemma_pushed_sorted(s0, wake, target);
        }
        self.sleepers.insert(i, TimerEntry { wake, target });
    }

    /// Removes and returns, soonest target first, the wake handle of every
    /// entry whose target lies strictly before `now`.  Entries with target
    /// at or after `now` remain registered, untouched.  The strict
    /// inequality matches the sleep suspension point's own readiness check,
    /// so a wake never fires a tick early.
    pub fn pop_ready(&mut self, now: u32) -> (fired: Vec<WakeHandle>)
        requires
            old(self).wf(),
        ensures
            final(self).wf(),
            final(self)@ == old(self)@.skip(due_count(old(self)@, now)),
            fired@ == old(self)@.take(due_count(old(self)@, now)).map_values(
                |e: TimerEntry| e.wake,
            ),
            forall|j: int| 0 <= j < due_count(old(self)@, now) ==> old(self)@[j].target < now,
            forall|j: int|
                due_count(old(self)@, now) <= j < old(self)@.len() ==> old(self)@[j].target >= now,
            sorted_by_target(old(self)@.take(due_count(old(self)@, now))),
    {
        let ghost s0 = self.sleepers@;
        let mut fired: Vec<WakeHandle> = Vec::new();
        while self.sleepers.len() > 0 && self.sleepers[0].target < now
            invariant
                sorted_by_target(s0),
                fired@.len() <= s0.len(),
                self.sleepers@ == s0.skip(fired@.len() as int),
                fired@ == s0.take(fired@.len() as int).map_values(|e: TimerEntry| e.wake),
                forall|j: int| 0 <= j < fired@.len() ==> s0[j].target < now,
            decreases self.sleepers@.len(),
        {
            let ghost k = fired@.len() as int;
            let e = self.sleepers.remove(0);
            fired.push(e.wake);
            proof {
                assert(e == s0[k]);
                assert(s0.skip(k).remove(0) =~= s0.skip(k + 1));
                assert(s0.take(k + 1).map_values(|x: TimerEntry| x.wake) =~= s0.take(k)
                    .map_values(|x: TimerEntry| x.wake)
                    .push(s0[k].wake));
            }
        }
        proof {
            let k = fired@.len() as int;
            if k < s0.len() {
                assert(s0.skip(k).len() > 0);
                assert(s0[k] == s0.skip(k)[0]);
            }
            lemma_due_count_unique(s0, now, k);
            lemma_due_count_bounds(s0, now);
            assert(sorted_by_target(s0.skip(k))) by {
                assert(forall|i: int, j: int|
                    0 <= i <= j < s0.skip(k).len() ==> s0.skip(k)[i].target
                        <= s0.skip(k)[j].target);
            }
            assert(sorted_by_target(s0.take(k))) by {
                assert(forall|i: int, j: int|
                    0 <= i <= j < s0.take(k).len() ==> s0.take(k)[i].target
                        <= s0.take(k)[j].target);
            }
        }
        fired
    }
}

} // verus!

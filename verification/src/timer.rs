//! A cooperative periodic-timer facility.
//!
//! The hosting runtime drives it; the model keeps what the task's contracts
//! need: which periodic timers are active, under which handles, and that a
//! newly scheduled handle is fresh. Firing is the host's business — it reads
//! the active entries and invokes the owners at their periods, interleaved
//! with message handling, never preempting it.

use vstd::prelude::*;

verus! {

/// Filtering a sequence of timer entries keeps every element a member of the
/// original; so pairwise-distinct handles stay pairwise distinct.
proof fn lemma_filter_keeps_distinct(s: Seq<TimerEntry>, pred: spec_fn(TimerEntry) -> bool)
    requires
        forall|i: int, j: int|
            0 <= i < j < s.len() ==> #[trigger] s[i].handle != #[trigger] s[j].handle,
    ensures
        forall|i: int| 0 <= i < s.filter(pred).len() ==> s.contains(#[trigger] s.filter(pred)[i]),
        forall|i: int, j: int|
            0 <= i < j < s.filter(pred).len() ==> #[trigger] s.filter(pred)[i].handle
                != #[trigger] s.filter(pred)[j].handle,
    decreases s.len(),
{
    reveal(Seq::filter);
    if s.len() > 0 {
        let front = s.drop_last();
        lemma_filter_keeps_distinct(front, pred);
        let f = s.filter(pred);
        let ff = front.filter(pred);
        assert forall|i: int| 0 <= i < f.len() implies s.contains(#[trigger] f[i]) by {
            if i < ff.len() {
                let j = choose|j: int| 0 <= j < front.len() && front[j] == ff[i];
                assert(s[j] == f[i]);
            } else {
                assert(f[i] == s.last());
            }
        }
        assert forall|i: int, j: int|
            0 <= i < j < f.len() implies #[trigger] f[i].handle != #[trigger] f[j].handle by {
            if j < ff.len() {
            } else {
                let k = choose|k: int| 0 <= k < front.len() && front[k] == ff[i];
                assert(s[k] == f[i] && s[s.len() - 1] == f[j]);
            }
        }
    }
}

/// One scheduled periodic timer: the handle the owner keeps, and the period.
#[derive(Clone, Copy, Debug, PartialEq, Eq, Structural)]
pub struct TimerEntry {
    pub handle: u64,
    pub period_ms: u64,
}

/// Hands out fresh handles and tracks the active periodic timers.
pub struct TimerService {
    pub next_handle: u64,
    pub active: Vec<TimerEntry>,
}

impl TimerService {
    /// Every active handle was issued (so it is below the counter) and no
    /// handle is active twice.
    pub open spec fn wf(&self) -> bool {
        &&& forall|i: int| 0 <= i < self.active@.len() ==> #[trigger] self.active@[i].handle < self.next_handle
        &&& forall|i: int, j: int|
            0 <= i < j < self.active@.len() ==> #[trigger] self.active@[i].handle != #[trigger] self.active@[j].handle
    }

    /// The handles of the active timers, in scheduling order.
    pub open spec fn active_handles(&self) -> Seq<u64> {
        self.active@.map_values(|t: TimerEntry| t.handle)
    }

    /// A facility with no timers scheduled yet.
    pub fn new() -> (s: Self)
        ensures
            s.wf(),
            s.active@ == Seq::<TimerEntry>::empty(),
            s.next_handle == 0,
    {
        TimerService { next_handle: 0, active: Vec::new() }
    }

    /// Schedule a periodic timer firing every `period_ms` milliseconds, from
    /// now until it is cancelled. The returned handle is fresh: it names no
    /// previously active timer.
    pub fn schedule_periodic(&mut self, period_ms: u64) -> (h: u64)
        requires
            old(self).wf(),
            old(self).next_handle < u64::MAX,
        ensures
            final(self).wf(),
            final(self).active@ == old(self).active@.push(TimerEntry { handle: h, period_ms }),
            !old(self).active_handles().contains(h),
            final(self).next_handle == old(self).next_handle + 1,
    {
        let h = self.next_handle;
        self.next_handle = self.next_handle + 1;
        self.active.push(TimerEntry { handle: h, period_ms });
        proof {
            assert forall|k: u64| old(self).active_handles().contains(k) implies k != h by {
                let i = choose|i: int|
                    0 <= i < old(self).active_handles().len() && old(self).active_handles()[i] == k;
                assert(old(self).active@[i].handle == k);
            }
        }
        h
    }

    /// Cancel the timer scheduled under `handle`, if any. Cancelling a handle
    /// that names no active timer is a no-op, not an error.
    pub fn cancel(&mut self, handle: u64)
        requires
            old(self).wf(),
        ensures
            final(self).wf(),
            final(self).active@ == old(self).active@.filter(|t: TimerEntry| t.handle != handle),
            final(self).next_handle == old(self).next_handle,
    {
        let ghost pred = |t: TimerEntry| t.handle != handle;
        let mut kept: Vec<TimerEntry> = Vec::new();
        let mut i: usize = 0;
        while i < self.active.len()
            invariant
                i <= self.active@.len(),
                pred == (|t: TimerEntry| t.handle != handle),
                kept@ == self.active@.take(i as int).filter(pred),
            decreases self.active@.len() - i,
        {
            let ghost prefix = self.active@.take(i as int);
            let entry = self.active[i];
            if entry.handle != handle {
                kept.push(entry);
            }
            proof {
                reveal(Seq::filter);
                let next_prefix = self.active@.take(i as int + 1);
                assert(next_prefix.drop_last() =~= prefix);
                assert(next_prefix.last() == entry);
                if pred(entry) {
                    assert(next_prefix.filter(pred) == prefix.filter(pred).push(entry));
                } else {
                    assert(next_prefix.filter(pred) == prefix.filter(pred));
                }
            }
            i = i + 1;
        }
        proof {
            assert(self.active@.take(self.active@.len() as int) =~= self.active@);
        }
        self.active = kept;
        proof {
            let filtered = old(self).active@.filter(pred);
            lemma_filter_keeps_distinct(old(self).active@, pred);
            assert forall|i: int| 0 <= i < filtered.len() implies #[trigger] filtered[i].handle
                < self.next_handle by {
                assert(old(self).active@.contains(filtered[i]));
                let j = choose|j: int|
                    0 <= j < old(self).active@.len() && old(self).active@[j] == filtered[i];
                assert(old(self).active@[j].handle < old(self).next_handle);
            }
        }
    }

    /// Whether a timer is active under `handle`.
    pub fn is_active(&self, handle: u64) -> (r: bool)
        ensures
            r == self.active_handles().contains(handle),
    {
        let mut i: usize = 0;
        while i < self.active.len()
            invariant
                i <= self.active@.len(),
                forall|j: int| 0 <= j < i ==> #[trigger] self.active@[j].handle != handle,
            decreases self.active@.len() - i,
        {
            if self.active[i].handle == handle {
                proof {
                    assert(self.active_handles()[i as int] == handle);
                }
                return true;
            }
            i = i + 1;
        }
        proof {
            assert forall|j: int|
                0 <= j < self.active_handles().len() implies #[trigger] self.active_handles()[j]
                != handle by {
                assert(self.active@[j].handle != handle);
            }
        }
        false
    }

    /// How many timers are active.
    pub fn active_count(&self) -> (n: usize)
        ensures
            n == self.active@.len(),
    {
        self.active.len()
    }
}

} // verus!

use vstd::prelude::*;
use crate::readiness::{SlotState, ReadinessTracker, pending_count, lemma_pending_count_zero};
use crate::wakeup::WakeupAggregator;

verus! {

/// Outputs after recording each `(index, value)` of `events` in turn.
pub open spec fn join_apply<T>(outs: Seq<Option<T>>, events: Seq<(int, T)>) -> Seq<Option<T>>
    decreases events.len(),
{
    if events.len() == 0 {
        outs
    } else {
        let e = events.last();
        join_apply(outs, events.drop_last()).update(e.0, Some(e.1))
    }
}

/// Indices of `events` that are pairwise distinct.
pub open spec fn distinct_indices<T>(events: Seq<(int, T)>) -> bool {
    forall|a: int, b: int| 0 <= a < b < events.len() ==> #[trigger] events[a].0 != #[trigger] events[b].0
}

/// What `join_apply` leaves at slot `i`: the value of the event that names `i`.
pub proof fn lemma_join_apply_at<T>(outs: Seq<Option<T>>, events: Seq<(int, T)>, i: int)
    requires
        distinct_indices(events),
        forall|k: int| 0 <= k < events.len() ==> 0 <= #[trigger] events[k].0 < outs.len(),
        0 <= i < outs.len(),
    ensures
        join_apply(outs, events).len() == outs.len(),
        forall|k: int| 0 <= k < events.len() && events[k].0 == i ==> join_apply(outs, events)[i]
            == Some(events[k].1),
        (forall|k: int| 0 <= k < events.len() ==> events[k].0 != i) ==> join_apply(outs, events)[i]
            == outs[i],
    decreases events.len(),
{
    if events.len() > 0 {
        let d = events.drop_last();
        assert(distinct_indices(d));
        assert forall|k: int| 0 <= k < d.len() implies 0 <= #[trigger] d[k].0 < outs.len() by {
            assert(d[k] == events[k]);
        }
        lemma_join_apply_at(outs, d, i);
        assert forall|k: int| 0 <= k < events.len() && events[k].0 == i implies join_apply(
            outs,
            events,
        )[i] == Some(events[k].1) by {
            if k < events.len() - 1 {
                assert(d[k] == events[k]);
                assert(events[k].0 != events[events.len() - 1].0);
            }
        }
        if forall|k: int| 0 <= k < events.len() ==> events[k].0 != i {
            assert forall|k: int| 0 <= k < d.len() implies d[k].0 != i by {
                assert(d[k] == events[k]);
            }
        }
    }
}

/// The aggregate a join assembles does not depend on the order in which the
/// operations complete: any two orders of the same completions, each operation
/// completing once, leave the same value in every slot.
pub proof fn join_order_independent<T>(outs: Seq<Option<T>>, e1: Seq<(int, T)>, e2: Seq<(int, T)>)
    requires
        distinct_indices(e1),
        distinct_indices(e2),
        e1.to_multiset() =~= e2.to_multiset(),
        forall|k: int| 0 <= k < e1.len() ==> 0 <= #[trigger] e1[k].0 < outs.len(),
    ensures
        join_apply(outs, e1) == join_apply(outs, e2),
{
    assert forall|k: int| 0 <= k < e2.len() implies 0 <= #[trigger] e2[k].0 < outs.len() by {
        e2.to_multiset_ensures();
        e1.to_multiset_ensures();
        assert(e2.to_multiset().count(e2[k]) > 0);
        assert(e1.contains(e2[k]));
    }
    assert forall|i: int| 0 <= i < outs.len() implies join_apply(outs, e1)[i] == join_apply(
        outs,
        e2,
    )[i] by {
        lemma_join_apply_at(outs, e1, i);
        lemma_join_apply_at(outs, e2, i);
        e1.to_multiset_ensures();
        e2.to_multiset_ensures();
        if exists|k: int| 0 <= k < e1.len() && e1[k].0 == i {
            let k = choose|k: int| 0 <= k < e1.len() && e1[k].0 == i;
            assert(e1.to_multiset().count(e1[k]) > 0);
            assert(e2.contains(e1[k]));
        } else if exists|k: int| 0 <= k < e2.len() && e2[k].0 == i {
            let k = choose|k: int| 0 <= k < e2.len() && e2[k].0 == i;
            assert(e2.to_multiset().count(e2[k]) > 0);
            assert(e1.contains(e2[k]));
        }
    }
    if outs.len() > 0 {
        lemma_join_apply_at(outs, e1, 0);
        lemma_join_apply_at(outs, e2, 0);
        assert(join_apply(outs, e1) =~= join_apply(outs, e2));
    } else {
        assert(join_apply(outs, e1).len() == 0);
    }
}

/// Waits for all of `n` operations, collecting each result in its slot, and hands
/// the results back in slot order once every operation has completed.
pub struct JoinEngine<T> {
    tracker: ReadinessTracker,
    outputs: Vec<Option<T>>,
    wakeups: WakeupAggregator,
    remaining: usize,
    taken: bool,
}

impl<T> JoinEngine<T> {
    pub closed spec fn states(&self) -> Seq<SlotState> {
        self.tracker@
    }

    pub closed spec fn outputs(&self) -> Seq<Option<T>> {
        self.outputs@
    }

    pub closed spec fn dirty(&self) -> Seq<bool> {
        self.wakeups@
    }

    pub closed spec fn remaining(&self) -> nat {
        self.remaining as nat
    }

    /// The results have been handed out.
    pub closed spec fn taken(&self) -> bool {
        self.taken
    }

    pub closed spec fn wf(&self) -> bool {
        &&& self.wakeups.wf()
        &&& self.tracker@.len() == self.outputs@.len()
        &&& self.wakeups@.len() == self.outputs@.len()
        &&& self.remaining == pending_count(self.tracker@)
        &&& forall|i: int|
            0 <= i < self.outputs@.len() ==> (self.outputs@[i] is Some <==> self.tracker@[i]
                == SlotState::Ready)
        &&& forall|i: int|
            0 <= i < self.outputs@.len() ==> (self.tracker@[i] == SlotState::Consumed
                <==> self.taken)
    }

    /// What a well-formed engine says of its slots: an output is held exactly
    /// while a slot is `Ready`, and every slot is done when none is pending and
    /// the results are not taken yet.
    pub proof fn lemma_wf_facts(&self)
        requires
            self.wf(),
        ensures
            self.states().len() == self.outputs().len(),
            self.dirty().len() == self.outputs().len(),
            self.remaining() == pending_count(self.states()),
            forall|i: int|
                0 <= i < self.outputs().len() ==> (self.outputs()[i] is Some <==> self.states()[i]
                    == SlotState::Ready),
            self.states().len() > 0 ==> ((self.remaining() == 0 && !self.taken()) <==> forall|i: int|
                0 <= i < self.states().len() ==> self.states()[i] == SlotState::Ready),
    {
        lemma_pending_count_zero(self.tracker@);
        if self.states().len() > 0 {
            if forall|i: int| 0 <= i < self.states().len() ==> self.states()[i] == SlotState::Ready {
                assert(self.states()[0] == SlotState::Ready);
            }
            if self.remaining() == 0 && !self.taken() {
                assert forall|i: int| 0 <= i < self.states().len() implies self.states()[i]
                    == SlotState::Ready by {
                    assert(self.tracker@[i] != SlotState::Pending);
                    assert(self.tracker@[i] != SlotState::Consumed);
                }
            }
        }
    }

    /// An engine over `n` operations, all pending; the first drive step probes all.
    pub fn new(n: usize) -> (r: Self)
        ensures
            r.wf(),
            r.outputs().len() == n,
            r.states().len() == n,
            forall|i: int| 0 <= i < n ==> r.outputs()[i] is None,
            r.remaining() == n,
            !r.taken(),
            forall|i: int| 0 <= i < n ==> r.states()[i] == SlotState::Pending,
            r.dirty().len() == n,
            forall|i: int| 0 <= i < n ==> r.dirty()[i],
    {
        let tracker = ReadinessTracker::new(n);
        let wakeups = WakeupAggregator::new(n);
        let mut outputs: Vec<Option<T>> = Vec::new();
        let mut k: usize = 0;
        while k < n
            invariant
                k <= n,
                outputs@.len() == k,
                forall|i: int| 0 <= i < k ==> outputs@[i] is None,
            decreases n - k,
        {
            outputs.push(None);
            k = k + 1;
        }
        JoinEngine { tracker, outputs, wakeups, remaining: n, taken: false }
    }

    pub fn len(&self) -> (r: usize)
        requires
            self.wf(),
        ensures
            r == self.outputs().len(),
    {
        self.outputs.len()
    }

    /// Operation `i` signalled that it can make progress.
    pub fn wake(&mut self, i: usize) -> (notify: bool)
        requires
            old(self).wf(),
            i < old(self).outputs().len(),
        ensures
            final(self).wf(),
            final(self).dirty() == old(self).dirty().update(i as int, true),
            final(self).states() == old(self).states(),
            final(self).outputs() == old(self).outputs(),
            final(self).remaining() == old(self).remaining(),
            final(self).taken() == old(self).taken(),
            notify == (forall|j: int| 0 <= j < old(self).dirty().len() ==> !old(self).dirty()[j]),
    {
        let notify = self.wakeups.signal(i);
        assert(notify == (forall|j: int| 0 <= j < old(self).dirty().len() ==> !old(self).wakeups@[j]));
        notify
    }

    /// The slots to probe in this drive step, in increasing order: those that
    /// signalled since the last step and are still pending. Clears the signals.
    pub fn to_probe(&mut self) -> (r: Vec<usize>)
        requires
            old(self).wf(),
        ensures
            final(self).wf(),
            final(self).states() == old(self).states(),
            final(self).outputs() == old(self).outputs(),
            final(self).remaining() == old(self).remaining(),
            final(self).taken() == old(self).taken(),
            final(self).dirty().len() == old(self).dirty().len(),
            forall|j: int| 0 <= j < final(self).dirty().len() ==> !final(self).dirty()[j],
            forall|k: int|
                0 <= k < r@.len() ==> r@[k] < old(self).outputs().len() && old(self).dirty()[r@[k] as int]
                    && old(self).states()[r@[k] as int] == SlotState::Pending,
            forall|j: usize|
                j < old(self).outputs().len() && old(self).dirty()[j as int] && old(self).states()[j as int]
                    == SlotState::Pending ==> r@.contains(j),
            forall|k1: int, k2: int| 0 <= k1 < k2 < r@.len() ==> r@[k1] < r@[k2],
    {
        let ghost d0 = self.wakeups@;
        let dirty = self.wakeups.drain_ready_indices();
        let mut r: Vec<usize> = Vec::new();
        let mut k: usize = 0;
        while k < dirty.len()
            invariant
                self.wf(),
                k <= dirty@.len(),
                d0.len() == self.outputs@.len(),
                forall|m: int| 0 <= m < dirty@.len() ==> dirty@[m] < d0.len() && d0[dirty@[m] as int],
                forall|j: usize| j < d0.len() && d0[j as int] ==> dirty@.contains(j),
                forall|m1: int, m2: int| 0 <= m1 < m2 < dirty@.len() ==> dirty@[m1] < dirty@[m2],
                forall|m: int|
                    0 <= m < r@.len() ==> r@[m] < d0.len() && d0[r@[m] as int] && self.tracker@[r@[m] as int]
                        == SlotState::Pending,
                forall|m: int|
                    0 <= m < k && self.tracker@[dirty@[m] as int] == SlotState::Pending ==> r@.contains(
                        dirty@[m],
                    ),
                forall|m: int| 0 <= m < r@.len() ==> exists|p: int| 0 <= p < k && dirty@[p] == #[trigger] r@[m],
                forall|m1: int, m2: int| 0 <= m1 < m2 < r@.len() ==> r@[m1] < r@[m2],
                k > 0 && r@.len() > 0 ==> r@[r@.len() - 1] <= dirty@[k - 1],
            decreases dirty@.len() - k,
        {
            let i = dirty[k];
            let ghost r0 = r@;
            if self.tracker.is_pending(i) {
                r.push(i);
                assert forall|m: int|
                    0 <= m < k + 1 && self.tracker@[dirty@[m] as int] == SlotState::Pending implies r@.contains(
                    dirty@[m],
                ) by {
                    if m < k {
                        let q = choose|q: int| 0 <= q < r0.len() && r0[q] == dirty@[m];
                        assert(r@[q] == dirty@[m]);
                    } else {
                        assert(r@[r@.len() - 1] == dirty@[m]);
                    }
                }
                assert forall|m: int| 0 <= m < r@.len() implies exists|p: int|
                    0 <= p < k + 1 && dirty@[p] == #[trigger] r@[m] by {
                    if m < r0.len() {
                        let p = choose|p: int| 0 <= p < k && dirty@[p] == r0[m];
                        assert(dirty@[p] == r@[m]);
                    } else {
                        assert(dirty@[k as int] == r@[m]);
                    }
                }
            }
            k = k + 1;
        }
        assert forall|j: usize|
            j < d0.len() && d0[j as int] && self.tracker@[j as int] == SlotState::Pending implies r@.contains(j) by {
            let m = choose|m: int| 0 <= m < dirty@.len() && dirty@[m] == j;
        }
        r
    }

    /// Probing operation `i` gave `value`: store it and mark the slot ready.
    pub fn complete(&mut self, i: usize, value: T)
        requires
            old(self).wf(),
            i < old(self).outputs().len(),
            old(self).states()[i as int] == SlotState::Pending,
        ensures
            final(self).wf(),
            final(self).states() == old(self).states().update(i as int, SlotState::Ready),
            final(self).outputs() == old(self).outputs().update(i as int, Some(value)),
            final(self).outputs() == join_apply(old(self).outputs(), seq![(i as int, value)]),
            final(self).dirty() == old(self).dirty(),
            final(self).remaining() + 1 == old(self).remaining(),
            final(self).taken() == old(self).taken(),
    {
        let ghost events = seq![(i as int, value)];
        let ghost o0 = self.outputs@;
        assert(events.drop_last() =~= Seq::<(int, T)>::empty());
        self.tracker.mark_ready(i);
        self.outputs.set(i, Some(value));
        proof {
            reveal_with_fuel(join_apply, 2);
            assert(join_apply(o0, events) == o0.update(i as int, Some(value)));
        }
        self.remaining = self.remaining - 1;
    }

    /// The fail-fast form of `complete`: probing operation `i` gave `outcome`. A
    /// failure ends the join at once and is handed back, the engine unchanged, so
    /// that the caller abandons the other operations. A success is stored; when it
    /// was the last one, the results come back in slot order, as `finish` gives them.
    pub fn try_complete<E>(&mut self, i: usize, outcome: Result<T, E>) -> (r: Option<Result<Vec<T>, E>>)
        requires
            old(self).wf(),
            i < old(self).outputs().len(),
            old(self).states()[i as int] == SlotState::Pending,
        ensures
            final(self).wf(),
            outcome matches Err(e) ==> r == Some(Err::<Vec<T>, E>(e)) && *final(self) == *old(self),
            outcome matches Ok(v) ==> {
                &&& r is Some <==> old(self).remaining() == 1
                &&& r is None ==> final(self).outputs() == old(self).outputs().update(i as int, Some(v))
                    && final(self).states() == old(self).states().update(i as int, SlotState::Ready)
                    && final(self).remaining() + 1 == old(self).remaining()
                &&& r matches Some(Ok(w)) ==> w@.len() == old(self).outputs().len() && forall|j: int|
                    0 <= j < w@.len() ==> old(self).outputs().update(i as int, Some(v))[j] == Some(w@[j])
                &&& !(r matches Some(Err(_)))
            },
    {
        match outcome {
            Err(e) => Some(Err(e)),
            Ok(v) => {
                self.complete(i, v);
                match self.finish() {
                    Some(w) => Some(Ok(w)),
                    None => None,
                }
            },
        }
    }

    /// Once every operation has completed, the results in slot order, each slot
    /// then consumed; before that `None`, with nothing changed.
    pub fn finish(&mut self) -> (r: Option<Vec<T>>)
        requires
            old(self).wf(),
        ensures
            final(self).wf(),
            r is Some <==> old(self).remaining() == 0 && !old(self).taken(),
            r is Some ==> final(self).taken(),
            r is None ==> *final(self) == *old(self),
            final(self).dirty() == old(self).dirty(),
            r matches Some(v) ==> {
                &&& v@.len() == old(self).outputs().len()
                &&& final(self).states().len() == v@.len()
                &&& forall|i: int| 0 <= i < v@.len() ==> old(self).outputs()[i] == Some(v@[i])
                &&& forall|i: int|
                    0 <= i < v@.len() ==> final(self).states()[i] == SlotState::Consumed
                &&& final(self).outputs().len() == v@.len()
                &&& forall|i: int| 0 <= i < v@.len() ==> final(self).outputs()[i] is None
            },
    {
        if self.remaining != 0 || self.taken {
            return None;
        }
        let n = self.outputs.len();
        let ghost s0 = self.tracker@;
        let ghost o0 = self.outputs@;
        proof {
            lemma_pending_count_zero(s0);
            assert forall|i: int| 0 <= i < n implies o0[i] is Some by {
                assert(s0[i] != SlotState::Pending);
                assert(s0[i] != SlotState::Consumed);
            }
        }
        let mut outs: Vec<Option<T>> = Vec::new();
        std::mem::swap(&mut outs, &mut self.outputs);
        let mut res: Vec<T> = Vec::new();
        let mut k: usize = 0;
        while k < n
            invariant
                k <= n,
                n == o0.len(),
                s0.len() == n,
                outs@ == o0.subrange(k as int, n as int),
                res@.len() == k,
                forall|i: int| 0 <= i < k ==> o0[i] == Some(res@[i]),
                forall|i: int| 0 <= i < n ==> o0[i] is Some,
                self.tracker@ == s0,
                self.wakeups.wf(),
                self.wakeups@.len() == n,
                self.wakeups@ == old(self).wakeups@,
                self.remaining == 0,
                pending_count(s0) == 0,
            decreases n - k,
        {
            let o = outs.remove(0);
            assert(o == o0[k as int]);
            match o {
                Some(v) => {
                    res.push(v);
                },
                None => {
                    proof {
                        assert(false);
                    }
                },
            }
            k = k + 1;
        }
        let mut k: usize = 0;
        let mut fresh: Vec<Option<T>> = Vec::new();
        while k < n
            invariant
                k <= n,
                self.tracker@.len() == n,
                fresh@.len() == k,
                forall|i: int| 0 <= i < k ==> fresh@[i] is None,
                forall|i: int| 0 <= i < k ==> self.tracker@[i] == SlotState::Consumed,
                s0.len() == n,
                self.wakeups.wf(),
                self.wakeups@.len() == n,
                self.wakeups@ == old(self).wakeups@,
                self.remaining == 0,
                forall|i: int| k <= i < n ==> self.tracker@[i] == s0[i],
                forall|i: int| 0 <= i < n ==> s0[i] != SlotState::Pending,
                pending_count(self.tracker@) == 0,
            decreases n - k,
        {
            self.tracker.mark_consumed(k);
            fresh.push(None);
            k = k + 1;
        }
        self.outputs = fresh;
        self.taken = true;
        Some(res)
    }
}

} // verus!

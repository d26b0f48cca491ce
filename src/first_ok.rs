use vstd::prelude::*;
use crate::permuter::{FairnessPermuter, rank, next_seed};
use crate::readiness::{SlotState, ReadinessTracker, pending_count, lemma_pending_count_zero};
use crate::wakeup::WakeupAggregator;
use std::marker::PhantomData;

verus! {

/// Why a first-success engine cannot make a drive step.
#[derive(Clone, Copy, Debug, PartialEq, Eq, Structural)]
pub enum RaceError {
    /// It was built over no operation, so neither success nor failure can come.
    NoCandidates,
}

/// The failure a first-success engine surfaces when its `remaining` pending
/// operations fail with `errs`, reported in that order through `record`: each
/// failure leaves the engine waiting while others remain (`record` gives `None`
/// and `remaining` drops by one), and the one that ends it is handed back.
pub open spec fn surfaced_failure<E>(remaining: nat, errs: Seq<E>) -> Option<E>
    decreases errs.len(),
{
    if errs.len() == 0 || remaining == 0 {
        None
    } else if remaining == 1 {
        Some(errs[0])
    } else {
        surfaced_failure((remaining - 1) as nat, errs.drop_first())
    }
}

/// When every one of the operations fails, the failure handed back is the one
/// reported last, not the first.
pub proof fn last_failure_surfaces<E>(errs: Seq<E>)
    requires
        errs.len() > 0,
    ensures
        surfaced_failure(errs.len(), errs) == Some(errs.last()),
    decreases errs.len(),
{
    if errs.len() > 1 {
        last_failure_surfaces(errs.drop_first());
        assert(errs.drop_first().last() == errs.last());
    }
}

/// Drives `n` fallible operations and hands back the first success, abandoning
/// the others; when all of them fail, hands back the failure reported last.
pub struct FirstOk<T, E> {
    tracker: ReadinessTracker,
    wakeups: WakeupAggregator,
    permuter: FairnessPermuter,
    last_failure: Option<E>,
    remaining: usize,
    output: PhantomData<T>,
}

impl<T, E> FirstOk<T, E> {
    pub closed spec fn states(&self) -> Seq<SlotState> {
        self.tracker@
    }

    pub closed spec fn dirty(&self) -> Seq<bool> {
        self.wakeups@
    }

    pub closed spec fn remaining(&self) -> nat {
        self.remaining as nat
    }

    pub closed spec fn seed(&self) -> u64 {
        self.permuter.seed
    }

    pub closed spec fn last_failure(&self) -> Option<E> {
        self.last_failure
    }

    pub closed spec fn wf(&self) -> bool {
        &&& self.wakeups.wf()
        &&& self.wakeups@.len() == self.tracker@.len()
        &&& self.remaining == pending_count(self.tracker@)
    }

    /// What a well-formed engine says of its slots: one signal bit per slot, and
    /// `remaining` counts the pending slots.
    pub proof fn lemma_wf_facts(&self)
        requires
            self.wf(),
        ensures
            self.dirty().len() == self.states().len(),
            self.remaining() == pending_count(self.states()),
            (self.remaining() == 0) <==> forall|i: int|
                0 <= i < self.states().len() ==> self.states()[i] != SlotState::Pending,
    {
        lemma_pending_count_zero(self.tracker@);
    }

    /// An engine over `n` operations, all pending, whose scan orders come from `seed`;
    /// the first drive step probes all of them.
    pub fn new(n: usize, seed: u64) -> (r: Self)
        ensures
            r.wf(),
            r.states().len() == n,
            r.remaining() == n,
            r.seed() == seed,
            r.dirty().len() == n,
            r.last_failure() is None,
            forall|i: int| 0 <= i < n ==> r.states()[i] == SlotState::Pending,
            forall|i: int| 0 <= i < n ==> r.dirty()[i],
    {
        FirstOk {
            tracker: ReadinessTracker::new(n),
            wakeups: WakeupAggregator::new(n),
            permuter: FairnessPermuter::new(seed),
            last_failure: None,
            remaining: n,
            output: PhantomData,
        }
    }

    pub fn len(&self) -> (r: usize)
        requires
            self.wf(),
        ensures
            r == self.states().len(),
    {
        self.tracker.len()
    }

    /// Operation `i` signalled that it can make progress.
    pub fn wake(&mut self, i: usize) -> (notify: bool)
        requires
            old(self).wf(),
            i < old(self).states().len(),
        ensures
            final(self).wf(),
            final(self).dirty() == old(self).dirty().update(i as int, true),
            final(self).states() == old(self).states(),
            final(self).remaining() == old(self).remaining(),
            final(self).seed() == old(self).seed(),
            final(self).last_failure() == old(self).last_failure(),
            notify == (forall|j: int| 0 <= j < old(self).dirty().len() ==> !old(self).dirty()[j]),
    {
        let notify = self.wakeups.signal(i);
        assert(notify == (forall|j: int| 0 <= j < old(self).dirty().len() ==> !old(self).wakeups@[j]));
        notify
    }

    /// The slots to probe in this drive step: those that signalled since the last
    /// step and are still pending, in the order of this round's rotation, which
    /// starts at `seed % n`. Clears the signals and advances the generator.
    /// With no operation at all, `NoCandidates`.
    pub fn drive_order(&mut self) -> (r: Result<Vec<usize>, RaceError>)
        requires
            old(self).wf(),
        ensures
            final(self).wf(),
            final(self).states() == old(self).states(),
            final(self).remaining() == old(self).remaining(),
            final(self).last_failure() == old(self).last_failure(),
            r is Err <==> old(self).states().len() == 0,
            r is Err ==> r == Err::<Vec<usize>, RaceError>(RaceError::NoCandidates),
            r matches Ok(v) ==> {
                let n = old(self).states().len();
                let start = (old(self).seed() % (n as u64)) as int;
                &&& final(self).seed() == next_seed(old(self).seed())
                &&& final(self).dirty().len() == n
                &&& forall|j: int| 0 <= j < n ==> !final(self).dirty()[j]
                &&& forall|k: int|
                    0 <= k < v@.len() ==> v@[k] < n && old(self).dirty()[v@[k] as int]
                        && old(self).states()[v@[k] as int] == SlotState::Pending
                &&& forall|j: usize|
                    j < n && old(self).dirty()[j as int] && old(self).states()[j as int]
                        == SlotState::Pending ==> v@.contains(j)
                &&& forall|k1: int, k2: int|
                    0 <= k1 < k2 < v@.len() ==> rank(start, n as int, v@[k1] as int) < rank(
                        start,
                        n as int,
                        v@[k2] as int,
                    )
            },
    {
        let n = self.tracker.len();
        if n == 0 {
            return Err(RaceError::NoCandidates);
        }
        let ghost start = (self.permuter.seed % (n as u64)) as int;
        let ghost d0 = self.wakeups@;
        let order = self.permuter.next_round(n);
        let mut r: Vec<usize> = Vec::new();
        let mut k: usize = 0;
        while k < n
            invariant
                self.wf(),
                k <= n,
                n == self.tracker@.len(),
                self.wakeups@ == d0,
                order@.len() == n,
                0 <= start < n,
                forall|m: int| 0 <= m < n ==> rank(start, n as int, order@[m] as int) == m,
                forall|m: int| 0 <= m < n ==> order@[m] < n,
                forall|j: usize| j < n ==> order@.contains(j),
                forall|m: int|
                    0 <= m < r@.len() ==> r@[m] < n && d0[r@[m] as int] && self.tracker@[r@[m] as int]
                        == SlotState::Pending,
                forall|m: int| 0 <= m < r@.len() ==> rank(start, n as int, r@[m] as int) < k,
                forall|m: int|
                    0 <= m < k && d0[order@[m] as int] && self.tracker@[order@[m] as int] == SlotState::Pending
                        ==> r@.contains(order@[m]),
                forall|k1: int, k2: int|
                    0 <= k1 < k2 < r@.len() ==> rank(start, n as int, r@[k1] as int) < rank(
                        start,
                        n as int,
                        r@[k2] as int,
                    ),
            decreases n - k,
        {
            let i = order[k];
            let ghost r0 = r@;
            if self.wakeups.is_set(i) && self.tracker.is_pending(i) {
                r.push(i);
                assert forall|m: int|
                    0 <= m < k + 1 && d0[order@[m] as int] && self.tracker@[order@[m] as int]
                        == SlotState::Pending implies r@.contains(order@[m]) by {
                    if m < k {
                        let q = choose|q: int| 0 <= q < r0.len() && r0[q] == order@[m];
                        assert(r@[q] == order@[m]);
                    } else {
                        assert(r@[r@.len() - 1] == order@[m]);
                    }
                }
            }
            k = k + 1;
        }
        assert forall|j: usize|
            j < n && d0[j as int] && self.tracker@[j as int] == SlotState::Pending implies r@.contains(j) by {
            assert(order@.contains(j));
            let m = choose|m: int| 0 <= m < n && order@[m] == j;
        }
        let _ = self.wakeups.drain_ready_indices();
        Ok(r)
    }

    /// Probing operation `i` gave `outcome`. A success ends the race: every slot is
    /// consumed, the other operations abandoned, and the success handed back. A
    /// failure consumes slot `i`; it is handed back when it was the last pending
    /// operation, and kept as the latest failure otherwise.
    pub fn record(&mut self, i: usize, outcome: Result<T, E>) -> (r: Option<Result<T, E>>)
        requires
            old(self).wf(),
            i < old(self).states().len(),
            old(self).states()[i as int] == SlotState::Pending,
        ensures
            final(self).wf(),
            final(self).states().len() == old(self).states().len(),
            final(self).dirty() == old(self).dirty(),
            final(self).seed() == old(self).seed(),
            outcome is Ok ==> {
                &&& r == Some(outcome)
                &&& final(self).remaining() == 0
                &&& forall|j: int|
                    0 <= j < final(self).states().len() ==> final(self).states()[j]
                        == SlotState::Consumed
            },
            outcome matches Err(e) ==> {
                &&& final(self).states() == old(self).states().update(i as int, SlotState::Consumed)
                &&& final(self).remaining() + 1 == old(self).remaining()
                &&& (r is None <==> surfaced_failure(old(self).remaining(), seq![e]) is None)
                &&& r matches Some(Err(x)) ==> surfaced_failure(old(self).remaining(), seq![e]) == Some(x)
                &&& old(self).remaining() == 1 ==> r == Some(Err::<T, E>(e))
                &&& old(self).remaining() > 1 ==> r is None && final(self).last_failure() == Some(e)
            },
    {
        match outcome {
            Ok(v) => {
                let n = self.tracker.len();
                let mut k: usize = 0;
                while k < n
                    invariant
                        k <= n,
                        n == self.tracker@.len(),
                        self.wakeups@ == old(self).wakeups@,
                        self.wakeups.wf(),
                        self.permuter == old(self).permuter,
                        forall|j: int| 0 <= j < k ==> self.tracker@[j] == SlotState::Consumed,
                    decreases n - k,
                {
                    self.tracker.mark_consumed(k);
                    k = k + 1;
                }
                proof {
                    lemma_pending_count_zero(self.tracker@);
                }
                self.remaining = 0;
                Some(Ok(v))
            },
            Err(e) => {
                let ghost es = seq![e];
                proof {
                    assert(es.drop_first() =~= Seq::<E>::empty());
                    reveal_with_fuel(surfaced_failure, 2);
                    assert(self.remaining == 1 ==> surfaced_failure(self.remaining as nat, es) == Some(e));
                    assert(self.remaining > 1 ==> surfaced_failure(self.remaining as nat, es) is None);
                }
                self.tracker.mark_consumed(i);
                self.remaining = self.remaining - 1;
                if self.remaining == 0 {
                    Some(Err(e))
                } else {
                    self.last_failure = Some(e);
                    None
                }
            },
        }
    }
}

} // verus!

use vstd::prelude::*;

verus! {

/// The life of one slot: `Pending`, then `Ready`, then `Consumed`, never back.
#[derive(Clone, Copy, Debug, PartialEq, Eq, Structural)]
pub enum SlotState {
    Pending,
    Ready,
    Consumed,
}

/// Number of slots of `s` that are still `Pending`.
pub open spec fn pending_count(s: Seq<SlotState>) -> nat
    decreases s.len(),
{
    if s.len() == 0 {
        0
    } else {
        pending_count(s.drop_last()) + if s.last() == SlotState::Pending {
            1nat
        } else {
            0nat
        }
    }
}

/// Moving one `Pending` slot out of `Pending` lowers the count by one.
pub proof fn lemma_pending_count_leave(s: Seq<SlotState>, i: int, x: SlotState)
    requires
        0 <= i < s.len(),
        s[i] == SlotState::Pending,
        x != SlotState::Pending,
    ensures
        pending_count(s.update(i, x)) + 1 == pending_count(s),
    decreases s.len(),
{
    let u = s.update(i, x);
    if i == s.len() - 1 {
        assert(u.drop_last() =~= s.drop_last());
    } else {
        assert(u.drop_last() =~= s.drop_last().update(i, x));
        lemma_pending_count_leave(s.drop_last(), i, x);
    }
}

/// Rewriting a slot that is not `Pending` with another such state keeps the count.
pub proof fn lemma_pending_count_keep(s: Seq<SlotState>, i: int, x: SlotState)
    requires
        0 <= i < s.len(),
        s[i] != SlotState::Pending,
        x != SlotState::Pending,
    ensures
        pending_count(s.update(i, x)) == pending_count(s),
    decreases s.len(),
{
    let u = s.update(i, x);
    if i == s.len() - 1 {
        assert(u.drop_last() =~= s.drop_last());
    } else {
        assert(u.drop_last() =~= s.drop_last().update(i, x));
        lemma_pending_count_keep(s.drop_last(), i, x);
    }
}

/// The count is zero exactly when no slot is `Pending`.
pub proof fn lemma_pending_count_zero(s: Seq<SlotState>)
    ensures
        (pending_count(s) == 0) <==> (forall|i: int| 0 <= i < s.len() ==> s[i] != SlotState::Pending),
    decreases s.len(),
{
    if s.len() > 0 {
        lemma_pending_count_zero(s.drop_last());
        if pending_count(s) == 0 {
            assert forall|i: int| 0 <= i < s.len() implies s[i] != SlotState::Pending by {
                if i < s.len() - 1 {
                    assert(s[i] == s.drop_last()[i]);
                }
            }
        }
        if forall|i: int| 0 <= i < s.len() ==> s[i] != SlotState::Pending {
            assert forall|i: int| 0 <= i < s.drop_last().len() implies s.drop_last()[i]
                != SlotState::Pending by {
                assert(s[i] == s.drop_last()[i]);
            }
        }
    }
}

/// A sequence of `Pending` slots only has all of them pending.
pub proof fn lemma_pending_count_all(s: Seq<SlotState>)
    requires
        forall|i: int| 0 <= i < s.len() ==> s[i] == SlotState::Pending,
    ensures
        pending_count(s) == s.len(),
    decreases s.len(),
{
    if s.len() > 0 {
        assert forall|i: int| 0 <= i < s.drop_last().len() implies s.drop_last()[i]
            == SlotState::Pending by {
            assert(s[i] == s.drop_last()[i]);
        }
        lemma_pending_count_all(s.drop_last());
    }
}

/// Per-slot bookkeeping of which operations are pending, ready or consumed.
pub struct ReadinessTracker {
    states: Vec<SlotState>,
}

impl View for ReadinessTracker {
    type V = Seq<SlotState>;

    closed spec fn view(&self) -> Seq<SlotState> {
        self.states@
    }
}

impl ReadinessTracker {
    /// `n` slots, all `Pending`.
    pub fn new(n: usize) -> (r: Self)
        ensures
            r@.len() == n,
            forall|i: int| 0 <= i < n ==> r@[i] == SlotState::Pending,
            pending_count(r@) == n,
    {
        let mut states: Vec<SlotState> = Vec::new();
        let mut k: usize = 0;
        while k < n
            invariant
                k <= n,
                states@.len() == k,
                forall|i: int| 0 <= i < k ==> states@[i] == SlotState::Pending,
            decreases n - k,
        {
            states.push(SlotState::Pending);
            k = k + 1;
        }
        proof {
            lemma_pending_count_all(states@);
        }
        ReadinessTracker { states }
    }

    pub fn len(&self) -> (r: usize)
        ensures
            r == self@.len(),
    {
        self.states.len()
    }

    pub fn state(&self, i: usize) -> (r: SlotState)
        requires
            i < self@.len(),
        ensures
            r == self@[i as int],
    {
        self.states[i]
    }

    pub fn is_pending(&self, i: usize) -> (r: bool)
        requires
            i < self@.len(),
        ensures
            r == (self@[i as int] == SlotState::Pending),
    {
        self.states[i] == SlotState::Pending
    }

    /// Number of slots still `Pending`.
    pub fn remaining_count(&self) -> (r: usize)
        ensures
            r == pending_count(self@),
    {
        let n = self.states.len();
        let mut c: usize = 0;
        let mut k: usize = 0;
        while k < n
            invariant
                k <= n,
                n == self.states@.len(),
                c == pending_count(self.states@.subrange(0, k as int)),
                c <= k,
            decreases n - k,
        {
            assert(self.states@.subrange(0, k + 1).drop_last() =~= self.states@.subrange(0, k as int));
            if self.states[k] == SlotState::Pending {
                c = c + 1;
            }
            k = k + 1;
        }
        assert(self.states@.subrange(0, n as int) =~= self.states@);
        c
    }

    /// `Pending` to `Ready`.
    pub fn mark_ready(&mut self, i: usize)
        requires
            i < old(self)@.len(),
            old(self)@[i as int] == SlotState::Pending,
        ensures
            final(self)@ == old(self)@.update(i as int, SlotState::Ready),
            pending_count(final(self)@) + 1 == pending_count(old(self)@),
    {
        proof {
            lemma_pending_count_leave(self@, i as int, SlotState::Ready);
        }
        self.states.set(i, SlotState::Ready);
    }

    /// To `Consumed`, from `Ready`, or from `Pending` when an operation is abandoned
    /// or consumed at once by the engine that probed it.
    pub fn mark_consumed(&mut self, i: usize)
        requires
            i < old(self)@.len(),
        ensures
            final(self)@ == old(self)@.update(i as int, SlotState::Consumed),
            old(self)@[i as int] == SlotState::Pending ==> pending_count(final(self)@) + 1
                == pending_count(old(self)@),
            old(self)@[i as int] != SlotState::Pending ==> pending_count(final(self)@)
                == pending_count(old(self)@),
    {
        proof {
            if self@[i as int] == SlotState::Pending {
                lemma_pending_count_leave(self@, i as int, SlotState::Consumed);
            } else {
                lemma_pending_count_keep(self@, i as int, SlotState::Consumed);
            }
        }
        self.states.set(i, SlotState::Consumed);
    }
}

} // verus!

use vstd::prelude::*;

verus! {

/// One readiness bit per slot, coalesced: the engine re-probes only the slots
/// whose bit is set, and only the first signal after a drain asks for a wakeup.
pub struct WakeupAggregator {
    mask: Vec<bool>,
    any: bool,
}

impl View for WakeupAggregator {
    type V = Seq<bool>;

    closed spec fn view(&self) -> Seq<bool> {
        self.mask@
    }
}

impl WakeupAggregator {
    pub closed spec fn wf(&self) -> bool {
        self.any == (exists|j: int| 0 <= j < self.mask@.len() && self.mask@[j])
    }

    /// `n` slots, each already signalled, so that the first drain visits them all.
    pub fn new(n: usize) -> (r: Self)
        ensures
            r.wf(),
            r@.len() == n,
            forall|i: int| 0 <= i < n ==> r@[i],
    {
        let mut mask: Vec<bool> = Vec::new();
        let mut k: usize = 0;
        while k < n
            invariant
                k <= n,
                mask@.len() == k,
                forall|i: int| 0 <= i < k ==> mask@[i],
            decreases n - k,
        {
            mask.push(true);
            k = k + 1;
        }
        let r = WakeupAggregator { mask, any: n > 0 };
        assert(n > 0 ==> r.mask@[0]);
        r
    }

    pub fn len(&self) -> (r: usize)
        ensures
            r == self@.len(),
    {
        self.mask.len()
    }

    pub fn is_set(&self, i: usize) -> (r: bool)
        requires
            i < self@.len(),
        ensures
            r == self@[i as int],
    {
        self.mask[i]
    }

    /// Sets bit `i`; returns whether this is the first bit set since the last
    /// drain, that is whether the enclosing suspension point must be notified.
    pub fn signal(&mut self, i: usize) -> (notify: bool)
        requires
            old(self).wf(),
            i < old(self)@.len(),
        ensures
            final(self).wf(),
            final(self)@ == old(self)@.update(i as int, true),
            notify == (forall|j: int| 0 <= j < old(self)@.len() ==> !old(self)@[j]),
    {
        let notify = !self.any;
        self.mask.set(i, true);
        self.any = true;
        assert(self.mask@[i as int]);
        notify
    }

    /// The indices whose bit is set, in increasing order; clears every bit.
    pub fn drain_ready_indices(&mut self) -> (r: Vec<usize>)
        requires
            old(self).wf(),
        ensures
            final(self).wf(),
            final(self)@.len() == old(self)@.len(),
            forall|j: int| 0 <= j < final(self)@.len() ==> !final(self)@[j],
            forall|k: int| 0 <= k < r@.len() ==> r@[k] < old(self)@.len() && old(self)@[r@[k] as int],
            forall|j: usize| j < old(self)@.len() && old(self)@[j as int] ==> r@.contains(j),
            forall|k1: int, k2: int| 0 <= k1 < k2 < r@.len() ==> r@[k1] < r@[k2],
    {
        let ghost m0 = self.mask@;
        let n = self.mask.len();
        let mut r: Vec<usize> = Vec::new();
        let mut j: usize = 0;
        while j < n
            invariant
                j <= n,
                n == m0.len(),
                self.mask@.len() == n,
                forall|i: int| 0 <= i < j ==> !self.mask@[i],
                forall|i: int| j <= i < n ==> self.mask@[i] == m0[i],
                forall|k: int| 0 <= k < r@.len() ==> r@[k] < j && m0[r@[k] as int],
                forall|i: usize| i < j && m0[i as int] ==> r@.contains(i),
                forall|k1: int, k2: int| 0 <= k1 < k2 < r@.len() ==> r@[k1] < r@[k2],
            decreases n - j,
        {
            let ghost r0 = r@;
            if self.mask[j] {
                r.push(j);
                self.mask.set(j, false);
                assert(r@[r@.len() - 1] == j);
                assert forall|i: usize| i < j && m0[i as int] implies r@.contains(i) by {
                    let k = choose|k: int| 0 <= k < r0.len() && r0[k] == i;
                    assert(r@[k] == i);
                }
            }
            j = j + 1;
        }
        self.any = false;
        r
    }
}

} // verus!

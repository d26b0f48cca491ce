use vstd::prelude::*;
use crate::join::JoinEngine;
use crate::readiness::SlotState;

verus! {

/// A join of two operations of different output types: the generic engine keeps
/// the bookkeeping, and each slot's output is held under its own type.
pub struct Join2<A, B> {
    engine: JoinEngine<()>,
    a: Option<A>,
    b: Option<B>,
}

impl<A, B> Join2<A, B> {
    pub closed spec fn states(&self) -> Seq<SlotState> {
        self.engine.states()
    }

    pub closed spec fn dirty(&self) -> Seq<bool> {
        self.engine.dirty()
    }

    pub closed spec fn output_a(&self) -> Option<A> {
        self.a
    }

    pub closed spec fn output_b(&self) -> Option<B> {
        self.b
    }

    pub closed spec fn wf(&self) -> bool {
        &&& self.engine.wf()
        &&& self.engine.outputs().len() == 2
        &&& self.engine.dirty().len() == 2
        &&& self.engine.states().len() == 2
        &&& (self.a is Some <==> self.engine.outputs()[0] is Some)
        &&& (self.b is Some <==> self.engine.outputs()[1] is Some)
    }

    pub fn new() -> (r: Self)
        ensures
            r.wf(),
            r.states() == seq![SlotState::Pending, SlotState::Pending],
            r.dirty() == seq![true, true],
            r.output_a() is None,
            r.output_b() is None,
    {
        let engine = JoinEngine::new(2);
        proof {
            engine.lemma_wf_facts();
        }
        assert(engine.states() =~= seq![SlotState::Pending, SlotState::Pending]);
        assert(engine.dirty() =~= seq![true, true]);
        Join2 { engine, a: None, b: None }
    }

    /// The slots to probe in this drive step: those signalled since the last step
    /// and still pending, in increasing order. Clears the signals.
    pub fn to_probe(&mut self) -> (r: Vec<usize>)
        requires
            old(self).wf(),
        ensures
            final(self).wf(),
            final(self).states() == old(self).states(),
            final(self).output_a() == old(self).output_a(),
            final(self).output_b() == old(self).output_b(),
            final(self).dirty().len() == 2,
            forall|j: int| 0 <= j < 2 ==> !final(self).dirty()[j],
            forall|k: int|
                0 <= k < r@.len() ==> r@[k] < 2 && old(self).dirty()[r@[k] as int] && old(self).states()[r@[k] as int]
                    == SlotState::Pending,
            forall|j: usize|
                j < 2 && old(self).dirty()[j as int] && old(self).states()[j as int] == SlotState::Pending
                    ==> r@.contains(j),
            forall|k1: int, k2: int| 0 <= k1 < k2 < r@.len() ==> r@[k1] < r@[k2],
    {
        self.engine.to_probe()
    }

    /// Operation `i` signalled that it can make progress.
    pub fn wake(&mut self, i: usize)
        requires
            old(self).wf(),
            i < 2,
        ensures
            final(self).wf(),
            final(self).dirty() == old(self).dirty().update(i as int, true),
            final(self).states() == old(self).states(),
            final(self).output_a() == old(self).output_a(),
            final(self).output_b() == old(self).output_b(),
    {
        self.engine.wake(i);
    }

    /// The first operation gave `v`.
    pub fn complete_0(&mut self, v: A)
        requires
            old(self).wf(),
            old(self).states()[0] == SlotState::Pending,
        ensures
            final(self).wf(),
            final(self).dirty() == old(self).dirty(),
            final(self).states() == old(self).states().update(0, SlotState::Ready),
            final(self).output_a() == Some(v),
            final(self).output_b() == old(self).output_b(),
    {
        self.engine.complete(0, ());
        self.a = Some(v);
    }

    /// The second operation gave `v`.
    pub fn complete_1(&mut self, v: B)
        requires
            old(self).wf(),
            old(self).states()[1] == SlotState::Pending,
        ensures
            final(self).wf(),
            final(self).dirty() == old(self).dirty(),
            final(self).states() == old(self).states().update(1, SlotState::Ready),
            final(self).output_b() == Some(v),
            final(self).output_a() == old(self).output_a(),
    {
        self.engine.complete(1, ());
        self.b = Some(v);
    }

    /// All outputs, in slot order, once every operation has completed; the slots
    /// are then consumed. Before that `None`, with nothing changed.
    pub fn finish(&mut self) -> (r: Option<(A, B)>)
        requires
            old(self).wf(),
        ensures
            final(self).wf(),
            r is Some <==> old(self).states()[0] == SlotState::Ready && old(self).states()[1] == SlotState::Ready,
            r matches Some(t) ==> old(self).output_a() == Some(t.0) && old(self).output_b() == Some(t.1),
            r is None ==> final(self).states() == old(self).states() && final(self).output_a() == old(self).output_a() && final(self).output_b() == old(self).output_b(),
            r is Some ==> final(self).states() == seq![SlotState::Consumed, SlotState::Consumed] && final(self).output_a() is None && final(self).output_b() is None,
    {
        proof {
            self.engine.lemma_wf_facts();
        }
        match self.engine.finish() {
            None => None,
            Some(_) => {
                let a = self.a.take();
                let b = self.b.take();
                match (a, b) {
                    (Some(aa), Some(bb)) => {
                        assert(self.engine.states() =~= seq![SlotState::Consumed, SlotState::Consumed]);
                        Some((aa, bb))
                    },
                    _ => {
                        proof {
                            assert(false);
                        }
                        None
                    },
                }
            },
        }
    }
}

/// A join of three operations of different output types.
pub struct Join3<A, B, C> {
    engine: JoinEngine<()>,
    a: Option<A>,
    b: Option<B>,
    c: Option<C>,
}

impl<A, B, C> Join3<A, B, C> {
    pub closed spec fn states(&self) -> Seq<SlotState> {
        self.engine.states()
    }

    pub closed spec fn dirty(&self) -> Seq<bool> {
        self.engine.dirty()
    }

    pub closed spec fn output_a(&self) -> Option<A> {
        self.a
    }

    pub closed spec fn output_b(&self) -> Option<B> {
        self.b
    }

    pub closed spec fn output_c(&self) -> Option<C> {
        self.c
    }

    pub closed spec fn wf(&self) -> bool {
        &&& self.engine.wf()
        &&& self.engine.outputs().len() == 3
        &&& self.engine.dirty().len() == 3
        &&& self.engine.states().len() == 3
        &&& (self.a is Some <==> self.engine.outputs()[0] is Some)
        &&& (self.b is Some <==> self.engine.outputs()[1] is Some)
        &&& (self.c is Some <==> self.engine.outputs()[2] is Some)
    }

    pub fn new() -> (r: Self)
        ensures
            r.wf(),
            r.states() == seq![SlotState::Pending, SlotState::Pending, SlotState::Pending],
            r.dirty() == seq![true, true, true],
            r.output_a() is None,
            r.output_b() is None,
            r.output_c() is None,
    {
        let engine = JoinEngine::new(3);
        proof {
            engine.lemma_wf_facts();
        }
        assert(engine.states() =~= seq![SlotState::Pending, SlotState::Pending, SlotState::Pending]);
        assert(engine.dirty() =~= seq![true, true, true]);
        Join3 { engine, a: None, b: None, c: None }
    }

    /// The slots to probe in this drive step: those signalled since the last step
    /// and still pending, in increasing order. Clears the signals.
    pub fn to_probe(&mut self) -> (r: Vec<usize>)
        requires
            old(self).wf(),
        ensures
            final(self).wf(),
            final(self).states() == old(self).states(),
            final(self).output_a() == old(self).output_a(),
            final(self).output_b() == old(self).output_b(),
            final(self).output_c() == old(self).output_c(),
            final(self).dirty().len() == 3,
            forall|j: int| 0 <= j < 3 ==> !final(self).dirty()[j],
            forall|k: int|
                0 <= k < r@.len() ==> r@[k] < 3 && old(self).dirty()[r@[k] as int] && old(self).states()[r@[k] as int]
                    == SlotState::Pending,
            forall|j: usize|
                j < 3 && old(self).dirty()[j as int] && old(self).states()[j as int] == SlotState::Pending
                    ==> r@.contains(j),
            forall|k1: int, k2: int| 0 <= k1 < k2 < r@.len() ==> r@[k1] < r@[k2],
    {
        self.engine.to_probe()
    }

    /// Operation `i` signalled that it can make progress.
    pub fn wake(&mut self, i: usize)
        requires
            old(self).wf(),
            i < 3,
        ensures
            final(self).wf(),
            final(self).dirty() == old(self).dirty().update(i as int, true),
            final(self).states() == old(self).states(),
            final(self).output_a() == old(self).output_a(),
            final(self).output_b() == old(self).output_b(),
            final(self).output_c() == old(self).output_c(),
    {
        self.engine.wake(i);
    }

    /// The first operation gave `v`.
    pub fn complete_0(&mut self, v: A)
        requires
            old(self).wf(),
            old(self).states()[0] == SlotState::Pending,
        ensures
            final(self).wf(),
            final(self).dirty() == old(self).dirty(),
            final(self).states() == old(self).states().update(0, SlotState::Ready),
            final(self).output_a() == Some(v),
            final(self).output_b() == old(self).output_b(),
            final(self).output_c() == old(self).output_c(),
    {
        self.engine.complete(0, ());
        self.a = Some(v);
    }

    /// The second operation gave `v`.
    pub fn complete_1(&mut self, v: B)
        requires
            old(self).wf(),
            old(self).states()[1] == SlotState::Pending,
        ensures
            final(self).wf(),
            final(self).dirty() == old(self).dirty(),
            final(self).states() == old(self).states().update(1, SlotState::Ready),
            final(self).output_b() == Some(v),
            final(self).output_a() == old(self).output_a(),
            final(self).output_c() == old(self).output_c(),
    {
        self.engine.complete(1, ());
        self.b = Some(v);
    }

    /// The third operation gave `v`.
    pub fn complete_2(&mut self, v: C)
        requires
            old(self).wf(),
            old(self).states()[2] == SlotState::Pending,
        ensures
            final(self).wf(),
            final(self).dirty() == old(self).dirty(),
            final(self).states() == old(self).states().update(2, SlotState::Ready),
            final(self).output_c() == Some(v),
            final(self).output_a() == old(self).output_a(),
            final(self).output_b() == old(self).output_b(),
    {
        self.engine.complete(2, ());
        self.c = Some(v);
    }

    /// All outputs, in slot order, once every operation has completed; the slots
    /// are then consumed. Before that `None`, with nothing changed.
    pub fn finish(&mut self) -> (r: Option<(A, B, C)>)
        requires
            old(self).wf(),
        ensures
            final(self).wf(),
            r is Some <==> old(self).states()[0] == SlotState::Ready && old(self).states()[1] == SlotState::Ready && old(self).states()[2] == SlotState::Ready,
            r matches Some(t) ==> old(self).output_a() == Some(t.0) && old(self).output_b() == Some(t.1) && old(self).output_c() == Some(t.2),
            r is None ==> final(self).states() == old(self).states() && final(self).output_a() == old(self).output_a() && final(self).output_b() == old(self).output_b() && final(self).output_c() == old(self).output_c(),
            r is Some ==> final(self).states() == seq![SlotState::Consumed, SlotState::Consumed, SlotState::Consumed] && final(self).output_a() is None && final(self).output_b() is None && final(self).output_c() is None,
    {
        proof {
            self.engine.lemma_wf_facts();
        }
        match self.engine.finish() {
            None => None,
            Some(_) => {
                let a = self.a.take();
                let b = self.b.take();
                let c = self.c.take();
                match (a, b, c) {
                    (Some(aa), Some(bb), Some(cc)) => {
                        assert(self.engine.states() =~= seq![SlotState::Consumed, SlotState::Consumed, SlotState::Consumed]);
                        Some((aa, bb, cc))
                    },
                    _ => {
                        proof {
                            assert(false);
                        }
                        None
                    },
                }
            },
        }
    }
}

/// A join of four operations of different output types.
pub struct Join4<A, B, C, D> {
    engine: JoinEngine<()>,
    a: Option<A>,
    b: Option<B>,
    c: Option<C>,
    d: Option<D>,
}

impl<A, B, C, D> Join4<A, B, C, D> {
    pub closed spec fn states(&self) -> Seq<SlotState> {
        self.engine.states()
    }

    pub closed spec fn dirty(&self) -> Seq<bool> {
        self.engine.dirty()
    }

    pub closed spec fn output_a(&self) -> Option<A> {
        self.a
    }

    pub closed spec fn output_b(&self) -> Option<B> {
        self.b
    }

    pub closed spec fn output_c(&self) -> Option<C> {
        self.c
    }

    pub closed spec fn output_d(&self) -> Option<D> {
        self.d
    }

    pub closed spec fn wf(&self) -> bool {
        &&& self.engine.wf()
        &&& self.engine.outputs().len() == 4
        &&& self.engine.dirty().len() == 4
        &&& self.engine.states().len() == 4
        &&& (self.a is Some <==> self.engine.outputs()[0] is Some)
        &&& (self.b is Some <==> self.engine.outputs()[1] is Some)
        &&& (self.c is Some <==> self.engine.outputs()[2] is Some)
        &&& (self.d is Some <==> self.engine.outputs()[3] is Some)
    }

    pub fn new() -> (r: Self)
        ensures
            r.wf(),
            r.states() == seq![SlotState::Pending, SlotState::Pending, SlotState::Pending, SlotState::Pending],
            r.dirty() == seq![true, true, true, true],
            r.output_a() is None,
            r.output_b() is None,
            r.output_c() is None,
            r.output_d() is None,
    {
        let engine = JoinEngine::new(4);
        proof {
            engine.lemma_wf_facts();
        }
        assert(engine.states() =~= seq![SlotState::Pending, SlotState::Pending, SlotState::Pending, SlotState::Pending]);
        assert(engine.dirty() =~= seq![true, true, true, true]);
        Join4 { engine, a: None, b: None, c: None, d: None }
    }

    /// The slots to probe in this drive step: those signalled since the last step
    /// and still pending, in increasing order. Clears the signals.
    pub fn to_probe(&mut self) -> (r: Vec<usize>)
        requires
            old(self).wf(),
        ensures
            final(self).wf(),
            final(self).states() == old(self).states(),
            final(self).output_a() == old(self).output_a(),
            final(self).output_b() == old(self).output_b(),
            final(self).output_c() == old(self).output_c(),
            final(self).output_d() == old(self).output_d(),
            final(self).dirty().len() == 4,
            forall|j: int| 0 <= j < 4 ==> !final(self).dirty()[j],
            forall|k: int|
                0 <= k < r@.len() ==> r@[k] < 4 && old(self).dirty()[r@[k] as int] && old(self).states()[r@[k] as int]
                    == SlotState::Pending,
            forall|j: usize|
                j < 4 && old(self).dirty()[j as int] && old(self).states()[j as int] == SlotState::Pending
                    ==> r@.contains(j),
            forall|k1: int, k2: int| 0 <= k1 < k2 < r@.len() ==> r@[k1] < r@[k2],
    {
        self.engine.to_probe()
    }

    /// Operation `i` signalled that it can make progress.
    pub fn wake(&mut self, i: usize)
        requires
            old(self).wf(),
            i < 4,
        ensures
            final(self).wf(),
            final(self).dirty() == old(self).dirty().update(i as int, true),
            final(self).states() == old(self).states(),
            final(self).output_a() == old(self).output_a(),
            final(self).output_b() == old(self).output_b(),
            final(self).output_c() == old(self).output_c(),
            final(self).output_d() == old(self).output_d(),
    {
        self.engine.wake(i);
    }

    /// The first operation gave `v`.
    pub fn complete_0(&mut self, v: A)
        requires
            old(self).wf(),
            old(self).states()[0] == SlotState::Pending,
        ensures
            final(self).wf(),
            final(self).dirty() == old(self).dirty(),
            final(self).states() == old(self).states().update(0, SlotState::Ready),
            final(self).output_a() == Some(v),
            final(self).output_b() == old(self).output_b(),
            final(self).output_c() == old(self).output_c(),
            final(self).output_d() == old(self).output_d(),
    {
        self.engine.complete(0, ());
        self.a = Some(v);
    }

    /// The second operation gave `v`.
    pub fn complete_1(&mut self, v: B)
        requires
            old(self).wf(),
            old(self).states()[1] == SlotState::Pending,
        ensures
            final(self).wf(),
            final(self).dirty() == old(self).dirty(),
            final(self).states() == old(self).states().update(1, SlotState::Ready),
            final(self).output_b() == Some(v),
            final(self).output_a() == old(self).output_a(),
            final(self).output_c() == old(self).output_c(),
            final(self).output_d() == old(self).output_d(),
    {
        self.engine.complete(1, ());
        self.b = Some(v);
    }

    /// The third operation gave `v`.
    pub fn complete_2(&mut self, v: C)
        requires
            old(self).wf(),
            old(self).states()[2] == SlotState::Pending,
        ensures
            final(self).wf(),
            final(self).dirty() == old(self).dirty(),
            final(self).states() == old(self).states().update(2, SlotState::Ready),
            final(self).output_c() == Some(v),
            final(self).output_a() == old(self).output_a(),
            final(self).output_b() == old(self).output_b(),
            final(self).output_d() == old(self).output_d(),
    {
        self.engine.complete(2, ());
        self.c = Some(v);
    }

    /// The fourth operation gave `v`.
    pub fn complete_3(&mut self, v: D)
        requires
            old(self).wf(),
            old(self).states()[3] == SlotState::Pending,
        ensures
            final(self).wf(),
            final(self).dirty() == old(self).dirty(),
            final(self).states() == old(self).states().update(3, SlotState::Ready),
            final(self).output_d() == Some(v),
            final(self).output_a() == old(self).output_a(),
            final(self).output_b() == old(self).output_b(),
            final(self).output_c() == old(self).output_c(),
    {
        self.engine.complete(3, ());
        self.d = Some(v);
    }

    /// All outputs, in slot order, once every operation has completed; the slots
    /// are then consumed. Before that `None`, with nothing changed.
    pub fn finish(&mut self) -> (r: Option<(A, B, C, D)>)
        requires
            old(self).wf(),
        ensures
            final(self).wf(),
            r is Some <==> old(self).states()[0] == SlotState::Ready && old(self).states()[1] == SlotState::Ready && old(self).states()[2] == SlotState::Ready && old(self).states()[3] == SlotState::Ready,
            r matches Some(t) ==> old(self).output_a() == Some(t.0) && old(self).output_b() == Some(t.1) && old(self).output_c() == Some(t.2) && old(self).output_d() == Some(t.3),
            r is None ==> final(self).states() == old(self).states() && final(self).output_a() == old(self).output_a() && final(self).output_b() == old(self).output_b() && final(self).output_c() == old(self).output_c() && final(self).output_d() == old(self).output_d(),
            r is Some ==> final(self).states() == seq![SlotState::Consumed, SlotState::Consumed, SlotState::Consumed, SlotState::Consumed] && final(self).output_a() is None && final(self).output_b() is None && final(self).output_c() is None && final(self).output_d() is None,
    {
        proof {
            self.engine.lemma_wf_facts();
        }
        match self.engine.finish() {
            None => None,
            Some(_) => {
                let a = self.a.take();
                let b = self.b.take();
                let c = self.c.take();
                let d = self.d.take();
                match (a, b, c, d) {
                    (Some(aa), Some(bb), Some(cc), Some(dd)) => {
                        assert(self.engine.states() =~= seq![SlotState::Consumed, SlotState::Consumed, SlotState::Consumed, SlotState::Consumed]);
                        Some((aa, bb, cc, dd))
                    },
                    _ => {
                        proof {
                            assert(false);
                        }
                        None
                    },
                }
            },
        }
    }
}

/// A join of five operations of different output types.
pub struct Join5<A, B, C, D, E> {
    engine: JoinEngine<()>,
    a: Option<A>,
    b: Option<B>,
    c: Option<C>,
    d: Option<D>,
    e: Option<E>,
}

impl<A, B, C, D, E> Join5<A, B, C, D, E> {
    pub closed spec fn states(&self) -> Seq<SlotState> {
        self.engine.states()
    }

    pub closed spec fn dirty(&self) -> Seq<bool> {
        self.engine.dirty()
    }

    pub closed spec fn output_a(&self) -> Option<A> {
        self.a
    }

    pub closed spec fn output_b(&self) -> Option<B> {
        self.b
    }

    pub closed spec fn output_c(&self) -> Option<C> {
        self.c
    }

    pub closed spec fn output_d(&self) -> Option<D> {
        self.d
    }

    pub closed spec fn output_e(&self) -> Option<E> {
        self.e
    }

    pub closed spec fn wf(&self) -> bool {
        &&& self.engine.wf()
        &&& self.engine.outputs().len() == 5
        &&& self.engine.dirty().len() == 5
        &&& self.engine.states().len() == 5
        &&& (self.a is Some <==> self.engine.outputs()[0] is Some)
        &&& (self.b is Some <==> self.engine.outputs()[1] is Some)
        &&& (self.c is Some <==> self.engine.outputs()[2] is Some)
        &&& (self.d is Some <==> self.engine.outputs()[3] is Some)
        &&& (self.e is Some <==> self.engine.outputs()[4] is Some)
    }

    pub fn new() -> (r: Self)
        ensures
            r.wf(),
            r.states() == seq![SlotState::Pending, SlotState::Pending, SlotState::Pending, SlotState::Pending, SlotState::Pending],
            r.dirty() == seq![true, true, true, true, true],
            r.output_a() is None,
            r.output_b() is None,
            r.output_c() is None,
            r.output_d() is None,
            r.output_e() is None,
    {
        let engine = JoinEngine::new(5);
        proof {
            engine.lemma_wf_facts();
        }
        assert(engine.states() =~= seq![SlotState::Pending, SlotState::Pending, SlotState::Pending, SlotState::Pending, SlotState::Pending]);
        assert(engine.dirty() =~= seq![true, true, true, true, true]);
        Join5 { engine, a: None, b: None, c: None, d: None, e: None }
    }

    /// The slots to probe in this drive step: those signalled since the last step
    /// and still pending, in increasing order. Clears the signals.
    pub fn to_probe(&mut self) -> (r: Vec<usize>)
        requires
            old(self).wf(),
        ensures
            final(self).wf(),
            final(self).states() == old(self).states(),
            final(self).output_a() == old(self).output_a(),
            final(self).output_b() == old(self).output_b(),
            final(self).output_c() == old(self).output_c(),
            final(self).output_d() == old(self).output_d(),
            final(self).output_e() == old(self).output_e(),
            final(self).dirty().len() == 5,
            forall|j: int| 0 <= j < 5 ==> !final(self).dirty()[j],
            forall|k: int|
                0 <= k < r@.len() ==> r@[k] < 5 && old(self).dirty()[r@[k] as int] && old(self).states()[r@[k] as int]
                    == SlotState::Pending,
            forall|j: usize|
                j < 5 && old(self).dirty()[j as int] && old(self).states()[j as int] == SlotState::Pending
                    ==> r@.contains(j),
            forall|k1: int, k2: int| 0 <= k1 < k2 < r@.len() ==> r@[k1] < r@[k2],
    {
        self.engine.to_probe()
    }

    /// Operation `i` signalled that it can make progress.
    pub fn wake(&mut self, i: usize)
        requires
            old(self).wf(),
            i < 5,
        ensures
            final(self).wf(),
            final(self).dirty() == old(self).dirty().update(i as int, true),
            final(self).states() == old(self).states(),
            final(self).output_a() == old(self).output_a(),
            final(self).output_b() == old(self).output_b(),
            final(self).output_c() == old(self).output_c(),
            final(self).output_d() == old(self).output_d(),
            final(self).output_e() == old(self).output_e(),
    {
        self.engine.wake(i);
    }

    /// The first operation gave `v`.
    pub fn complete_0(&mut self, v: A)
        requires
            old(self).wf(),
            old(self).states()[0] == SlotState::Pending,
        ensures
            final(self).wf(),
            final(self).dirty() == old(self).dirty(),
            final(self).states() == old(self).states().update(0, SlotState::Ready),
            final(self).output_a() == Some(v),
            final(self).output_b() == old(self).output_b(),
            final(self).output_c() == old(self).output_c(),
            final(self).output_d() == old(self).output_d(),
            final(self).output_e() == old(self).output_e(),
    {
        self.engine.complete(0, ());
        self.a = Some(v);
    }

    /// The second operation gave `v`.
    pub fn complete_1(&mut self, v: B)
        requires
            old(self).wf(),
            old(self).states()[1] == SlotState::Pending,
        ensures
            final(self).wf(),
            final(self).dirty() == old(self).dirty(),
            final(self).states() == old(self).states().update(1, SlotState::Ready),
            final(self).output_b() == Some(v),
            final(self).output_a() == old(self).output_a(),
            final(self).output_c() == old(self).output_c(),
            final(self).output_d() == old(self).output_d(),
            final(self).output_e() == old(self).output_e(),
    {
        self.engine.complete(1, ());
        self.b = Some(v);
    }

    /// The third operation gave `v`.
    pub fn complete_2(&mut self, v: C)
        requires
            old(self).wf(),
            old(self).states()[2] == SlotState::Pending,
        ensures
            final(self).wf(),
            final(self).dirty() == old(self).dirty(),
            final(self).states() == old(self).states().update(2, SlotState::Ready),
            final(self).output_c() == Some(v),
            final(self).output_a() == old(self).output_a(),
            final(self).output_b() == old(self).output_b(),
            final(self).output_d() == old(self).output_d(),
            final(self).output_e() == old(self).output_e(),
    {
        self.engine.complete(2, ());
        self.c = Some(v);
    }

    /// The fourth operation gave `v`.
    pub fn complete_3(&mut self, v: D)
        requires
            old(self).wf(),
            old(self).states()[3] == SlotState::Pending,
        ensures
            final(self).wf(),
            final(self).dirty() == old(self).dirty(),
            final(self).states() == old(self).states().update(3, SlotState::Ready),
            final(self).output_d() == Some(v),
            final(self).output_a() == old(self).output_a(),
            final(self).output_b() == old(self).output_b(),
            final(self).output_c() == old(self).output_c(),
            final(self).output_e() == old(self).output_e(),
    {
        self.engine.complete(3, ());
        self.d = Some(v);
    }

    /// The fifth operation gave `v`.
    pub fn complete_4(&mut self, v: E)
        requires
            old(self).wf(),
            old(self).states()[4] == SlotState::Pending,
        ensures
            final(self).wf(),
            final(self).dirty() == old(self).dirty(),
            final(self).states() == old(self).states().update(4, SlotState::Ready),
            final(self).output_e() == Some(v),
            final(self).output_a() == old(self).output_a(),
            final(self).output_b() == old(self).output_b(),
            final(self).output_c() == old(self).output_c(),
            final(self).output_d() == old(self).output_d(),
    {
        self.engine.complete(4, ());
        self.e = Some(v);
    }

    /// All outputs, in slot order, once every operation has completed; the slots
    /// are then consumed. Before that `None`, with nothing changed.
    pub fn finish(&mut self) -> (r: Option<(A, B, C, D, E)>)
        requires
            old(self).wf(),
        ensures
            final(self).wf(),
            r is Some <==> old(self).states()[0] == SlotState::Ready && old(self).states()[1] == SlotState::Ready && old(self).states()[2] == SlotState::Ready && old(self).states()[3] == SlotState::Ready && old(self).states()[4] == SlotState::Ready,
            r matches Some(t) ==> old(self).output_a() == Some(t.0) && old(self).output_b() == Some(t.1) && old(self).output_c() == Some(t.2) && old(self).output_d() == Some(t.3) && old(self).output_e() == Some(t.4),
            r is None ==> final(self).states() == old(self).states() && final(self).output_a() == old(self).output_a() && final(self).output_b() == old(self).output_b() && final(self).output_c() == old(self).output_c() && final(self).output_d() == old(self).output_d() && final(self).output_e() == old(self).output_e(),
            r is Some ==> final(self).states() == seq![SlotState::Consumed, SlotState::Consumed, SlotState::Consumed, SlotState::Consumed, SlotState::Consumed] && final(self).output_a() is None && final(self).output_b() is None && final(self).output_c() is None && final(self).output_d() is None && final(self).output_e() is None,
    {
        proof {
            self.engine.lemma_wf_facts();
        }
        match self.engine.finish() {
            None => None,
            Some(_) => {
                let a = self.a.take();
                let b = self.b.take();
                let c = self.c.take();
                let d = self.d.take();
                let e = self.e.take();
                match (a, b, c, d, e) {
                    (Some(aa), Some(bb), Some(cc), Some(dd), Some(ee)) => {
                        assert(self.engine.states() =~= seq![SlotState::Consumed, SlotState::Consumed, SlotState::Consumed, SlotState::Consumed, SlotState::Consumed]);
                        Some((aa, bb, cc, dd, ee))
                    },
                    _ => {
                        proof {
                            assert(false);
                        }
                        None
                    },
                }
            },
        }
    }
}

/// A join of six operations of different output types.
pub struct Join6<A, B, C, D, E, F> {
    engine: JoinEngine<()>,
    a: Option<A>,
    b: Option<B>,
    c: Option<C>,
    d: Option<D>,
    e: Option<E>,
    f: Option<F>,
}

impl<A, B, C, D, E, F> Join6<A, B, C, D, E, F> {
    pub closed spec fn states(&self) -> Seq<SlotState> {
        self.engine.states()
    }

    pub closed spec fn dirty(&self) -> Seq<bool> {
        self.engine.dirty()
    }

    pub closed spec fn output_a(&self) -> Option<A> {
        self.a
    }

    pub closed spec fn output_b(&self) -> Option<B> {
        self.b
    }

    pub closed spec fn output_c(&self) -> Option<C> {
        self.c
    }

    pub closed spec fn output_d(&self) -> Option<D> {
        self.d
    }

    pub closed spec fn output_e(&self) -> Option<E> {
        self.e
    }

    pub closed spec fn output_f(&self) -> Option<F> {
        self.f
    }

    pub closed spec fn wf(&self) -> bool {
        &&& self.engine.wf()
        &&& self.engine.outputs().len() == 6
        &&& self.engine.dirty().len() == 6
        &&& self.engine.states().len() == 6
        &&& (self.a is Some <==> self.engine.outputs()[0] is Some)
        &&& (self.b is Some <==> self.engine.outputs()[1] is Some)
        &&& (self.c is Some <==> self.engine.outputs()[2] is Some)
        &&& (self.d is Some <==> self.engine.outputs()[3] is Some)
        &&& (self.e is Some <==> self.engine.outputs()[4] is Some)
        &&& (self.f is Some <==> self.engine.outputs()[5] is Some)
    }

    pub fn new() -> (r: Self)
        ensures
            r.wf(),
            r.states() == seq![SlotState::Pending, SlotState::Pending, SlotState::Pending, SlotState::Pending, SlotState::Pending, SlotState::Pending],
            r.dirty() == seq![true, true, true, true, true, true],
            r.output_a() is None,
            r.output_b() is None,
            r.output_c() is None,
            r.output_d() is None,
            r.output_e() is None,
            r.output_f() is None,
    {
        let engine = JoinEngine::new(6);
        proof {
            engine.lemma_wf_facts();
        }
        assert(engine.states() =~= seq![SlotState::Pending, SlotState::Pending, SlotState::Pending, SlotState::Pending, SlotState::Pending, SlotState::Pending]);
        assert(engine.dirty() =~= seq![true, true, true, true, true, true]);
        Join6 { engine, a: None, b: None, c: None, d: None, e: None, f: None }
    }

    /// The slots to probe in this drive step: those signalled since the last step
    /// and still pending, in increasing order. Clears the signals.
    pub fn to_probe(&mut self) -> (r: Vec<usize>)
        requires
            old(self).wf(),
        ensures
            final(self).wf(),
            final(self).states() == old(self).states(),
            final(self).output_a() == old(self).output_a(),
            final(self).output_b() == old(self).output_b(),
            final(self).output_c() == old(self).output_c(),
            final(self).output_d() == old(self).output_d(),
            final(self).output_e() == old(self).output_e(),
            final(self).output_f() == old(self).output_f(),
            final(self).dirty().len() == 6,
            forall|j: int| 0 <= j < 6 ==> !final(self).dirty()[j],
            forall|k: int|
                0 <= k < r@.len() ==> r@[k] < 6 && old(self).dirty()[r@[k] as int] && old(self).states()[r@[k] as int]
                    == SlotState::Pending,
            forall|j: usize|
                j < 6 && old(self).dirty()[j as int] && old(self).states()[j as int] == SlotState::Pending
                    ==> r@.contains(j),
            forall|k1: int, k2: int| 0 <= k1 < k2 < r@.len() ==> r@[k1] < r@[k2],
    {
        self.engine.to_probe()
    }

    /// Operation `i` signalled that it can make progress.
    pub fn wake(&mut self, i: usize)
        requires
            old(self).wf(),
            i < 6,
        ensures
            final(self).wf(),
            final(self).dirty() == old(self).dirty().update(i as int, true),
            final(self).states() == old(self).states(),
            final(self).output_a() == old(self).output_a(),
            final(self).output_b() == old(self).output_b(),
            final(self).output_c() == old(self).output_c(),
            final(self).output_d() == old(self).output_d(),
            final(self).output_e() == old(self).output_e(),
            final(self).output_f() == old(self).output_f(),
    {
        self.engine.wake(i);
    }

    /// The first operation gave `v`.
    pub fn complete_0(&mut self, v: A)
        requires
            old(self).wf(),
            old(self).states()[0] == SlotState::Pending,
        ensures
            final(self).wf(),
            final(self).dirty() == old(self).dirty(),
            final(self).states() == old(self).states().update(0, SlotState::Ready),
            final(self).output_a() == Some(v),
            final(self).output_b() == old(self).output_b(),
            final(self).output_c() == old(self).output_c(),
            final(self).output_d() == old(self).output_d(),
            final(self).output_e() == old(self).output_e(),
            final(self).output_f() == old(self).output_f(),
    {
        self.engine.complete(0, ());
        self.a = Some(v);
    }

    /// The second operation gave `v`.
    pub fn complete_1(&mut self, v: B)
        requires
            old(self).wf(),
            old(self).states()[1] == SlotState::Pending,
        ensures
            final(self).wf(),
            final(self).dirty() == old(self).dirty(),
            final(self).states() == old(self).states().update(1, SlotState::Ready),
            final(self).output_b() == Some(v),
            final(self).output_a() == old(self).output_a(),
            final(self).output_c() == old(self).output_c(),
            final(self).output_d() == old(self).output_d(),
            final(self).output_e() == old(self).output_e(),
            final(self).output_f() == old(self).output_f(),
    {
        self.engine.complete(1, ());
        self.b = Some(v);
    }

    /// The third operation gave `v`.
    pub fn complete_2(&mut self, v: C)
        requires
            old(self).wf(),
            old(self).states()[2] == SlotState::Pending,
        ensures
            final(self).wf(),
            final(self).dirty() == old(self).dirty(),
            final(self).states() == old(self).states().update(2, SlotState::Ready),
            final(self).output_c() == Some(v),
            final(self).output_a() == old(self).output_a(),
            final(self).output_b() == old(self).output_b(),
            final(self).output_d() == old(self).output_d(),
            final(self).output_e() == old(self).output_e(),
            final(self).output_f() == old(self).output_f(),
    {
        self.engine.complete(2, ());
        self.c = Some(v);
    }

    /// The fourth operation gave `v`.
    pub fn complete_3(&mut self, v: D)
        requires
            old(self).wf(),
            old(self).states()[3] == SlotState::Pending,
        ensures
            final(self).wf(),
            final(self).dirty() == old(self).dirty(),
            final(self).states() == old(self).states().update(3, SlotState::Ready),
            final(self).output_d() == Some(v),
            final(self).output_a() == old(self).output_a(),
            final(self).output_b() == old(self).output_b(),
            final(self).output_c() == old(self).output_c(),
            final(self).output_e() == old(self).output_e(),
            final(self).output_f() == old(self).output_f(),
    {
        self.engine.complete(3, ());
        self.d = Some(v);
    }

    /// The fifth operation gave `v`.
    pub fn complete_4(&mut self, v: E)
        requires
            old(self).wf(),
            old(self).states()[4] == SlotState::Pending,
        ensures
            final(self).wf(),
            final(self).dirty() == old(self).dirty(),
            final(self).states() == old(self).states().update(4, SlotState::Ready),
            final(self).output_e() == Some(v),
            final(self).output_a() == old(self).output_a(),
            final(self).output_b() == old(self).output_b(),
            final(self).output_c() == old(self).output_c(),
            final(self).output_d() == old(self).output_d(),
            final(self).output_f() == old(self).output_f(),
    {
        self.engine.complete(4, ());
        self.e = Some(v);
    }

    /// The sixth operation gave `v`.
    pub fn complete_5(&mut self, v: F)
        requires
            old(self).wf(),
            old(self).states()[5] == SlotState::Pending,
        ensures
            final(self).wf(),
            final(self).dirty() == old(self).dirty(),
            final(self).states() == old(self).states().update(5, SlotState::Ready),
            final(self).output_f() == Some(v),
            final(self).output_a() == old(self).output_a(),
            final(self).output_b() == old(self).output_b(),
            final(self).output_c() == old(self).output_c(),
            final(self).output_d() == old(self).output_d(),
            final(self).output_e() == old(self).output_e(),
    {
        self.engine.complete(5, ());
        self.f = Some(v);
    }

    /// All outputs, in slot order, once every operation has completed; the slots
    /// are then consumed. Before that `None`, with nothing changed.
    pub fn finish(&mut self) -> (r: Option<(A, B, C, D, E, F)>)
        requires
            old(self).wf(),
        ensures
            final(self).wf(),
            r is Some <==> old(self).states()[0] == SlotState::Ready && old(self).states()[1] == SlotState::Ready && old(self).states()[2] == SlotState::Ready && old(self).states()[3] == SlotState::Ready && old(self).states()[4] == SlotState::Ready && old(self).states()[5] == SlotState::Ready,
            r matches Some(t) ==> old(self).output_a() == Some(t.0) && old(self).output_b() == Some(t.1) && old(self).output_c() == Some(t.2) && old(self).output_d() == Some(t.3) && old(self).output_e() == Some(t.4) && old(self).output_f() == Some(t.5),
            r is None ==> final(self).states() == old(self).states() && final(self).output_a() == old(self).output_a() && final(self).output_b() == old(self).output_b() && final(self).output_c() == old(self).output_c() && final(self).output_d() == old(self).output_d() && final(self).output_e() == old(self).output_e() && final(self).output_f() == old(self).output_f(),
            r is Some ==> final(self).states() == seq![SlotState::Consumed, SlotState::Consumed, SlotState::Consumed, SlotState::Consumed, SlotState::Consumed, SlotState::Consumed] && final(self).output_a() is None && final(self).output_b() is None && final(self).output_c() is None && final(self).output_d() is None && final(self).output_e() is None && final(self).output_f() is None,
    {
        proof {
            self.engine.lemma_wf_facts();
        }
        match self.engine.finish() {
            None => None,
            Some(_) => {
                let a = self.a.take();
                let b = self.b.take();
                let c = self.c.take();
                let d = self.d.take();
                let e = self.e.take();
                let f = self.f.take();
                match (a, b, c, d, e, f) {
                    (Some(aa), Some(bb), Some(cc), Some(dd), Some(ee), Some(ff)) => {
                        assert(self.engine.states() =~= seq![SlotState::Consumed, SlotState::Consumed, SlotState::Consumed, SlotState::Consumed, SlotState::Consumed, SlotState::Consumed]);
                        Some((aa, bb, cc, dd, ee, ff))
                    },
                    _ => {
                        proof {
                            assert(false);
                        }
                        None
                    },
                }
            },
        }
    }
}

/// A join of seven operations of different output types.
pub struct Join7<A, B, C, D, E, F, G> {
    engine: JoinEngine<()>,
    a: Option<A>,
    b: Option<B>,
    c: Option<C>,
    d: Option<D>,
    e: Option<E>,
    f: Option<F>,
    g: Option<G>,
}

impl<A, B, C, D, E, F, G> Join7<A, B, C, D, E, F, G> {
    pub closed spec fn states(&self) -> Seq<SlotState> {
        self.engine.states()
    }

    pub closed spec fn dirty(&self) -> Seq<bool> {
        self.engine.dirty()
    }

    pub closed spec fn output_a(&self) -> Option<A> {
        self.a
    }

    pub closed spec fn output_b(&self) -> Option<B> {
        self.b
    }

    pub closed spec fn output_c(&self) -> Option<C> {
        self.c
    }

    pub closed spec fn output_d(&self) -> Option<D> {
        self.d
    }

    pub closed spec fn output_e(&self) -> Option<E> {
        self.e
    }

    pub closed spec fn output_f(&self) -> Option<F> {
        self.f
    }

    pub closed spec fn output_g(&self) -> Option<G> {
        self.g
    }

    pub closed spec fn wf(&self) -> bool {
        &&& self.engine.wf()
        &&& self.engine.outputs().len() == 7
        &&& self.engine.dirty().len() == 7
        &&& self.engine.states().len() == 7
        &&& (self.a is Some <==> self.engine.outputs()[0] is Some)
        &&& (self.b is Some <==> self.engine.outputs()[1] is Some)
        &&& (self.c is Some <==> self.engine.outputs()[2] is Some)
        &&& (self.d is Some <==> self.engine.outputs()[3] is Some)
        &&& (self.e is Some <==> self.engine.outputs()[4] is Some)
        &&& (self.f is Some <==> self.engine.outputs()[5] is Some)
        &&& (self.g is Some <==> self.engine.outputs()[6] is Some)
    }

    pub fn new() -> (r: Self)
        ensures
            r.wf(),
            r.states() == seq![SlotState::Pending, SlotState::Pending, SlotState::Pending, SlotState::Pending, SlotState::Pending, SlotState::Pending, SlotState::Pending],
            r.dirty() == seq![true, true, true, true, true, true, true],
            r.output_a() is None,
            r.output_b() is None,
            r.output_c() is None,
            r.output_d() is None,
            r.output_e() is None,
            r.output_f() is None,
            r.output_g() is None,
    {
        let engine = JoinEngine::new(7);
        proof {
            engine.lemma_wf_facts();
        }
        assert(engine.states() =~= seq![SlotState::Pending, SlotState::Pending, SlotState::Pending, SlotState::Pending, SlotState::Pending, SlotState::Pending, SlotState::Pending]);
        assert(engine.dirty() =~= seq![true, true, true, true, true, true, true]);
        Join7 { engine, a: None, b: None, c: None, d: None, e: None, f: None, g: None }
    }

    /// The slots to probe in this drive step: those signalled since the last step
    /// and still pending, in increasing order. Clears the signals.
    pub fn to_probe(&mut self) -> (r: Vec<usize>)
        requires
            old(self).wf(),
        ensures
            final(self).wf(),
            final(self).states() == old(self).states(),
            final(self).output_a() == old(self).output_a(),
            final(self).output_b() == old(self).output_b(),
            final(self).output_c() == old(self).output_c(),
            final(self).output_d() == old(self).output_d(),
            final(self).output_e() == old(self).output_e(),
            final(self).output_f() == old(self).output_f(),
            final(self).output_g() == old(self).output_g(),
            final(self).dirty().len() == 7,
            forall|j: int| 0 <= j < 7 ==> !final(self).dirty()[j],
            forall|k: int|
                0 <= k < r@.len() ==> r@[k] < 7 && old(self).dirty()[r@[k] as int] && old(self).states()[r@[k] as int]
                    == SlotState::Pending,
            forall|j: usize|
                j < 7 && old(self).dirty()[j as int] && old(self).states()[j as int] == SlotState::Pending
                    ==> r@.contains(j),
            forall|k1: int, k2: int| 0 <= k1 < k2 < r@.len() ==> r@[k1] < r@[k2],
    {
        self.engine.to_probe()
    }

    /// Operation `i` signalled that it can make progress.
    pub fn wake(&mut self, i: usize)
        requires
            old(self).wf(),
            i < 7,
        ensures
            final(self).wf(),
            final(self).dirty() == old(self).dirty().update(i as int, true),
            final(self).states() == old(self).states(),
            final(self).output_a() == old(self).output_a(),
            final(self).output_b() == old(self).output_b(),
            final(self).output_c() == old(self).output_c(),
            final(self).output_d() == old(self).output_d(),
            final(self).output_e() == old(self).output_e(),
            final(self).output_f() == old(self).output_f(),
            final(self).output_g() == old(self).output_g(),
    {
        self.engine.wake(i);
    }

    /// The first operation gave `v`.
    pub fn complete_0(&mut self, v: A)
        requires
            old(self).wf(),
            old(self).states()[0] == SlotState::Pending,
        ensures
            final(self).wf(),
            final(self).dirty() == old(self).dirty(),
            final(self).states() == old(self).states().update(0, SlotState::Ready),
            final(self).output_a() == Some(v),
            final(self).output_b() == old(self).output_b(),
            final(self).output_c() == old(self).output_c(),
            final(self).output_d() == old(self).output_d(),
            final(self).output_e() == old(self).output_e(),
            final(self).output_f() == old(self).output_f(),
            final(self).output_g() == old(self).output_g(),
    {
        self.engine.complete(0, ());
        self.a = Some(v);
    }

    /// The second operation gave `v`.
    pub fn complete_1(&mut self, v: B)
        requires
            old(self).wf(),
            old(self).states()[1] == SlotState::Pending,
        ensures
            final(self).wf(),
            final(self).dirty() == old(self).dirty(),
            final(self).states() == old(self).states().update(1, SlotState::Ready),
            final(self).output_b() == Some(v),
            final(self).output_a() == old(self).output_a(),
            final(self).output_c() == old(self).output_c(),
            final(self).output_d() == old(self).output_d(),
            final(self).output_e() == old(self).output_e(),
            final(self).output_f() == old(self).output_f(),
            final(self).output_g() == old(self).output_g(),
    {
        self.engine.complete(1, ());
        self.b = Some(v);
    }

    /// The third operation gave `v`.
    pub fn complete_2(&mut self, v: C)
        requires
            old(self).wf(),
            old(self).states()[2] == SlotState::Pending,
        ensures
            final(self).wf(),
            final(self).dirty() == old(self).dirty(),
            final(self).states() == old(self).states().update(2, SlotState::Ready),
            final(self).output_c() == Some(v),
            final(self).output_a() == old(self).output_a(),
            final(self).output_b() == old(self).output_b(),
            final(self).output_d() == old(self).output_d(),
            final(self).output_e() == old(self).output_e(),
            final(self).output_f() == old(self).output_f(),
            final(self).output_g() == old(self).output_g(),
    {
        self.engine.complete(2, ());
        self.c = Some(v);
    }

    /// The fourth operation gave `v`.
    pub fn complete_3(&mut self, v: D)
        requires
            old(self).wf(),
            old(self).states()[3] == SlotState::Pending,
        ensures
            final(self).wf(),
            final(self).dirty() == old(self).dirty(),
            final(self).states() == old(self).states().update(3, SlotState::Ready),
            final(self).output_d() == Some(v),
            final(self).output_a() == old(self).output_a(),
            final(self).output_b() == old(self).output_b(),
            final(self).output_c() == old(self).output_c(),
            final(self).output_e() == old(self).output_e(),
            final(self).output_f() == old(self).output_f(),
            final(self).output_g() == old(self).output_g(),
    {
        self.engine.complete(3, ());
        self.d = Some(v);
    }

    /// The fifth operation gave `v`.
    pub fn complete_4(&mut self, v: E)
        requires
            old(self).wf(),
            old(self).states()[4] == SlotState::Pending,
        ensures
            final(self).wf(),
            final(self).dirty() == old(self).dirty(),
            final(self).states() == old(self).states().update(4, SlotState::Ready),
            final(self).output_e() == Some(v),
            final(self).output_a() == old(self).output_a(),
            final(self).output_b() == old(self).output_b(),
            final(self).output_c() == old(self).output_c(),
            final(self).output_d() == old(self).output_d(),
            final(self).output_f() == old(self).output_f(),
            final(self).output_g() == old(self).output_g(),
    {
        self.engine.complete(4, ());
        self.e = Some(v);
    }

    /// The sixth operation gave `v`.
    pub fn complete_5(&mut self, v: F)
        requires
            old(self).wf(),
            old(self).states()[5] == SlotState::Pending,
        ensures
            final(self).wf(),
            final(self).dirty() == old(self).dirty(),
            final(self).states() == old(self).states().update(5, SlotState::Ready),
            final(self).output_f() == Some(v),
            final(self).output_a() == old(self).output_a(),
            final(self).output_b() == old(self).output_b(),
            final(self).output_c() == old(self).output_c(),
            final(self).output_d() == old(self).output_d(),
            final(self).output_e() == old(self).output_e(),
            final(self).output_g() == old(self).output_g(),
    {
        self.engine.complete(5, ());
        self.f = Some(v);
    }

    /// The seventh operation gave `v`.
    pub fn complete_6(&mut self, v: G)
        requires
            old(self).wf(),
            old(self).states()[6] == SlotState::Pending,
        ensures
            final(self).wf(),
            final(self).dirty() == old(self).dirty(),
            final(self).states() == old(self).states().update(6, SlotState::Ready),
            final(self).output_g() == Some(v),
            final(self).output_a() == old(self).output_a(),
            final(self).output_b() == old(self).output_b(),
            final(self).output_c() == old(self).output_c(),
            final(self).output_d() == old(self).output_d(),
            final(self).output_e() == old(self).output_e(),
            final(self).output_f() == old(self).output_f(),
    {
        self.engine.complete(6, ());
        self.g = Some(v);
    }

    /// All outputs, in slot order, once every operation has completed; the slots
    /// are then consumed. Before that `None`, with nothing changed.
    pub fn finish(&mut self) -> (r: Option<(A, B, C, D, E, F, G)>)
        requires
            old(self).wf(),
        ensures
            final(self).wf(),
            r is Some <==> old(self).states()[0] == SlotState::Ready && old(self).states()[1] == SlotState::Ready && old(self).states()[2] == SlotState::Ready && old(self).states()[3] == SlotState::Ready && old(self).states()[4] == SlotState::Ready && old(self).states()[5] == SlotState::Ready && old(self).states()[6] == SlotState::Ready,
            r matches Some(t) ==> old(self).output_a() == Some(t.0) && old(self).output_b() == Some(t.1) && old(self).output_c() == Some(t.2) && old(self).output_d() == Some(t.3) && old(self).output_e() == Some(t.4) && old(self).output_f() == Some(t.5) && old(self).output_g() == Some(t.6),
            r is None ==> final(self).states() == old(self).states() && final(self).output_a() == old(self).output_a() && final(self).output_b() == old(self).output_b() && final(self).output_c() == old(self).output_c() && final(self).output_d() == old(self).output_d() && final(self).output_e() == old(self).output_e() && final(self).output_f() == old(self).output_f() && final(self).output_g() == old(self).output_g(),
            r is Some ==> final(self).states() == seq![SlotState::Consumed, SlotState::Consumed, SlotState::Consumed, SlotState::Consumed, SlotState::Consumed, SlotState::Consumed, SlotState::Consumed] && final(self).output_a() is None && final(self).output_b() is None && final(self).output_c() is None && final(self).output_d() is None && final(self).output_e() is None && final(self).output_f() is None && final(self).output_g() is None,
    {
        proof {
            self.engine.lemma_wf_facts();
        }
        match self.engine.finish() {
            None => None,
            Some(_) => {
                let a = self.a.take();
                let b = self.b.take();
                let c = self.c.take();
                let d = self.d.take();
                let e = self.e.take();
                let f = self.f.take();
                let g = self.g.take();
                match (a, b, c, d, e, f, g) {
                    (Some(aa), Some(bb), Some(cc), Some(dd), Some(ee), Some(ff), Some(gg)) => {
                        assert(self.engine.states() =~= seq![SlotState::Consumed, SlotState::Consumed, SlotState::Consumed, SlotState::Consumed, SlotState::Consumed, SlotState::Consumed, SlotState::Consumed]);
                        Some((aa, bb, cc, dd, ee, ff, gg))
                    },
                    _ => {
                        proof {
                            assert(false);
                        }
                        None
                    },
                }
            },
        }
    }
}

/// A join of eight operations of different output types.
pub struct Join8<A, B, C, D, E, F, G, H> {
    engine: JoinEngine<()>,
    a: Option<A>,
    b: Option<B>,
    c: Option<C>,
    d: Option<D>,
    e: Option<E>,
    f: Option<F>,
    g: Option<G>,
    h: Option<H>,
}

impl<A, B, C, D, E, F, G, H> Join8<A, B, C, D, E, F, G, H> {
    pub closed spec fn states(&self) -> Seq<SlotState> {
        self.engine.states()
    }

    pub closed spec fn dirty(&self) -> Seq<bool> {
        self.engine.dirty()
    }

    pub closed spec fn output_a(&self) -> Option<A> {
        self.a
    }

    pub closed spec fn output_b(&self) -> Option<B> {
        self.b
    }

    pub closed spec fn output_c(&self) -> Option<C> {
        self.c
    }

    pub closed spec fn output_d(&self) -> Option<D> {
        self.d
    }

    pub closed spec fn output_e(&self) -> Option<E> {
        self.e
    }

    pub closed spec fn output_f(&self) -> Option<F> {
        self.f
    }

    pub closed spec fn output_g(&self) -> Option<G> {
        self.g
    }

    pub closed spec fn output_h(&self) -> Option<H> {
        self.h
    }

    pub closed spec fn wf(&self) -> bool {
        &&& self.engine.wf()
        &&& self.engine.outputs().len() == 8
        &&& self.engine.dirty().len() == 8
        &&& self.engine.states().len() == 8
        &&& (self.a is Some <==> self.engine.outputs()[0] is Some)
        &&& (self.b is Some <==> self.engine.outputs()[1] is Some)
        &&& (self.c is Some <==> self.engine.outputs()[2] is Some)
        &&& (self.d is Some <==> self.engine.outputs()[3] is Some)
        &&& (self.e is Some <==> self.engine.outputs()[4] is Some)
        &&& (self.f is Some <==> self.engine.outputs()[5] is Some)
        &&& (self.g is Some <==> self.engine.outputs()[6] is Some)
        &&& (self.h is Some <==> self.engine.outputs()[7] is Some)
    }

    pub fn new() -> (r: Self)
        ensures
            r.wf(),
            r.states() == seq![SlotState::Pending, SlotState::Pending, SlotState::Pending, SlotState::Pending, SlotState::Pending, SlotState::Pending, SlotState::Pending, SlotState::Pending],
            r.dirty() == seq![true, true, true, true, true, true, true, true],
            r.output_a() is None,
            r.output_b() is None,
            r.output_c() is None,
            r.output_d() is None,
            r.output_e() is None,
            r.output_f() is None,
            r.output_g() is None,
            r.output_h() is None,
    {
        let engine = JoinEngine::new(8);
        proof {
            engine.lemma_wf_facts();
        }
        assert(engine.states() =~= seq![SlotState::Pending, SlotState::Pending, SlotState::Pending, SlotState::Pending, SlotState::Pending, SlotState::Pending, SlotState::Pending, SlotState::Pending]);
        assert(engine.dirty() =~= seq![true, true, true, true, true, true, true, true]);
        Join8 { engine, a: None, b: None, c: None, d: None, e: None, f: None, g: None, h: None }
    }

    /// The slots to probe in this drive step: those signalled since the last step
    /// and still pending, in increasing order. Clears the signals.
    pub fn to_probe(&mut self) -> (r: Vec<usize>)
        requires
            old(self).wf(),
        ensures
            final(self).wf(),
            final(self).states() == old(self).states(),
            final(self).output_a() == old(self).output_a(),
            final(self).output_b() == old(self).output_b(),
            final(self).output_c() == old(self).output_c(),
            final(self).output_d() == old(self).output_d(),
            final(self).output_e() == old(self).output_e(),
            final(self).output_f() == old(self).output_f(),
            final(self).output_g() == old(self).output_g(),
            final(self).output_h() == old(self).output_h(),
            final(self).dirty().len() == 8,
            forall|j: int| 0 <= j < 8 ==> !final(self).dirty()[j],
            forall|k: int|
                0 <= k < r@.len() ==> r@[k] < 8 && old(self).dirty()[r@[k] as int] && old(self).states()[r@[k] as int]
                    == SlotState::Pending,
            forall|j: usize|
                j < 8 && old(self).dirty()[j as int] && old(self).states()[j as int] == SlotState::Pending
                    ==> r@.contains(j),
            forall|k1: int, k2: int| 0 <= k1 < k2 < r@.len() ==> r@[k1] < r@[k2],
    {
        self.engine.to_probe()
    }

    /// Operation `i` signalled that it can make progress.
    pub fn wake(&mut self, i: usize)
        requires
            old(self).wf(),
            i < 8,
        ensures
            final(self).wf(),
            final(self).dirty() == old(self).dirty().update(i as int, true),
            final(self).states() == old(self).states(),
            final(self).output_a() == old(self).output_a(),
            final(self).output_b() == old(self).output_b(),
            final(self).output_c() == old(self).output_c(),
            final(self).output_d() == old(self).output_d(),
            final(self).output_e() == old(self).output_e(),
            final(self).output_f() == old(self).output_f(),
            final(self).output_g() == old(self).output_g(),
            final(self).output_h() == old(self).output_h(),
    {
        self.engine.wake(i);
    }

    /// The first operation gave `v`.
    pub fn complete_0(&mut self, v: A)
        requires
            old(self).wf(),
            old(self).states()[0] == SlotState::Pending,
        ensures
            final(self).wf(),
            final(self).dirty() == old(self).dirty(),
            final(self).states() == old(self).states().update(0, SlotState::Ready),
            final(self).output_a() == Some(v),
            final(self).output_b() == old(self).output_b(),
            final(self).output_c() == old(self).output_c(),
            final(self).output_d() == old(self).output_d(),
            final(self).output_e() == old(self).output_e(),
            final(self).output_f() == old(self).output_f(),
            final(self).output_g() == old(self).output_g(),
            final(self).output_h() == old(self).output_h(),
    {
        self.engine.complete(0, ());
        self.a = Some(v);
    }

    /// The second operation gave `v`.
    pub fn complete_1(&mut self, v: B)
        requires
            old(self).wf(),
            old(self).states()[1] == SlotState::Pending,
        ensures
            final(self).wf(),
            final(self).dirty() == old(self).dirty(),
            final(self).states() == old(self).states().update(1, SlotState::Ready),
            final(self).output_b() == Some(v),
            final(self).output_a() == old(self).output_a(),
            final(self).output_c() == old(self).output_c(),
            final(self).output_d() == old(self).output_d(),
            final(self).output_e() == old(self).output_e(),
            final(self).output_f() == old(self).output_f(),
            final(self).output_g() == old(self).output_g(),
            final(self).output_h() == old(self).output_h(),
    {
        self.engine.complete(1, ());
        self.b = Some(v);
    }

    /// The third operation gave `v`.
    pub fn complete_2(&mut self, v: C)
        requires
            old(self).wf(),
            old(self).states()[2] == SlotState::Pending,
        ensures
            final(self).wf(),
            final(self).dirty() == old(self).dirty(),
            final(self).states() == old(self).states().update(2, SlotState::Ready),
            final(self).output_c() == Some(v),
            final(self).output_a() == old(self).output_a(),
            final(self).output_b() == old(self).output_b(),
            final(self).output_d() == old(self).output_d(),
            final(self).output_e() == old(self).output_e(),
            final(self).output_f() == old(self).output_f(),
            final(self).output_g() == old(self).output_g(),
            final(self).output_h() == old(self).output_h(),
    {
        self.engine.complete(2, ());
        self.c = Some(v);
    }

    /// The fourth operation gave `v`.
    pub fn complete_3(&mut self, v: D)
        requires
            old(self).wf(),
            old(self).states()[3] == SlotState::Pending,
        ensures
            final(self).wf(),
            final(self).dirty() == old(self).dirty(),
            final(self).states() == old(self).states().update(3, SlotState::Ready),
            final(self).output_d() == Some(v),
            final(self).output_a() == old(self).output_a(),
            final(self).output_b() == old(self).output_b(),
            final(self).output_c() == old(self).output_c(),
            final(self).output_e() == old(self).output_e(),
            final(self).output_f() == old(self).output_f(),
            final(self).output_g() == old(self).output_g(),
            final(self).output_h() == old(self).output_h(),
    {
        self.engine.complete(3, ());
        self.d = Some(v);
    }

    /// The fifth operation gave `v`.
    pub fn complete_4(&mut self, v: E)
        requires
            old(self).wf(),
            old(self).states()[4] == SlotState::Pending,
        ensures
            final(self).wf(),
            final(self).dirty() == old(self).dirty(),
            final(self).states() == old(self).states().update(4, SlotState::Ready),
            final(self).output_e() == Some(v),
            final(self).output_a() == old(self).output_a(),
            final(self).output_b() == old(self).output_b(),
            final(self).output_c() == old(self).output_c(),
            final(self).output_d() == old(self).output_d(),
            final(self).output_f() == old(self).output_f(),
            final(self).output_g() == old(self).output_g(),
            final(self).output_h() == old(self).output_h(),
    {
        self.engine.complete(4, ());
        self.e = Some(v);
    }

    /// The sixth operation gave `v`.
    pub fn complete_5(&mut self, v: F)
        requires
            old(self).wf(),
            old(self).states()[5] == SlotState::Pending,
        ensures
            final(self).wf(),
            final(self).dirty() == old(self).dirty(),
            final(self).states() == old(self).states().update(5, SlotState::Ready),
            final(self).output_f() == Some(v),
            final(self).output_a() == old(self).output_a(),
            final(self).output_b() == old(self).output_b(),
            final(self).output_c() == old(self).output_c(),
            final(self).output_d() == old(self).output_d(),
            final(self).output_e() == old(self).output_e(),
            final(self).output_g() == old(self).output_g(),
            final(self).output_h() == old(self).output_h(),
    {
        self.engine.complete(5, ());
        self.f = Some(v);
    }

    /// The seventh operation gave `v`.
    pub fn complete_6(&mut self, v: G)
        requires
            old(self).wf(),
            old(self).states()[6] == SlotState::Pending,
        ensures
            final(self).wf(),
            final(self).dirty() == old(self).dirty(),
            final(self).states() == old(self).states().update(6, SlotState::Ready),
            final(self).output_g() == Some(v),
            final(self).output_a() == old(self).output_a(),
            final(self).output_b() == old(self).output_b(),
            final(self).output_c() == old(self).output_c(),
            final(self).output_d() == old(self).output_d(),
            final(self).output_e() == old(self).output_e(),
            final(self).output_f() == old(self).output_f(),
            final(self).output_h() == old(self).output_h(),
    {
        self.engine.complete(6, ());
        self.g = Some(v);
    }

    /// The eighth operation gave `v`.
    pub fn complete_7(&mut self, v: H)
        requires
            old(self).wf(),
            old(self).states()[7] == SlotState::Pending,
        ensures
            final(self).wf(),
            final(self).dirty() == old(self).dirty(),
            final(self).states() == old(self).states().update(7, SlotState::Ready),
            final(self).output_h() == Some(v),
            final(self).output_a() == old(self).output_a(),
            final(self).output_b() == old(self).output_b(),
            final(self).output_c() == old(self).output_c(),
            final(self).output_d() == old(self).output_d(),
            final(self).output_e() == old(self).output_e(),
            final(self).output_f() == old(self).output_f(),
            final(self).output_g() == old(self).output_g(),
    {
        self.engine.complete(7, ());
        self.h = Some(v);
    }

    /// All outputs, in slot order, once every operation has completed; the slots
    /// are then consumed. Before that `None`, with nothing changed.
    pub fn finish(&mut self) -> (r: Option<(A, B, C, D, E, F, G, H)>)
        requires
            old(self).wf(),
        ensures
            final(self).wf(),
            r is Some <==> old(self).states()[0] == SlotState::Ready && old(self).states()[1] == SlotState::Ready && old(self).states()[2] == SlotState::Ready && old(self).states()[3] == SlotState::Ready && old(self).states()[4] == SlotState::Ready && old(self).states()[5] == SlotState::Ready && old(self).states()[6] == SlotState::Ready && old(self).states()[7] == SlotState::Ready,
            r matches Some(t) ==> old(self).output_a() == Some(t.0) && old(self).output_b() == Some(t.1) && old(self).output_c() == Some(t.2) && old(self).output_d() == Some(t.3) && old(self).output_e() == Some(t.4) && old(self).output_f() == Some(t.5) && old(self).output_g() == Some(t.6) && old(self).output_h() == Some(t.7),
            r is None ==> final(self).states() == old(self).states() && final(self).output_a() == old(self).output_a() && final(self).output_b() == old(self).output_b() && final(self).output_c() == old(self).output_c() && final(self).output_d() == old(self).output_d() && final(self).output_e() == old(self).output_e() && final(self).output_f() == old(self).output_f() && final(self).output_g() == old(self).output_g() && final(self).output_h() == old(self).output_h(),
            r is Some ==> final(self).states() == seq![SlotState::Consumed, SlotState::Consumed, SlotState::Consumed, SlotState::Consumed, SlotState::Consumed, SlotState::Consumed, SlotState::Consumed, SlotState::Consumed] && final(self).output_a() is None && final(self).output_b() is None && final(self).output_c() is None && final(self).output_d() is None && final(self).output_e() is None && final(self).output_f() is None && final(self).output_g() is None && final(self).output_h() is None,
    {
        proof {
            self.engine.lemma_wf_facts();
        }
        match self.engine.finish() {
            None => None,
            Some(_) => {
                let a = self.a.take();
                let b = self.b.take();
                let c = self.c.take();
                let d = self.d.take();
                let e = self.e.take();
                let f = self.f.take();
                let g = self.g.take();
                let h = self.h.take();
                match (a, b, c, d, e, f, g, h) {
                    (Some(aa), Some(bb), Some(cc), Some(dd), Some(ee), Some(ff), Some(gg), Some(hh)) => {
                        assert(self.engine.states() =~= seq![SlotState::Consumed, SlotState::Consumed, SlotState::Consumed, SlotState::Consumed, SlotState::Consumed, SlotState::Consumed, SlotState::Consumed, SlotState::Consumed]);
                        Some((aa, bb, cc, dd, ee, ff, gg, hh))
                    },
                    _ => {
                        proof {
                            assert(false);
                        }
                        None
                    },
                }
            },
        }
    }
}

/// A join of nine operations of different output types.
pub struct Join9<A, B, C, D, E, F, G, H, I> {
    engine: JoinEngine<()>,
    a: Option<A>,
    b: Option<B>,
    c: Option<C>,
    d: Option<D>,
    e: Option<E>,
    f: Option<F>,
    g: Option<G>,
    h: Option<H>,
    i: Option<I>,
}

impl<A, B, C, D, E, F, G, H, I> Join9<A, B, C, D, E, F, G, H, I> {
    pub closed spec fn states(&self) -> Seq<SlotState> {
        self.engine.states()
    }

    pub closed spec fn dirty(&self) -> Seq<bool> {
        self.engine.dirty()
    }

    pub closed spec fn output_a(&self) -> Option<A> {
        self.a
    }

    pub closed spec fn output_b(&self) -> Option<B> {
        self.b
    }

    pub closed spec fn output_c(&self) -> Option<C> {
        self.c
    }

    pub closed spec fn output_d(&self) -> Option<D> {
        self.d
    }

    pub closed spec fn output_e(&self) -> Option<E> {
        self.e
    }

    pub closed spec fn output_f(&self) -> Option<F> {
        self.f
    }

    pub closed spec fn output_g(&self) -> Option<G> {
        self.g
    }

    pub closed spec fn output_h(&self) -> Option<H> {
        self.h
    }

    pub closed spec fn output_i(&self) -> Option<I> {
        self.i
    }

    pub closed spec fn wf(&self) -> bool {
        &&& self.engine.wf()
        &&& self.engine.outputs().len() == 9
        &&& self.engine.dirty().len() == 9
        &&& self.engine.states().len() == 9
        &&& (self.a is Some <==> self.engine.outputs()[0] is Some)
        &&& (self.b is Some <==> self.engine.outputs()[1] is Some)
        &&& (self.c is Some <==> self.engine.outputs()[2] is Some)
        &&& (self.d is Some <==> self.engine.outputs()[3] is Some)
        &&& (self.e is Some <==> self.engine.outputs()[4] is Some)
        &&& (self.f is Some <==> self.engine.outputs()[5] is Some)
        &&& (self.g is Some <==> self.engine.outputs()[6] is Some)
        &&& (self.h is Some <==> self.engine.outputs()[7] is Some)
        &&& (self.i is Some <==> self.engine.outputs()[8] is Some)
    }

    pub fn new() -> (r: Self)
        ensures
            r.wf(),
            r.states() == seq![SlotState::Pending, SlotState::Pending, SlotState::Pending, SlotState::Pending, SlotState::Pending, SlotState::Pending, SlotState::Pending, SlotState::Pending, SlotState::Pending],
            r.dirty() == seq![true, true, true, true, true, true, true, true, true],
            r.output_a() is None,
            r.output_b() is None,
            r.output_c() is None,
            r.output_d() is None,
            r.output_e() is None,
            r.output_f() is None,
            r.output_g() is None,
            r.output_h() is None,
            r.output_i() is None,
    {
        let engine = JoinEngine::new(9);
        proof {
            engine.lemma_wf_facts();
        }
        assert(engine.states() =~= seq![SlotState::Pending, SlotState::Pending, SlotState::Pending, SlotState::Pending, SlotState::Pending, SlotState::Pending, SlotState::Pending, SlotState::Pending, SlotState::Pending]);
        assert(engine.dirty() =~= seq![true, true, true, true, true, true, true, true, true]);
        Join9 { engine, a: None, b: None, c: None, d: None, e: None, f: None, g: None, h: None, i: None }
    }

    /// The slots to probe in this drive step: those signalled since the last step
    /// and still pending, in increasing order. Clears the signals.
    pub fn to_probe(&mut self) -> (r: Vec<usize>)
        requires
            old(self).wf(),
        ensures
            final(self).wf(),
            final(self).states() == old(self).states(),
            final(self).output_a() == old(self).output_a(),
            final(self).output_b() == old(self).output_b(),
            final(self).output_c() == old(self).output_c(),
            final(self).output_d() == old(self).output_d(),
            final(self).output_e() == old(self).output_e(),
            final(self).output_f() == old(self).output_f(),
            final(self).output_g() == old(self).output_g(),
            final(self).output_h() == old(self).output_h(),
            final(self).output_i() == old(self).output_i(),
            final(self).dirty().len() == 9,
            forall|j: int| 0 <= j < 9 ==> !final(self).dirty()[j],
            forall|k: int|
                0 <= k < r@.len() ==> r@[k] < 9 && old(self).dirty()[r@[k] as int] && old(self).states()[r@[k] as int]
                    == SlotState::Pending,
            forall|j: usize|
                j < 9 && old(self).dirty()[j as int] && old(self).states()[j as int] == SlotState::Pending
                    ==> r@.contains(j),
            forall|k1: int, k2: int| 0 <= k1 < k2 < r@.len() ==> r@[k1] < r@[k2],
    {
        self.engine.to_probe()
    }

    /// Operation `i` signalled that it can make progress.
    pub fn wake(&mut self, i: usize)
        requires
            old(self).wf(),
            i < 9,
        ensures
            final(self).wf(),
            final(self).dirty() == old(self).dirty().update(i as int, true),
            final(self).states() == old(self).states(),
            final(self).output_a() == old(self).output_a(),
            final(self).output_b() == old(self).output_b(),
            final(self).output_c() == old(self).output_c(),
            final(self).output_d() == old(self).output_d(),
            final(self).output_e() == old(self).output_e(),
            final(self).output_f() == old(self).output_f(),
            final(self).output_g() == old(self).output_g(),
            final(self).output_h() == old(self).output_h(),
            final(self).output_i() == old(self).output_i(),
    {
        self.engine.wake(i);
    }

    /// The first operation gave `v`.
    pub fn complete_0(&mut self, v: A)
        requires
            old(self).wf(),
            old(self).states()[0] == SlotState::Pending,
        ensures
            final(self).wf(),
            final(self).dirty() == old(self).dirty(),
            final(self).states() == old(self).states().update(0, SlotState::Ready),
            final(self).output_a() == Some(v),
            final(self).output_b() == old(self).output_b(),
            final(self).output_c() == old(self).output_c(),
            final(self).output_d() == old(self).output_d(),
            final(self).output_e() == old(self).output_e(),
            final(self).output_f() == old(self).output_f(),
            final(self).output_g() == old(self).output_g(),
            final(self).output_h() == old(self).output_h(),
            final(self).output_i() == old(self).output_i(),
    {
        self.engine.complete(0, ());
        self.a = Some(v);
    }

    /// The second operation gave `v`.
    pub fn complete_1(&mut self, v: B)
        requires
            old(self).wf(),
            old(self).states()[1] == SlotState::Pending,
        ensures
            final(self).wf(),
            final(self).dirty() == old(self).dirty(),
            final(self).states() == old(self).states().update(1, SlotState::Ready),
            final(self).output_b() == Some(v),
            final(self).output_a() == old(self).output_a(),
            final(self).output_c() == old(self).output_c(),
            final(self).output_d() == old(self).output_d(),
            final(self).output_e() == old(self).output_e(),
            final(self).output_f() == old(self).output_f(),
            final(self).output_g() == old(self).output_g(),
            final(self).output_h() == old(self).output_h(),
            final(self).output_i() == old(self).output_i(),
    {
        self.engine.complete(1, ());
        self.b = Some(v);
    }

    /// The third operation gave `v`.
    pub fn complete_2(&mut self, v: C)
        requires
            old(self).wf(),
            old(self).states()[2] == SlotState::Pending,
        ensures
            final(self).wf(),
            final(self).dirty() == old(self).dirty(),
            final(self).states() == old(self).states().update(2, SlotState::Ready),
            final(self).output_c() == Some(v),
            final(self).output_a() == old(self).output_a(),
            final(self).output_b() == old(self).output_b(),
            final(self).output_d() == old(self).output_d(),
            final(self).output_e() == old(self).output_e(),
            final(self).output_f() == old(self).output_f(),
            final(self).output_g() == old(self).output_g(),
            final(self).output_h() == old(self).output_h(),
            final(self).output_i() == old(self).output_i(),
    {
        self.engine.complete(2, ());
        self.c = Some(v);
    }

    /// The fourth operation gave `v`.
    pub fn complete_3(&mut self, v: D)
        requires
            old(self).wf(),
            old(self).states()[3] == SlotState::Pending,
        ensures
            final(self).wf(),
            final(self).dirty() == old(self).dirty(),
            final(self).states() == old(self).states().update(3, SlotState::Ready),
            final(self).output_d() == Some(v),
            final(self).output_a() == old(self).output_a(),
            final(self).output_b() == old(self).output_b(),
            final(self).output_c() == old(self).output_c(),
            final(self).output_e() == old(self).output_e(),
            final(self).output_f() == old(self).output_f(),
            final(self).output_g() == old(self).output_g(),
            final(self).output_h() == old(self).output_h(),
            final(self).output_i() == old(self).output_i(),
    {
        self.engine.complete(3, ());
        self.d = Some(v);
    }

    /// The fifth operation gave `v`.
    pub fn complete_4(&mut self, v: E)
        requires
            old(self).wf(),
            old(self).states()[4] == SlotState::Pending,
        ensures
            final(self).wf(),
            final(self).dirty() == old(self).dirty(),
            final(self).states() == old(self).states().update(4, SlotState::Ready),
            final(self).output_e() == Some(v),
            final(self).output_a() == old(self).output_a(),
            final(self).output_b() == old(self).output_b(),
            final(self).output_c() == old(self).output_c(),
            final(self).output_d() == old(self).output_d(),
            final(self).output_f() == old(self).output_f(),
            final(self).output_g() == old(self).output_g(),
            final(self).output_h() == old(self).output_h(),
            final(self).output_i() == old(self).output_i(),
    {
        self.engine.complete(4, ());
        self.e = Some(v);
    }

    /// The sixth operation gave `v`.
    pub fn complete_5(&mut self, v: F)
        requires
            old(self).wf(),
            old(self).states()[5] == SlotState::Pending,
        ensures
            final(self).wf(),
            final(self).dirty() == old(self).dirty(),
            final(self).states() == old(self).states().update(5, SlotState::Ready),
            final(self).output_f() == Some(v),
            final(self).output_a() == old(self).output_a(),
            final(self).output_b() == old(self).output_b(),
            final(self).output_c() == old(self).output_c(),
            final(self).output_d() == old(self).output_d(),
            final(self).output_e() == old(self).output_e(),
            final(self).output_g() == old(self).output_g(),
            final(self).output_h() == old(self).output_h(),
            final(self).output_i() == old(self).output_i(),
    {
        self.engine.complete(5, ());
        self.f = Some(v);
    }

    /// The seventh operation gave `v`.
    pub fn complete_6(&mut self, v: G)
        requires
            old(self).wf(),
            old(self).states()[6] == SlotState::Pending,
        ensures
            final(self).wf(),
            final(self).dirty() == old(self).dirty(),
            final(self).states() == old(self).states().update(6, SlotState::Ready),
            final(self).output_g() == Some(v),
            final(self).output_a() == old(self).output_a(),
            final(self).output_b() == old(self).output_b(),
            final(self).output_c() == old(self).output_c(),
            final(self).output_d() == old(self).output_d(),
            final(self).output_e() == old(self).output_e(),
            final(self).output_f() == old(self).output_f(),
            final(self).output_h() == old(self).output_h(),
            final(self).output_i() == old(self).output_i(),
    {
        self.engine.complete(6, ());
        self.g = Some(v);
    }

    /// The eighth operation gave `v`.
    pub fn complete_7(&mut self, v: H)
        requires
            old(self).wf(),
            old(self).states()[7] == SlotState::Pending,
        ensures
            final(self).wf(),
            final(self).dirty() == old(self).dirty(),
            final(self).states() == old(self).states().update(7, SlotState::Ready),
            final(self).output_h() == Some(v),
            final(self).output_a() == old(self).output_a(),
            final(self).output_b() == old(self).output_b(),
            final(self).output_c() == old(self).output_c(),
            final(self).output_d() == old(self).output_d(),
            final(self).output_e() == old(self).output_e(),
            final(self).output_f() == old(self).output_f(),
            final(self).output_g() == old(self).output_g(),
            final(self).output_i() == old(self).output_i(),
    {
        self.engine.complete(7, ());
        self.h = Some(v);
    }

    /// The ninth operation gave `v`.
    pub fn complete_8(&mut self, v: I)
        requires
            old(self).wf(),
            old(self).states()[8] == SlotState::Pending,
        ensures
            final(self).wf(),
            final(self).dirty() == old(self).dirty(),
            final(self).states() == old(self).states().update(8, SlotState::Ready),
            final(self).output_i() == Some(v),
            final(self).output_a() == old(self).output_a(),
            final(self).output_b() == old(self).output_b(),
            final(self).output_c() == old(self).output_c(),
            final(self).output_d() == old(self).output_d(),
            final(self).output_e() == old(self).output_e(),
            final(self).output_f() == old(self).output_f(),
            final(self).output_g() == old(self).output_g(),
            final(self).output_h() == old(self).output_h(),
    {
        self.engine.complete(8, ());
        self.i = Some(v);
    }

    /// All outputs, in slot order, once every operation has completed; the slots
    /// are then consumed. Before that `None`, with nothing changed.
    pub fn finish(&mut self) -> (r: Option<(A, B, C, D, E, F, G, H, I)>)
        requires
            old(self).wf(),
        ensures
            final(self).wf(),
            r is Some <==> old(self).states()[0] == SlotState::Ready && old(self).states()[1] == SlotState::Ready && old(self).states()[2] == SlotState::Ready && old(self).states()[3] == SlotState::Ready && old(self).states()[4] == SlotState::Ready && old(self).states()[5] == SlotState::Ready && old(self).states()[6] == SlotState::Ready && old(self).states()[7] == SlotState::Ready && old(self).states()[8] == SlotState::Ready,
            r matches Some(t) ==> old(self).output_a() == Some(t.0) && old(self).output_b() == Some(t.1) && old(self).output_c() == Some(t.2) && old(self).output_d() == Some(t.3) && old(self).output_e() == Some(t.4) && old(self).output_f() == Some(t.5) && old(self).output_g() == Some(t.6) && old(self).output_h() == Some(t.7) && old(self).output_i() == Some(t.8),
            r is None ==> final(self).states() == old(self).states() && final(self).output_a() == old(self).output_a() && final(self).output_b() == old(self).output_b() && final(self).output_c() == old(self).output_c() && final(self).output_d() == old(self).output_d() && final(self).output_e() == old(self).output_e() && final(self).output_f() == old(self).output_f() && final(self).output_g() == old(self).output_g() && final(self).output_h() == old(self).output_h() && final(self).output_i() == old(self).output_i(),
            r is Some ==> final(self).states() == seq![SlotState::Consumed, SlotState::Consumed, SlotState::Consumed, SlotState::Consumed, SlotState::Consumed, SlotState::Consumed, SlotState::Consumed, SlotState::Consumed, SlotState::Consumed] && final(self).output_a() is None && final(self).output_b() is None && final(self).output_c() is None && final(self).output_d() is None && final(self).output_e() is None && final(self).output_f() is None && final(self).output_g() is None && final(self).output_h() is None && final(self).output_i() is None,
    {
        proof {
            self.engine.lemma_wf_facts();
        }
        match self.engine.finish() {
            None => None,
            Some(_) => {
                let a = self.a.take();
                let b = self.b.take();
                let c = self.c.take();
                let d = self.d.take();
                let e = self.e.take();
                let f = self.f.take();
                let g = self.g.take();
                let h = self.h.take();
                let i = self.i.take();
                match (a, b, c, d, e, f, g, h, i) {
                    (Some(aa), Some(bb), Some(cc), Some(dd), Some(ee), Some(ff), Some(gg), Some(hh), Some(ii)) => {
                        assert(self.engine.states() =~= seq![SlotState::Consumed, SlotState::Consumed, SlotState::Consumed, SlotState::Consumed, SlotState::Consumed, SlotState::Consumed, SlotState::Consumed, SlotState::Consumed, SlotState::Consumed]);
                        Some((aa, bb, cc, dd, ee, ff, gg, hh, ii))
                    },
                    _ => {
                        proof {
                            assert(false);
                        }
                        None
                    },
                }
            },
        }
    }
}

/// A join of ten operations of different output types.
pub struct Join10<A, B, C, D, E, F, G, H, I, J> {
    engine: JoinEngine<()>,
    a: Option<A>,
    b: Option<B>,
    c: Option<C>,
    d: Option<D>,
    e: Option<E>,
    f: Option<F>,
    g: Option<G>,
    h: Option<H>,
    i: Option<I>,
    j: Option<J>,
}

impl<A, B, C, D, E, F, G, H, I, J> Join10<A, B, C, D, E, F, G, H, I, J> {
    pub closed spec fn states(&self) -> Seq<SlotState> {
        self.engine.states()
    }

    pub closed spec fn dirty(&self) -> Seq<bool> {
        self.engine.dirty()
    }

    pub closed spec fn output_a(&self) -> Option<A> {
        self.a
    }

    pub closed spec fn output_b(&self) -> Option<B> {
        self.b
    }

    pub closed spec fn output_c(&self) -> Option<C> {
        self.c
    }

    pub closed spec fn output_d(&self) -> Option<D> {
        self.d
    }

    pub closed spec fn output_e(&self) -> Option<E> {
        self.e
    }

    pub closed spec fn output_f(&self) -> Option<F> {
        self.f
    }

    pub closed spec fn output_g(&self) -> Option<G> {
        self.g
    }

    pub closed spec fn output_h(&self) -> Option<H> {
        self.h
    }

    pub closed spec fn output_i(&self) -> Option<I> {
        self.i
    }

    pub closed spec fn output_j(&self) -> Option<J> {
        self.j
    }

    pub closed spec fn wf(&self) -> bool {
        &&& self.engine.wf()
        &&& self.engine.outputs().len() == 10
        &&& self.engine.dirty().len() == 10
        &&& self.engine.states().len() == 10
        &&& (self.a is Some <==> self.engine.outputs()[0] is Some)
        &&& (self.b is Some <==> self.engine.outputs()[1] is Some)
        &&& (self.c is Some <==> self.engine.outputs()[2] is Some)
        &&& (self.d is Some <==> self.engine.outputs()[3] is Some)
        &&& (self.e is Some <==> self.engine.outputs()[4] is Some)
        &&& (self.f is Some <==> self.engine.outputs()[5] is Some)
        &&& (self.g is Some <==> self.engine.outputs()[6] is Some)
        &&& (self.h is Some <==> self.engine.outputs()[7] is Some)
        &&& (self.i is Some <==> self.engine.outputs()[8] is Some)
        &&& (self.j is Some <==> self.engine.outputs()[9] is Some)
    }

    pub fn new() -> (r: Self)
        ensures
            r.wf(),
            r.states() == seq![SlotState::Pending, SlotState::Pending, SlotState::Pending, SlotState::Pending, SlotState::Pending, SlotState::Pending, SlotState::Pending, SlotState::Pending, SlotState::Pending, SlotState::Pending],
            r.dirty() == seq![true, true, true, true, true, true, true, true, true, true],
            r.output_a() is None,
            r.output_b() is None,
            r.output_c() is None,
            r.output_d() is None,
            r.output_e() is None,
            r.output_f() is None,
            r.output_g() is None,
            r.output_h() is None,
            r.output_i() is None,
            r.output_j() is None,
    {
        let engine = JoinEngine::new(10);
        proof {
            engine.lemma_wf_facts();
        }
        assert(engine.states() =~= seq![SlotState::Pending, SlotState::Pending, SlotState::Pending, SlotState::Pending, SlotState::Pending, SlotState::Pending, SlotState::Pending, SlotState::Pending, SlotState::Pending, SlotState::Pending]);
        assert(engine.dirty() =~= seq![true, true, true, true, true, true, true, true, true, true]);
        Join10 { engine, a: None, b: None, c: None, d: None, e: None, f: None, g: None, h: None, i: None, j: None }
    }

    /// The slots to probe in this drive step: those signalled since the last step
    /// and still pending, in increasing order. Clears the signals.
    pub fn to_probe(&mut self) -> (r: Vec<usize>)
        requires
            old(self).wf(),
        ensures
            final(self).wf(),
            final(self).states() == old(self).states(),
            final(self).output_a() == old(self).output_a(),
            final(self).output_b() == old(self).output_b(),
            final(self).output_c() == old(self).output_c(),
            final(self).output_d() == old(self).output_d(),
            final(self).output_e() == old(self).output_e(),
            final(self).output_f() == old(self).output_f(),
            final(self).output_g() == old(self).output_g(),
            final(self).output_h() == old(self).output_h(),
            final(self).output_i() == old(self).output_i(),
            final(self).output_j() == old(self).output_j(),
            final(self).dirty().len() == 10,
            forall|j: int| 0 <= j < 10 ==> !final(self).dirty()[j],
            forall|k: int|
                0 <= k < r@.len() ==> r@[k] < 10 && old(self).dirty()[r@[k] as int] && old(self).states()[r@[k] as int]
                    == SlotState::Pending,
            forall|j: usize|
                j < 10 && old(self).dirty()[j as int] && old(self).states()[j as int] == SlotState::Pending
                    ==> r@.contains(j),
            forall|k1: int, k2: int| 0 <= k1 < k2 < r@.len() ==> r@[k1] < r@[k2],
    {
        self.engine.to_probe()
    }

    /// Operation `i` signalled that it can make progress.
    pub fn wake(&mut self, i: usize)
        requires
            old(self).wf(),
            i < 10,
        ensures
            final(self).wf(),
            final(self).dirty() == old(self).dirty().update(i as int, true),
            final(self).states() == old(self).states(),
            final(self).output_a() == old(self).output_a(),
            final(self).output_b() == old(self).output_b(),
            final(self).output_c() == old(self).output_c(),
            final(self).output_d() == old(self).output_d(),
            final(self).output_e() == old(self).output_e(),
            final(self).output_f() == old(self).output_f(),
            final(self).output_g() == old(self).output_g(),
            final(self).output_h() == old(self).output_h(),
            final(self).output_i() == old(self).output_i(),
            final(self).output_j() == old(self).output_j(),
    {
        self.engine.wake(i);
    }

    /// The first operation gave `v`.
    pub fn complete_0(&mut self, v: A)
        requires
            old(self).wf(),
            old(self).states()[0] == SlotState::Pending,
        ensures
            final(self).wf(),
            final(self).dirty() == old(self).dirty(),
            final(self).states() == old(self).states().update(0, SlotState::Ready),
            final(self).output_a() == Some(v),
            final(self).output_b() == old(self).output_b(),
            final(self).output_c() == old(self).output_c(),
            final(self).output_d() == old(self).output_d(),
            final(self).output_e() == old(self).output_e(),
            final(self).output_f() == old(self).output_f(),
            final(self).output_g() == old(self).output_g(),
            final(self).output_h() == old(self).output_h(),
            final(self).output_i() == old(self).output_i(),
            final(self).output_j() == old(self).output_j(),
    {
        self.engine.complete(0, ());
        self.a = Some(v);
    }

    /// The second operation gave `v`.
    pub fn complete_1(&mut self, v: B)
        requires
            old(self).wf(),
            old(self).states()[1] == SlotState::Pending,
        ensures
            final(self).wf(),
            final(self).dirty() == old(self).dirty(),
            final(self).states() == old(self).states().update(1, SlotState::Ready),
            final(self).output_b() == Some(v),
            final(self).output_a() == old(self).output_a(),
            final(self).output_c() == old(self).output_c(),
            final(self).output_d() == old(self).output_d(),
            final(self).output_e() == old(self).output_e(),
            final(self).output_f() == old(self).output_f(),
            final(self).output_g() == old(self).output_g(),
            final(self).output_h() == old(self).output_h(),
            final(self).output_i() == old(self).output_i(),
            final(self).output_j() == old(self).output_j(),
    {
        self.engine.complete(1, ());
        self.b = Some(v);
    }

    /// The third operation gave `v`.
    pub fn complete_2(&mut self, v: C)
        requires
            old(self).wf(),
            old(self).states()[2] == SlotState::Pending,
        ensures
            final(self).wf(),
            final(self).dirty() == old(self).dirty(),
            final(self).states() == old(self).states().update(2, SlotState::Ready),
            final(self).output_c() == Some(v),
            final(self).output_a() == old(self).output_a(),
            final(self).output_b() == old(self).output_b(),
            final(self).output_d() == old(self).output_d(),
            final(self).output_e() == old(self).output_e(),
            final(self).output_f() == old(self).output_f(),
            final(self).output_g() == old(self).output_g(),
            final(self).output_h() == old(self).output_h(),
            final(self).output_i() == old(self).output_i(),
            final(self).output_j() == old(self).output_j(),
    {
        self.engine.complete(2, ());
        self.c = Some(v);
    }

    /// The fourth operation gave `v`.
    pub fn complete_3(&mut self, v: D)
        requires
            old(self).wf(),
            old(self).states()[3] == SlotState::Pending,
        ensures
            final(self).wf(),
            final(self).dirty() == old(self).dirty(),
            final(self).states() == old(self).states().update(3, SlotState::Ready),
            final(self).output_d() == Some(v),
            final(self).output_a() == old(self).output_a(),
            final(self).output_b() == old(self).output_b(),
            final(self).output_c() == old(self).output_c(),
            final(self).output_e() == old(self).output_e(),
            final(self).output_f() == old(self).output_f(),
            final(self).output_g() == old(self).output_g(),
            final(self).output_h() == old(self).output_h(),
            final(self).output_i() == old(self).output_i(),
            final(self).output_j() == old(self).output_j(),
    {
        self.engine.complete(3, ());
        self.d = Some(v);
    }

    /// The fifth operation gave `v`.
    pub fn complete_4(&mut self, v: E)
        requires
            old(self).wf(),
            old(self).states()[4] == SlotState::Pending,
        ensures
            final(self).wf(),
            final(self).dirty() == old(self).dirty(),
            final(self).states() == old(self).states().update(4, SlotState::Ready),
            final(self).output_e() == Some(v),
            final(self).output_a() == old(self).output_a(),
            final(self).output_b() == old(self).output_b(),
            final(self).output_c() == old(self).output_c(),
            final(self).output_d() == old(self).output_d(),
            final(self).output_f() == old(self).output_f(),
            final(self).output_g() == old(self).output_g(),
            final(self).output_h() == old(self).output_h(),
            final(self).output_i() == old(self).output_i(),
            final(self).output_j() == old(self).output_j(),
    {
        self.engine.complete(4, ());
        self.e = Some(v);
    }

    /// The sixth operation gave `v`.
    pub fn complete_5(&mut self, v: F)
        requires
            old(self).wf(),
            old(self).states()[5] == SlotState::Pending,
        ensures
            final(self).wf(),
            final(self).dirty() == old(self).dirty(),
            final(self).states() == old(self).states().update(5, SlotState::Ready),
            final(self).output_f() == Some(v),
            final(self).output_a() == old(self).output_a(),
            final(self).output_b() == old(self).output_b(),
            final(self).output_c() == old(self).output_c(),
            final(self).output_d() == old(self).output_d(),
            final(self).output_e() == old(self).output_e(),
            final(self).output_g() == old(self).output_g(),
            final(self).output_h() == old(self).output_h(),
            final(self).output_i() == old(self).output_i(),
            final(self).output_j() == old(self).output_j(),
    {
        self.engine.complete(5, ());
        self.f = Some(v);
    }

    /// The seventh operation gave `v`.
    pub fn complete_6(&mut self, v: G)
        requires
            old(self).wf(),
            old(self).states()[6] == SlotState::Pending,
        ensures
            final(self).wf(),
            final(self).dirty() == old(self).dirty(),
            final(self).states() == old(self).states().update(6, SlotState::Ready),
            final(self).output_g() == Some(v),
            final(self).output_a() == old(self).output_a(),
            final(self).output_b() == old(self).output_b(),
            final(self).output_c() == old(self).output_c(),
            final(self).output_d() == old(self).output_d(),
            final(self).output_e() == old(self).output_e(),
            final(self).output_f() == old(self).output_f(),
            final(self).output_h() == old(self).output_h(),
            final(self).output_i() == old(self).output_i(),
            final(self).output_j() == old(self).output_j(),
    {
        self.engine.complete(6, ());
        self.g = Some(v);
    }

    /// The eighth operation gave `v`.
    pub fn complete_7(&mut self, v: H)
        requires
            old(self).wf(),
            old(self).states()[7] == SlotState::Pending,
        ensures
            final(self).wf(),
            final(self).dirty() == old(self).dirty(),
            final(self).states() == old(self).states().update(7, SlotState::Ready),
            final(self).output_h() == Some(v),
            final(self).output_a() == old(self).output_a(),
            final(self).output_b() == old(self).output_b(),
            final(self).output_c() == old(self).output_c(),
            final(self).output_d() == old(self).output_d(),
            final(self).output_e() == old(self).output_e(),
            final(self).output_f() == old(self).output_f(),
            final(self).output_g() == old(self).output_g(),
            final(self).output_i() == old(self).output_i(),
            final(self).output_j() == old(self).output_j(),
    {
        self.engine.complete(7, ());
        self.h = Some(v);
    }

    /// The ninth operation gave `v`.
    pub fn complete_8(&mut self, v: I)
        requires
            old(self).wf(),
            old(self).states()[8] == SlotState::Pending,
        ensures
            final(self).wf(),
            final(self).dirty() == old(self).dirty(),
            final(self).states() == old(self).states().update(8, SlotState::Ready),
            final(self).output_i() == Some(v),
            final(self).output_a() == old(self).output_a(),
            final(self).output_b() == old(self).output_b(),
            final(self).output_c() == old(self).output_c(),
            final(self).output_d() == old(self).output_d(),
            final(self).output_e() == old(self).output_e(),
            final(self).output_f() == old(self).output_f(),
            final(self).output_g() == old(self).output_g(),
            final(self).output_h() == old(self).output_h(),
            final(self).output_j() == old(self).output_j(),
    {
        self.engine.complete(8, ());
        self.i = Some(v);
    }

    /// The tenth operation gave `v`.
    pub fn complete_9(&mut self, v: J)
        requires
            old(self).wf(),
            old(self).states()[9] == SlotState::Pending,
        ensures
            final(self).wf(),
            final(self).dirty() == old(self).dirty(),
            final(self).states() == old(self).states().update(9, SlotState::Ready),
            final(self).output_j() == Some(v),
            final(self).output_a() == old(self).output_a(),
            final(self).output_b() == old(self).output_b(),
            final(self).output_c() == old(self).output_c(),
            final(self).output_d() == old(self).output_d(),
            final(self).output_e() == old(self).output_e(),
            final(self).output_f() == old(self).output_f(),
            final(self).output_g() == old(self).output_g(),
            final(self).output_h() == old(self).output_h(),
            final(self).output_i() == old(self).output_i(),
    {
        self.engine.complete(9, ());
        self.j = Some(v);
    }

    /// All outputs, in slot order, once every operation has completed; the slots
    /// are then consumed. Before that `None`, with nothing changed.
    pub fn finish(&mut self) -> (r: Option<(A, B, C, D, E, F, G, H, I, J)>)
        requires
            old(self).wf(),
        ensures
            final(self).wf(),
            r is Some <==> old(self).states()[0] == SlotState::Ready && old(self).states()[1] == SlotState::Ready && old(self).states()[2] == SlotState::Ready && old(self).states()[3] == SlotState::Ready && old(self).states()[4] == SlotState::Ready && old(self).states()[5] == SlotState::Ready && old(self).states()[6] == SlotState::Ready && old(self).states()[7] == SlotState::Ready && old(self).states()[8] == SlotState::Ready && old(self).states()[9] == SlotState::Ready,
            r matches Some(t) ==> old(self).output_a() == Some(t.0) && old(self).output_b() == Some(t.1) && old(self).output_c() == Some(t.2) && old(self).output_d() == Some(t.3) && old(self).output_e() == Some(t.4) && old(self).output_f() == Some(t.5) && old(self).output_g() == Some(t.6) && old(self).output_h() == Some(t.7) && old(self).output_i() == Some(t.8) && old(self).output_j() == Some(t.9),
            r is None ==> final(self).states() == old(self).states() && final(self).output_a() == old(self).output_a() && final(self).output_b() == old(self).output_b() && final(self).output_c() == old(self).output_c() && final(self).output_d() == old(self).output_d() && final(self).output_e() == old(self).output_e() && final(self).output_f() == old(self).output_f() && final(self).output_g() == old(self).output_g() && final(self).output_h() == old(self).output_h() && final(self).output_i() == old(self).output_i() && final(self).output_j() == old(self).output_j(),
            r is Some ==> final(self).states() == seq![SlotState::Consumed, SlotState::Consumed, SlotState::Consumed, SlotState::Consumed, SlotState::Consumed, SlotState::Consumed, SlotState::Consumed, SlotState::Consumed, SlotState::Consumed, SlotState::Consumed] && final(self).output_a() is None && final(self).output_b() is None && final(self).output_c() is None && final(self).output_d() is None && final(self).output_e() is None && final(self).output_f() is None && final(self).output_g() is None && final(self).output_h() is None && final(self).output_i() is None && final(self).output_j() is None,
    {
        proof {
            self.engine.lemma_wf_facts();
        }
        match self.engine.finish() {
            None => None,
            Some(_) => {
                let a = self.a.take();
                let b = self.b.take();
                let c = self.c.take();
                let d = self.d.take();
                let e = self.e.take();
                let f = self.f.take();
                let g = self.g.take();
                let h = self.h.take();
                let i = self.i.take();
                let j = self.j.take();
                match (a, b, c, d, e, f, g, h, i, j) {
                    (Some(aa), Some(bb), Some(cc), Some(dd), Some(ee), Some(ff), Some(gg), Some(hh), Some(ii), Some(jj)) => {
                        assert(self.engine.states() =~= seq![SlotState::Consumed, SlotState::Consumed, SlotState::Consumed, SlotState::Consumed, SlotState::Consumed, SlotState::Consumed, SlotState::Consumed, SlotState::Consumed, SlotState::Consumed, SlotState::Consumed]);
                        Some((aa, bb, cc, dd, ee, ff, gg, hh, ii, jj))
                    },
                    _ => {
                        proof {
                            assert(false);
                        }
                        None
                    },
                }
            },
        }
    }
}

/// A join of eleven operations of different output types.
pub struct Join11<A, B, C, D, E, F, G, H, I, J, K> {
    engine: JoinEngine<()>,
    a: Option<A>,
    b: Option<B>,
    c: Option<C>,
    d: Option<D>,
    e: Option<E>,
    f: Option<F>,
    g: Option<G>,
    h: Option<H>,
    i: Option<I>,
    j: Option<J>,
    k: Option<K>,
}

impl<A, B, C, D, E, F, G, H, I, J, K> Join11<A, B, C, D, E, F, G, H, I, J, K> {
    pub closed spec fn states(&self) -> Seq<SlotState> {
        self.engine.states()
    }

    pub closed spec fn dirty(&self) -> Seq<bool> {
        self.engine.dirty()
    }

    pub closed spec fn output_a(&self) -> Option<A> {
        self.a
    }

    pub closed spec fn output_b(&self) -> Option<B> {
        self.b
    }

    pub closed spec fn output_c(&self) -> Option<C> {
        self.c
    }

    pub closed spec fn output_d(&self) -> Option<D> {
        self.d
    }

    pub closed spec fn output_e(&self) -> Option<E> {
        self.e
    }

    pub closed spec fn output_f(&self) -> Option<F> {
        self.f
    }

    pub closed spec fn output_g(&self) -> Option<G> {
        self.g
    }

    pub closed spec fn output_h(&self) -> Option<H> {
        self.h
    }

    pub closed spec fn output_i(&self) -> Option<I> {
        self.i
    }

    pub closed spec fn output_j(&self) -> Option<J> {
        self.j
    }

    pub closed spec fn output_k(&self) -> Option<K> {
        self.k
    }

    pub closed spec fn wf(&self) -> bool {
        &&& self.engine.wf()
        &&& self.engine.outputs().len() == 11
        &&& self.engine.dirty().len() == 11
        &&& self.engine.states().len() == 11
        &&& (self.a is Some <==> self.engine.outputs()[0] is Some)
        &&& (self.b is Some <==> self.engine.outputs()[1] is Some)
        &&& (self.c is Some <==> self.engine.outputs()[2] is Some)
        &&& (self.d is Some <==> self.engine.outputs()[3] is Some)
        &&& (self.e is Some <==> self.engine.outputs()[4] is Some)
        &&& (self.f is Some <==> self.engine.outputs()[5] is Some)
        &&& (self.g is Some <==> self.engine.outputs()[6] is Some)
        &&& (self.h is Some <==> self.engine.outputs()[7] is Some)
        &&& (self.i is Some <==> self.engine.outputs()[8] is Some)
        &&& (self.j is Some <==> self.engine.outputs()[9] is Some)
        &&& (self.k is Some <==> self.engine.outputs()[10] is Some)
    }

    pub fn new() -> (r: Self)
        ensures
            r.wf(),
            r.states() == seq![SlotState::Pending, SlotState::Pending, SlotState::Pending, SlotState::Pending, SlotState::Pending, SlotState::Pending, SlotState::Pending, SlotState::Pending, SlotState::Pending, SlotState::Pending, SlotState::Pending],
            r.dirty() == seq![true, true, true, true, true, true, true, true, true, true, true],
            r.output_a() is None,
            r.output_b() is None,
            r.output_c() is None,
            r.output_d() is None,
            r.output_e() is None,
            r.output_f() is None,
            r.output_g() is None,
            r.output_h() is None,
            r.output_i() is None,
            r.output_j() is None,
            r.output_k() is None,
    {
        let engine = JoinEngine::new(11);
        proof {
            engine.lemma_wf_facts();
        }
        assert(engine.states() =~= seq![SlotState::Pending, SlotState::Pending, SlotState::Pending, SlotState::Pending, SlotState::Pending, SlotState::Pending, SlotState::Pending, SlotState::Pending, SlotState::Pending, SlotState::Pending, SlotState::Pending]);
        assert(engine.dirty() =~= seq![true, true, true, true, true, true, true, true, true, true, true]);
        Join11 { engine, a: None, b: None, c: None, d: None, e: None, f: None, g: None, h: None, i: None, j: None, k: None }
    }

    /// The slots to probe in this drive step: those signalled since the last step
    /// and still pending, in increasing order. Clears the signals.
    pub fn to_probe(&mut self) -> (r: Vec<usize>)
        requires
            old(self).wf(),
        ensures
            final(self).wf(),
            final(self).states() == old(self).states(),
            final(self).output_a() == old(self).output_a(),
            final(self).output_b() == old(self).output_b(),
            final(self).output_c() == old(self).output_c(),
            final(self).output_d() == old(self).output_d(),
            final(self).output_e() == old(self).output_e(),
            final(self).output_f() == old(self).output_f(),
            final(self).output_g() == old(self).output_g(),
            final(self).output_h() == old(self).output_h(),
            final(self).output_i() == old(self).output_i(),
            final(self).output_j() == old(self).output_j(),
            final(self).output_k() == old(self).output_k(),
            final(self).dirty().len() == 11,
            forall|j: int| 0 <= j < 11 ==> !final(self).dirty()[j],
            forall|k: int|
                0 <= k < r@.len() ==> r@[k] < 11 && old(self).dirty()[r@[k] as int] && old(self).states()[r@[k] as int]
                    == SlotState::Pending,
            forall|j: usize|
                j < 11 && old(self).dirty()[j as int] && old(self).states()[j as int] == SlotState::Pending
                    ==> r@.contains(j),
            forall|k1: int, k2: int| 0 <= k1 < k2 < r@.len() ==> r@[k1] < r@[k2],
    {
        self.engine.to_probe()
    }

    /// Operation `i` signalled that it can make progress.
    pub fn wake(&mut self, i: usize)
        requires
            old(self).wf(),
            i < 11,
        ensures
            final(self).wf(),
            final(self).dirty() == old(self).dirty().update(i as int, true),
            final(self).states() == old(self).states(),
            final(self).output_a() == old(self).output_a(),
            final(self).output_b() == old(self).output_b(),
            final(self).output_c() == old(self).output_c(),
            final(self).output_d() == old(self).output_d(),
            final(self).output_e() == old(self).output_e(),
            final(self).output_f() == old(self).output_f(),
            final(self).output_g() == old(self).output_g(),
            final(self).output_h() == old(self).output_h(),
            final(self).output_i() == old(self).output_i(),
            final(self).output_j() == old(self).output_j(),
            final(self).output_k() == old(self).output_k(),
    {
        self.engine.wake(i);
    }

    /// The first operation gave `v`.
    pub fn complete_0(&mut self, v: A)
        requires
            old(self).wf(),
            old(self).states()[0] == SlotState::Pending,
        ensures
            final(self).wf(),
            final(self).dirty() == old(self).dirty(),
            final(self).states() == old(self).states().update(0, SlotState::Ready),
            final(self).output_a() == Some(v),
            final(self).output_b() == old(self).output_b(),
            final(self).output_c() == old(self).output_c(),
            final(self).output_d() == old(self).output_d(),
            final(self).output_e() == old(self).output_e(),
            final(self).output_f() == old(self).output_f(),
            final(self).output_g() == old(self).output_g(),
            final(self).output_h() == old(self).output_h(),
            final(self).output_i() == old(self).output_i(),
            final(self).output_j() == old(self).output_j(),
            final(self).output_k() == old(self).output_k(),
    {
        self.engine.complete(0, ());
        self.a = Some(v);
    }

    /// The second operation gave `v`.
    pub fn complete_1(&mut self, v: B)
        requires
            old(self).wf(),
            old(self).states()[1] == SlotState::Pending,
        ensures
            final(self).wf(),
            final(self).dirty() == old(self).dirty(),
            final(self).states() == old(self).states().update(1, SlotState::Ready),
            final(self).output_b() == Some(v),
            final(self).output_a() == old(self).output_a(),
            final(self).output_c() == old(self).output_c(),
            final(self).output_d() == old(self).output_d(),
            final(self).output_e() == old(self).output_e(),
            final(self).output_f() == old(self).output_f(),
            final(self).output_g() == old(self).output_g(),
            final(self).output_h() == old(self).output_h(),
            final(self).output_i() == old(self).output_i(),
            final(self).output_j() == old(self).output_j(),
            final(self).output_k() == old(self).output_k(),
    {
        self.engine.complete(1, ());
        self.b = Some(v);
    }

    /// The third operation gave `v`.
    pub fn complete_2(&mut self, v: C)
        requires
            old(self).wf(),
            old(self).states()[2] == SlotState::Pending,
        ensures
            final(self).wf(),
            final(self).dirty() == old(self).dirty(),
            final(self).states() == old(self).states().update(2, SlotState::Ready),
            final(self).output_c() == Some(v),
            final(self).output_a() == old(self).output_a(),
            final(self).output_b() == old(self).output_b(),
            final(self).output_d() == old(self).output_d(),
            final(self).output_e() == old(self).output_e(),
            final(self).output_f() == old(self).output_f(),
            final(self).output_g() == old(self).output_g(),
            final(self).output_h() == old(self).output_h(),
            final(self).output_i() == old(self).output_i(),
            final(self).output_j() == old(self).output_j(),
            final(self).output_k() == old(self).output_k(),
    {
        self.engine.complete(2, ());
        self.c = Some(v);
    }

    /// The fourth operation gave `v`.
    pub fn complete_3(&mut self, v: D)
        requires
            old(self).wf(),
            old(self).states()[3] == SlotState::Pending,
        ensures
            final(self).wf(),
            final(self).dirty() == old(self).dirty(),
            final(self).states() == old(self).states().update(3, SlotState::Ready),
            final(self).output_d() == Some(v),
            final(self).output_a() == old(self).output_a(),
            final(self).output_b() == old(self).output_b(),
            final(self).output_c() == old(self).output_c(),
            final(self).output_e() == old(self).output_e(),
            final(self).output_f() == old(self).output_f(),
            final(self).output_g() == old(self).output_g(),
            final(self).output_h() == old(self).output_h(),
            final(self).output_i() == old(self).output_i(),
            final(self).output_j() == old(self).output_j(),
            final(self).output_k() == old(self).output_k(),
    {
        self.engine.complete(3, ());
        self.d = Some(v);
    }

    /// The fifth operation gave `v`.
    pub fn complete_4(&mut self, v: E)
        requires
            old(self).wf(),
            old(self).states()[4] == SlotState::Pending,
        ensures
            final(self).wf(),
            final(self).dirty() == old(self).dirty(),
            final(self).states() == old(self).states().update(4, SlotState::Ready),
            final(self).output_e() == Some(v),
            final(self).output_a() == old(self).output_a(),
            final(self).output_b() == old(self).output_b(),
            final(self).output_c() == old(self).output_c(),
            final(self).output_d() == old(self).output_d(),
            final(self).output_f() == old(self).output_f(),
            final(self).output_g() == old(self).output_g(),
            final(self).output_h() == old(self).output_h(),
            final(self).output_i() == old(self).output_i(),
            final(self).output_j() == old(self).output_j(),
            final(self).output_k() == old(self).output_k(),
    {
        self.engine.complete(4, ());
        self.e = Some(v);
    }

    /// The sixth operation gave `v`.
    pub fn complete_5(&mut self, v: F)
        requires
            old(self).wf(),
            old(self).states()[5] == SlotState::Pending,
        ensures
            final(self).wf(),
            final(self).dirty() == old(self).dirty(),
            final(self).states() == old(self).states().update(5, SlotState::Ready),
            final(self).output_f() == Some(v),
            final(self).output_a() == old(self).output_a(),
            final(self).output_b() == old(self).output_b(),
            final(self).output_c() == old(self).output_c(),
            final(self).output_d() == old(self).output_d(),
            final(self).output_e() == old(self).output_e(),
            final(self).output_g() == old(self).output_g(),
            final(self).output_h() == old(self).output_h(),
            final(self).output_i() == old(self).output_i(),
            final(self).output_j() == old(self).output_j(),
            final(self).output_k() == old(self).output_k(),
    {
        self.engine.complete(5, ());
        self.f = Some(v);
    }

    /// The seventh operation gave `v`.
    pub fn complete_6(&mut self, v: G)
        requires
            old(self).wf(),
            old(self).states()[6] == SlotState::Pending,
        ensures
            final(self).wf(),
            final(self).dirty() == old(self).dirty(),
            final(self).states() == old(self).states().update(6, SlotState::Ready),
            final(self).output_g() == Some(v),
            final(self).output_a() == old(self).output_a(),
            final(self).output_b() == old(self).output_b(),
            final(self).output_c() == old(self).output_c(),
            final(self).output_d() == old(self).output_d(),
            final(self).output_e() == old(self).output_e(),
            final(self).output_f() == old(self).output_f(),
            final(self).output_h() == old(self).output_h(),
            final(self).output_i() == old(self).output_i(),
            final(self).output_j() == old(self).output_j(),
            final(self).output_k() == old(self).output_k(),
    {
        self.engine.complete(6, ());
        self.g = Some(v);
    }

    /// The eighth operation gave `v`.
    pub fn complete_7(&mut self, v: H)
        requires
            old(self).wf(),
            old(self).states()[7] == SlotState::Pending,
        ensures
            final(self).wf(),
            final(self).dirty() == old(self).dirty(),
            final(self).states() == old(self).states().update(7, SlotState::Ready),
            final(self).output_h() == Some(v),
            final(self).output_a() == old(self).output_a(),
            final(self).output_b() == old(self).output_b(),
            final(self).output_c() == old(self).output_c(),
            final(self).output_d() == old(self).output_d(),
            final(self).output_e() == old(self).output_e(),
            final(self).output_f() == old(self).output_f(),
            final(self).output_g() == old(self).output_g(),
            final(self).output_i() == old(self).output_i(),
            final(self).output_j() == old(self).output_j(),
            final(self).output_k() == old(self).output_k(),
    {
        self.engine.complete(7, ());
        self.h = Some(v);
    }

    /// The ninth operation gave `v`.
    pub fn complete_8(&mut self, v: I)
        requires
            old(self).wf(),
            old(self).states()[8] == SlotState::Pending,
        ensures
            final(self).wf(),
            final(self).dirty() == old(self).dirty(),
            final(self).states() == old(self).states().update(8, SlotState::Ready),
            final(self).output_i() == Some(v),
            final(self).output_a() == old(self).output_a(),
            final(self).output_b() == old(self).output_b(),
            final(self).output_c() == old(self).output_c(),
            final(self).output_d() == old(self).output_d(),
            final(self).output_e() == old(self).output_e(),
            final(self).output_f() == old(self).output_f(),
            final(self).output_g() == old(self).output_g(),
            final(self).output_h() == old(self).output_h(),
            final(self).output_j() == old(self).output_j(),
            final(self).output_k() == old(self).output_k(),
    {
        self.engine.complete(8, ());
        self.i = Some(v);
    }

    /// The tenth operation gave `v`.
    pub fn complete_9(&mut self, v: J)
        requires
            old(self).wf(),
            old(self).states()[9] == SlotState::Pending,
        ensures
            final(self).wf(),
            final(self).dirty() == old(self).dirty(),
            final(self).states() == old(self).states().update(9, SlotState::Ready),
            final(self).output_j() == Some(v),
            final(self).output_a() == old(self).output_a(),
            final(self).output_b() == old(self).output_b(),
            final(self).output_c() == old(self).output_c(),
            final(self).output_d() == old(self).output_d(),
            final(self).output_e() == old(self).output_e(),
            final(self).output_f() == old(self).output_f(),
            final(self).output_g() == old(self).output_g(),
            final(self).output_h() == old(self).output_h(),
            final(self).output_i() == old(self).output_i(),
            final(self).output_k() == old(self).output_k(),
    {
        self.engine.complete(9, ());
        self.j = Some(v);
    }

    /// The eleventh operation gave `v`.
    pub fn complete_10(&mut self, v: K)
        requires
            old(self).wf(),
            old(self).states()[10] == SlotState::Pending,
        ensures
            final(self).wf(),
            final(self).dirty() == old(self).dirty(),
            final(self).states() == old(self).states().update(10, SlotState::Ready),
            final(self).output_k() == Some(v),
            final(self).output_a() == old(self).output_a(),
            final(self).output_b() == old(self).output_b(),
            final(self).output_c() == old(self).output_c(),
            final(self).output_d() == old(self).output_d(),
            final(self).output_e() == old(self).output_e(),
            final(self).output_f() == old(self).output_f(),
            final(self).output_g() == old(self).output_g(),
            final(self).output_h() == old(self).output_h(),
            final(self).output_i() == old(self).output_i(),
            final(self).output_j() == old(self).output_j(),
    {
        self.engine.complete(10, ());
        self.k = Some(v);
    }

    /// All outputs, in slot order, once every operation has completed; the slots
    /// are then consumed. Before that `None`, with nothing changed.
    pub fn finish(&mut self) -> (r: Option<(A, B, C, D, E, F, G, H, I, J, K)>)
        requires
            old(self).wf(),
        ensures
            final(self).wf(),
            r is Some <==> old(self).states()[0] == SlotState::Ready && old(self).states()[1] == SlotState::Ready && old(self).states()[2] == SlotState::Ready && old(self).states()[3] == SlotState::Ready && old(self).states()[4] == SlotState::Ready && old(self).states()[5] == SlotState::Ready && old(self).states()[6] == SlotState::Ready && old(self).states()[7] == SlotState::Ready && old(self).states()[8] == SlotState::Ready && old(self).states()[9] == SlotState::Ready && old(self).states()[10] == SlotState::Ready,
            r matches Some(t) ==> old(self).output_a() == Some(t.0) && old(self).output_b() == Some(t.1) && old(self).output_c() == Some(t.2) && old(self).output_d() == Some(t.3) && old(self).output_e() == Some(t.4) && old(self).output_f() == Some(t.5) && old(self).output_g() == Some(t.6) && old(self).output_h() == Some(t.7) && old(self).output_i() == Some(t.8) && old(self).output_j() == Some(t.9) && old(self).output_k() == Some(t.10),
            r is None ==> final(self).states() == old(self).states() && final(self).output_a() == old(self).output_a() && final(self).output_b() == old(self).output_b() && final(self).output_c() == old(self).output_c() && final(self).output_d() == old(self).output_d() && final(self).output_e() == old(self).output_e() && final(self).output_f() == old(self).output_f() && final(self).output_g() == old(self).output_g() && final(self).output_h() == old(self).output_h() && final(self).output_i() == old(self).output_i() && final(self).output_j() == old(self).output_j() && final(self).output_k() == old(self).output_k(),
            r is Some ==> final(self).states() == seq![SlotState::Consumed, SlotState::Consumed, SlotState::Consumed, SlotState::Consumed, SlotState::Consumed, SlotState::Consumed, SlotState::Consumed, SlotState::Consumed, SlotState::Consumed, SlotState::Consumed, SlotState::Consumed] && final(self).output_a() is None && final(self).output_b() is None && final(self).output_c() is None && final(self).output_d() is None && final(self).output_e() is None && final(self).output_f() is None && final(self).output_g() is None && final(self).output_h() is None && final(self).output_i() is None && final(self).output_j() is None && final(self).output_k() is None,
    {
        proof {
            self.engine.lemma_wf_facts();
        }
        match self.engine.finish() {
            None => None,
            Some(_) => {
                let a = self.a.take();
                let b = self.b.take();
                let c = self.c.take();
                let d = self.d.take();
                let e = self.e.take();
                let f = self.f.take();
                let g = self.g.take();
                let h = self.h.take();
                let i = self.i.take();
                let j = self.j.take();
                let k = self.k.take();
                match (a, b, c, d, e, f, g, h, i, j, k) {
                    (Some(aa), Some(bb), Some(cc), Some(dd), Some(ee), Some(ff), Some(gg), Some(hh), Some(ii), Some(jj), Some(kk)) => {
                        assert(self.engine.states() =~= seq![SlotState::Consumed, SlotState::Consumed, SlotState::Consumed, SlotState::Consumed, SlotState::Consumed, SlotState::Consumed, SlotState::Consumed, SlotState::Consumed, SlotState::Consumed, SlotState::Consumed, SlotState::Consumed]);
                        Some((aa, bb, cc, dd, ee, ff, gg, hh, ii, jj, kk))
                    },
                    _ => {
                        proof {
                            assert(false);
                        }
                        None
                    },
                }
            },
        }
    }
}

/// A join of twelve operations of different output types.
pub struct Join12<A, B, C, D, E, F, G, H, I, J, K, L> {
    engine: JoinEngine<()>,
    a: Option<A>,
    b: Option<B>,
    c: Option<C>,
    d: Option<D>,
    e: Option<E>,
    f: Option<F>,
    g: Option<G>,
    h: Option<H>,
    i: Option<I>,
    j: Option<J>,
    k: Option<K>,
    l: Option<L>,
}

impl<A, B, C, D, E, F, G, H, I, J, K, L> Join12<A, B, C, D, E, F, G, H, I, J, K, L> {
    pub closed spec fn states(&self) -> Seq<SlotState> {
        self.engine.states()
    }

    pub closed spec fn dirty(&self) -> Seq<bool> {
        self.engine.dirty()
    }

    pub closed spec fn output_a(&self) -> Option<A> {
        self.a
    }

    pub closed spec fn output_b(&self) -> Option<B> {
        self.b
    }

    pub closed spec fn output_c(&self) -> Option<C> {
        self.c
    }

    pub closed spec fn output_d(&self) -> Option<D> {
        self.d
    }

    pub closed spec fn output_e(&self) -> Option<E> {
        self.e
    }

    pub closed spec fn output_f(&self) -> Option<F> {
        self.f
    }

    pub closed spec fn output_g(&self) -> Option<G> {
        self.g
    }

    pub closed spec fn output_h(&self) -> Option<H> {
        self.h
    }

    pub closed spec fn output_i(&self) -> Option<I> {
        self.i
    }

    pub closed spec fn output_j(&self) -> Option<J> {
        self.j
    }

    pub closed spec fn output_k(&self) -> Option<K> {
        self.k
    }

    pub closed spec fn output_l(&self) -> Option<L> {
        self.l
    }

    pub closed spec fn wf(&self) -> bool {
        &&& self.engine.wf()
        &&& self.engine.outputs().len() == 12
        &&& self.engine.dirty().len() == 12
        &&& self.engine.states().len() == 12
        &&& (self.a is Some <==> self.engine.outputs()[0] is Some)
        &&& (self.b is Some <==> self.engine.outputs()[1] is Some)
        &&& (self.c is Some <==> self.engine.outputs()[2] is Some)
        &&& (self.d is Some <==> self.engine.outputs()[3] is Some)
        &&& (self.e is Some <==> self.engine.outputs()[4] is Some)
        &&& (self.f is Some <==> self.engine.outputs()[5] is Some)
        &&& (self.g is Some <==> self.engine.outputs()[6] is Some)
        &&& (self.h is Some <==> self.engine.outputs()[7] is Some)
        &&& (self.i is Some <==> self.engine.outputs()[8] is Some)
        &&& (self.j is Some <==> self.engine.outputs()[9] is Some)
        &&& (self.k is Some <==> self.engine.outputs()[10] is Some)
        &&& (self.l is Some <==> self.engine.outputs()[11] is Some)
    }

    pub fn new() -> (r: Self)
        ensures
            r.wf(),
            r.states() == seq![SlotState::Pending, SlotState::Pending, SlotState::Pending, SlotState::Pending, SlotState::Pending, SlotState::Pending, SlotState::Pending, SlotState::Pending, SlotState::Pending, SlotState::Pending, SlotState::Pending, SlotState::Pending],
            r.dirty() == seq![true, true, true, true, true, true, true, true, true, true, true, true],
            r.output_a() is None,
            r.output_b() is None,
            r.output_c() is None,
            r.output_d() is None,
            r.output_e() is None,
            r.output_f() is None,
            r.output_g() is None,
            r.output_h() is None,
            r.output_i() is None,
            r.output_j() is None,
            r.output_k() is None,
            r.output_l() is None,
    {
        let engine = JoinEngine::new(12);
        proof {
            engine.lemma_wf_facts();
        }
        assert(engine.states() =~= seq![SlotState::Pending, SlotState::Pending, SlotState::Pending, SlotState::Pending, SlotState::Pending, SlotState::Pending, SlotState::Pending, SlotState::Pending, SlotState::Pending, SlotState::Pending, SlotState::Pending, SlotState::Pending]);
        assert(engine.dirty() =~= seq![true, true, true, true, true, true, true, true, true, true, true, true]);
        Join12 { engine, a: None, b: None, c: None, d: None, e: None, f: None, g: None, h: None, i: None, j: None, k: None, l: None }
    }

    /// The slots to probe in this drive step: those signalled since the last step
    /// and still pending, in increasing order. Clears the signals.
    pub fn to_probe(&mut self) -> (r: Vec<usize>)
        requires
            old(self).wf(),
        ensures
            final(self).wf(),
            final(self).states() == old(self).states(),
            final(self).output_a() == old(self).output_a(),
            final(self).output_b() == old(self).output_b(),
            final(self).output_c() == old(self).output_c(),
            final(self).output_d() == old(self).output_d(),
            final(self).output_e() == old(self).output_e(),
            final(self).output_f() == old(self).output_f(),
            final(self).output_g() == old(self).output_g(),
            final(self).output_h() == old(self).output_h(),
            final(self).output_i() == old(self).output_i(),
            final(self).output_j() == old(self).output_j(),
            final(self).output_k() == old(self).output_k(),
            final(self).output_l() == old(self).output_l(),
            final(self).dirty().len() == 12,
            forall|j: int| 0 <= j < 12 ==> !final(self).dirty()[j],
            forall|k: int|
                0 <= k < r@.len() ==> r@[k] < 12 && old(self).dirty()[r@[k] as int] && old(self).states()[r@[k] as int]
                    == SlotState::Pending,
            forall|j: usize|
                j < 12 && old(self).dirty()[j as int] && old(self).states()[j as int] == SlotState::Pending
                    ==> r@.contains(j),
            forall|k1: int, k2: int| 0 <= k1 < k2 < r@.len() ==> r@[k1] < r@[k2],
    {
        self.engine.to_probe()
    }

    /// Operation `i` signalled that it can make progress.
    pub fn wake(&mut self, i: usize)
        requires
            old(self).wf(),
            i < 12,
        ensures
            final(self).wf(),
            final(self).dirty() == old(self).dirty().update(i as int, true),
            final(self).states() == old(self).states(),
            final(self).output_a() == old(self).output_a(),
            final(self).output_b() == old(self).output_b(),
            final(self).output_c() == old(self).output_c(),
            final(self).output_d() == old(self).output_d(),
            final(self).output_e() == old(self).output_e(),
            final(self).output_f() == old(self).output_f(),
            final(self).output_g() == old(self).output_g(),
            final(self).output_h() == old(self).output_h(),
            final(self).output_i() == old(self).output_i(),
            final(self).output_j() == old(self).output_j(),
            final(self).output_k() == old(self).output_k(),
            final(self).output_l() == old(self).output_l(),
    {
        self.engine.wake(i);
    }

    /// The first operation gave `v`.
    pub fn complete_0(&mut self, v: A)
        requires
            old(self).wf(),
            old(self).states()[0] == SlotState::Pending,
        ensures
            final(self).wf(),
            final(self).dirty() == old(self).dirty(),
            final(self).states() == old(self).states().update(0, SlotState::Ready),
            final(self).output_a() == Some(v),
            final(self).output_b() == old(self).output_b(),
            final(self).output_c() == old(self).output_c(),
            final(self).output_d() == old(self).output_d(),
            final(self).output_e() == old(self).output_e(),
            final(self).output_f() == old(self).output_f(),
            final(self).output_g() == old(self).output_g(),
            final(self).output_h() == old(self).output_h(),
            final(self).output_i() == old(self).output_i(),
            final(self).output_j() == old(self).output_j(),
            final(self).output_k() == old(self).output_k(),
            final(self).output_l() == old(self).output_l(),
    {
        self.engine.complete(0, ());
        self.a = Some(v);
    }

    /// The second operation gave `v`.
    pub fn complete_1(&mut self, v: B)
        requires
            old(self).wf(),
            old(self).states()[1] == SlotState::Pending,
        ensures
            final(self).wf(),
            final(self).dirty() == old(self).dirty(),
            final(self).states() == old(self).states().update(1, SlotState::Ready),
            final(self).output_b() == Some(v),
            final(self).output_a() == old(self).output_a(),
            final(self).output_c() == old(self).output_c(),
            final(self).output_d() == old(self).output_d(),
            final(self).output_e() == old(self).output_e(),
            final(self).output_f() == old(self).output_f(),
            final(self).output_g() == old(self).output_g(),
            final(self).output_h() == old(self).output_h(),
            final(self).output_i() == old(self).output_i(),
            final(self).output_j() == old(self).output_j(),
            final(self).output_k() == old(self).output_k(),
            final(self).output_l() == old(self).output_l(),
    {
        self.engine.complete(1, ());
        self.b = Some(v);
    }

    /// The third operation gave `v`.
    pub fn complete_2(&mut self, v: C)
        requires
            old(self).wf(),
            old(self).states()[2] == SlotState::Pending,
        ensures
            final(self).wf(),
            final(self).dirty() == old(self).dirty(),
            final(self).states() == old(self).states().update(2, SlotState::Ready),
            final(self).output_c() == Some(v),
            final(self).output_a() == old(self).output_a(),
            final(self).output_b() == old(self).output_b(),
            final(self).output_d() == old(self).output_d(),
            final(self).output_e() == old(self).output_e(),
            final(self).output_f() == old(self).output_f(),
            final(self).output_g() == old(self).output_g(),
            final(self).output_h() == old(self).output_h(),
            final(self).output_i() == old(self).output_i(),
            final(self).output_j() == old(self).output_j(),
            final(self).output_k() == old(self).output_k(),
            final(self).output_l() == old(self).output_l(),
    {
        self.engine.complete(2, ());
        self.c = Some(v);
    }

    /// The fourth operation gave `v`.
    pub fn complete_3(&mut self, v: D)
        requires
            old(self).wf(),
            old(self).states()[3] == SlotState::Pending,
        ensures
            final(self).wf(),
            final(self).dirty() == old(self).dirty(),
            final(self).states() == old(self).states().update(3, SlotState::Ready),
            final(self).output_d() == Some(v),
            final(self).output_a() == old(self).output_a(),
            final(self).output_b() == old(self).output_b(),
            final(self).output_c() == old(self).output_c(),
            final(self).output_e() == old(self).output_e(),
            final(self).output_f() == old(self).output_f(),
            final(self).output_g() == old(self).output_g(),
            final(self).output_h() == old(self).output_h(),
            final(self).output_i() == old(self).output_i(),
            final(self).output_j() == old(self).output_j(),
            final(self).output_k() == old(self).output_k(),
            final(self).output_l() == old(self).output_l(),
    {
        self.engine.complete(3, ());
        self.d = Some(v);
    }

    /// The fifth operation gave `v`.
    pub fn complete_4(&mut self, v: E)
        requires
            old(self).wf(),
            old(self).states()[4] == SlotState::Pending,
        ensures
            final(self).wf(),
            final(self).dirty() == old(self).dirty(),
            final(self).states() == old(self).states().update(4, SlotState::Ready),
            final(self).output_e() == Some(v),
            final(self).output_a() == old(self).output_a(),
            final(self).output_b() == old(self).output_b(),
            final(self).output_c() == old(self).output_c(),
            final(self).output_d() == old(self).output_d(),
            final(self).output_f() == old(self).output_f(),
            final(self).output_g() == old(self).output_g(),
            final(self).output_h() == old(self).output_h(),
            final(self).output_i() == old(self).output_i(),
            final(self).output_j() == old(self).output_j(),
            final(self).output_k() == old(self).output_k(),
            final(self).output_l() == old(self).output_l(),
    {
        self.engine.complete(4, ());
        self.e = Some(v);
    }

    /// The sixth operation gave `v`.
    pub fn complete_5(&mut self, v: F)
        requires
            old(self).wf(),
            old(self).states()[5] == SlotState::Pending,
        ensures
            final(self).wf(),
            final(self).dirty() == old(self).dirty(),
            final(self).states() == old(self).states().update(5, SlotState::Ready),
            final(self).output_f() == Some(v),
            final(self).output_a() == old(self).output_a(),
            final(self).output_b() == old(self).output_b(),
            final(self).output_c() == old(self).output_c(),
            final(self).output_d() == old(self).output_d(),
            final(self).output_e() == old(self).output_e(),
            final(self).output_g() == old(self).output_g(),
            final(self).output_h() == old(self).output_h(),
            final(self).output_i() == old(self).output_i(),
            final(self).output_j() == old(self).output_j(),
            final(self).output_k() == old(self).output_k(),
            final(self).output_l() == old(self).output_l(),
    {
        self.engine.complete(5, ());
        self.f = Some(v);
    }

    /// The seventh operation gave `v`.
    pub fn complete_6(&mut self, v: G)
        requires
            old(self).wf(),
            old(self).states()[6] == SlotState::Pending,
        ensures
            final(self).wf(),
            final(self).dirty() == old(self).dirty(),
            final(self).states() == old(self).states().update(6, SlotState::Ready),
            final(self).output_g() == Some(v),
            final(self).output_a() == old(self).output_a(),
            final(self).output_b() == old(self).output_b(),
            final(self).output_c() == old(self).output_c(),
            final(self).output_d() == old(self).output_d(),
            final(self).output_e() == old(self).output_e(),
            final(self).output_f() == old(self).output_f(),
            final(self).output_h() == old(self).output_h(),
            final(self).output_i() == old(self).output_i(),
            final(self).output_j() == old(self).output_j(),
            final(self).output_k() == old(self).output_k(),
            final(self).output_l() == old(self).output_l(),
    {
        self.engine.complete(6, ());
        self.g = Some(v);
    }

    /// The eighth operation gave `v`.
    pub fn complete_7(&mut self, v: H)
        requires
            old(self).wf(),
            old(self).states()[7] == SlotState::Pending,
        ensures
            final(self).wf(),
            final(self).dirty() == old(self).dirty(),
            final(self).states() == old(self).states().update(7, SlotState::Ready),
            final(self).output_h() == Some(v),
            final(self).output_a() == old(self).output_a(),
            final(self).output_b() == old(self).output_b(),
            final(self).output_c() == old(self).output_c(),
            final(self).output_d() == old(self).output_d(),
            final(self).output_e() == old(self).output_e(),
            final(self).output_f() == old(self).output_f(),
            final(self).output_g() == old(self).output_g(),
            final(self).output_i() == old(self).output_i(),
            final(self).output_j() == old(self).output_j(),
            final(self).output_k() == old(self).output_k(),
            final(self).output_l() == old(self).output_l(),
    {
        self.engine.complete(7, ());
        self.h = Some(v);
    }

    /// The ninth operation gave `v`.
    pub fn complete_8(&mut self, v: I)
        requires
            old(self).wf(),
            old(self).states()[8] == SlotState::Pending,
        ensures
            final(self).wf(),
            final(self).dirty() == old(self).dirty(),
            final(self).states() == old(self).states().update(8, SlotState::Ready),
            final(self).output_i() == Some(v),
            final(self).output_a() == old(self).output_a(),
            final(self).output_b() == old(self).output_b(),
            final(self).output_c() == old(self).output_c(),
            final(self).output_d() == old(self).output_d(),
            final(self).output_e() == old(self).output_e(),
            final(self).output_f() == old(self).output_f(),
            final(self).output_g() == old(self).output_g(),
            final(self).output_h() == old(self).output_h(),
            final(self).output_j() == old(self).output_j(),
            final(self).output_k() == old(self).output_k(),
            final(self).output_l() == old(self).output_l(),
    {
        self.engine.complete(8, ());
        self.i = Some(v);
    }

    /// The tenth operation gave `v`.
    pub fn complete_9(&mut self, v: J)
        requires
            old(self).wf(),
            old(self).states()[9] == SlotState::Pending,
        ensures
            final(self).wf(),
            final(self).dirty() == old(self).dirty(),
            final(self).states() == old(self).states().update(9, SlotState::Ready),
            final(self).output_j() == Some(v),
            final(self).output_a() == old(self).output_a(),
            final(self).output_b() == old(self).output_b(),
            final(self).output_c() == old(self).output_c(),
            final(self).output_d() == old(self).output_d(),
            final(self).output_e() == old(self).output_e(),
            final(self).output_f() == old(self).output_f(),
            final(self).output_g() == old(self).output_g(),
            final(self).output_h() == old(self).output_h(),
            final(self).output_i() == old(self).output_i(),
            final(self).output_k() == old(self).output_k(),
            final(self).output_l() == old(self).output_l(),
    {
        self.engine.complete(9, ());
        self.j = Some(v);
    }

    /// The eleventh operation gave `v`.
    pub fn complete_10(&mut self, v: K)
        requires
            old(self).wf(),
            old(self).states()[10] == SlotState::Pending,
        ensures
            final(self).wf(),
            final(self).dirty() == old(self).dirty(),
            final(self).states() == old(self).states().update(10, SlotState::Ready),
            final(self).output_k() == Some(v),
            final(self).output_a() == old(self).output_a(),
            final(self).output_b() == old(self).output_b(),
            final(self).output_c() == old(self).output_c(),
            final(self).output_d() == old(self).output_d(),
            final(self).output_e() == old(self).output_e(),
            final(self).output_f() == old(self).output_f(),
            final(self).output_g() == old(self).output_g(),
            final(self).output_h() == old(self).output_h(),
            final(self).output_i() == old(self).output_i(),
            final(self).output_j() == old(self).output_j(),
            final(self).output_l() == old(self).output_l(),
    {
        self.engine.complete(10, ());
        self.k = Some(v);
    }

    /// The twelfth operation gave `v`.
    pub fn complete_11(&mut self, v: L)
        requires
            old(self).wf(),
            old(self).states()[11] == SlotState::Pending,
        ensures
            final(self).wf(),
            final(self).dirty() == old(self).dirty(),
            final(self).states() == old(self).states().update(11, SlotState::Ready),
            final(self).output_l() == Some(v),
            final(self).output_a() == old(self).output_a(),
            final(self).output_b() == old(self).output_b(),
            final(self).output_c() == old(self).output_c(),
            final(self).output_d() == old(self).output_d(),
            final(self).output_e() == old(self).output_e(),
            final(self).output_f() == old(self).output_f(),
            final(self).output_g() == old(self).output_g(),
            final(self).output_h() == old(self).output_h(),
            final(self).output_i() == old(self).output_i(),
            final(self).output_j() == old(self).output_j(),
            final(self).output_k() == old(self).output_k(),
    {
        self.engine.complete(11, ());
        self.l = Some(v);
    }

    /// All outputs, in slot order, once every operation has completed; the slots
    /// are then consumed. Before that `None`, with nothing changed.
    pub fn finish(&mut self) -> (r: Option<(A, B, C, D, E, F, G, H, I, J, K, L)>)
        requires
            old(self).wf(),
        ensures
            final(self).wf(),
            r is Some <==> old(self).states()[0] == SlotState::Ready && old(self).states()[1] == SlotState::Ready && old(self).states()[2] == SlotState::Ready && old(self).states()[3] == SlotState::Ready && old(self).states()[4] == SlotState::Ready && old(self).states()[5] == SlotState::Ready && old(self).states()[6] == SlotState::Ready && old(self).states()[7] == SlotState::Ready && old(self).states()[8] == SlotState::Ready && old(self).states()[9] == SlotState::Ready && old(self).states()[10] == SlotState::Ready && old(self).states()[11] == SlotState::Ready,
            r matches Some(t) ==> old(self).output_a() == Some(t.0) && old(self).output_b() == Some(t.1) && old(self).output_c() == Some(t.2) && old(self).output_d() == Some(t.3) && old(self).output_e() == Some(t.4) && old(self).output_f() == Some(t.5) && old(self).output_g() == Some(t.6) && old(self).output_h() == Some(t.7) && old(self).output_i() == Some(t.8) && old(self).output_j() == Some(t.9) && old(self).output_k() == Some(t.10) && old(self).output_l() == Some(t.11),
            r is None ==> final(self).states() == old(self).states() && final(self).output_a() == old(self).output_a() && final(self).output_b() == old(self).output_b() && final(self).output_c() == old(self).output_c() && final(self).output_d() == old(self).output_d() && final(self).output_e() == old(self).output_e() && final(self).output_f() == old(self).output_f() && final(self).output_g() == old(self).output_g() && final(self).output_h() == old(self).output_h() && final(self).output_i() == old(self).output_i() && final(self).output_j() == old(self).output_j() && final(self).output_k() == old(self).output_k() && final(self).output_l() == old(self).output_l(),
            r is Some ==> final(self).states() == seq![SlotState::Consumed, SlotState::Consumed, SlotState::Consumed, SlotState::Consumed, SlotState::Consumed, SlotState::Consumed, SlotState::Consumed, SlotState::Consumed, SlotState::Consumed, SlotState::Consumed, SlotState::Consumed, SlotState::Consumed] && final(self).output_a() is None && final(self).output_b() is None && final(self).output_c() is None && final(self).output_d() is None && final(self).output_e() is None && final(self).output_f() is None && final(self).output_g() is None && final(self).output_h() is None && final(self).output_i() is None && final(self).output_j() is None && final(self).output_k() is None && final(self).output_l() is None,
    {
        proof {
            self.engine.lemma_wf_facts();
        }
        match self.engine.finish() {
            None => None,
            Some(_) => {
                let a = self.a.take();
                let b = self.b.take();
                let c = self.c.take();
                let d = self.d.take();
                let e = self.e.take();
                let f = self.f.take();
                let g = self.g.take();
                let h = self.h.take();
                let i = self.i.take();
                let j = self.j.take();
                let k = self.k.take();
                let l = self.l.take();
                match (a, b, c, d, e, f, g, h, i, j, k, l) {
                    (Some(aa), Some(bb), Some(cc), Some(dd), Some(ee), Some(ff), Some(gg), Some(hh), Some(ii), Some(jj), Some(kk), Some(ll)) => {
                        assert(self.engine.states() =~= seq![SlotState::Consumed, SlotState::Consumed, SlotState::Consumed, SlotState::Consumed, SlotState::Consumed, SlotState::Consumed, SlotState::Consumed, SlotState::Consumed, SlotState::Consumed, SlotState::Consumed, SlotState::Consumed, SlotState::Consumed]);
                        Some((aa, bb, cc, dd, ee, ff, gg, hh, ii, jj, kk, ll))
                    },
                    _ => {
                        proof {
                            assert(false);
                        }
                        None
                    },
                }
            },
        }
    }
}

} // verus!

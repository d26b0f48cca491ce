use vstd::prelude::*;

verus! {

/// What the last step of a stream driver produced: the race between "next item
/// of the source" and "let the consumer advance" while pulling, or the
/// consumer's own advance while draining.
pub enum StreamEvent<T> {
    /// The consumer's advance reported ready.
    Progress,
    /// The source yielded an item.
    Item(T),
    /// The source is exhausted for good.
    Exhausted,
}

/// What the caller must do next.
pub enum StreamAction<T> {
    /// Race the source against the consumer again.
    Race,
    /// Hand this item to the consumer, then race again.
    Send(T),
    /// Pull no more; advance the consumer alone until it reports ready.
    Drain,
    /// The consumer has drained: finish it; its output is the result.
    Finish,
    /// The driver is done; nothing more to do.
    Idle,
}

/// Where a stream driver stands.
#[derive(Clone, Copy, Debug, PartialEq, Eq, Structural)]
pub enum StreamPhase {
    /// Pulling items from the source and handing them to the consumer.
    Pulling,
    /// The source is exhausted; waiting for the consumer to report ready.
    Draining,
    /// The consumer has been finished.
    Finished,
}

/// The phase after meeting `ev` in phase `p`.
pub open spec fn next_phase<T>(p: StreamPhase, ev: StreamEvent<T>) -> StreamPhase {
    match p {
        StreamPhase::Pulling => if ev is Exhausted {
            StreamPhase::Draining
        } else {
            StreamPhase::Pulling
        },
        StreamPhase::Draining => if ev is Progress {
            StreamPhase::Finished
        } else {
            StreamPhase::Draining
        },
        StreamPhase::Finished => StreamPhase::Finished,
    }
}

/// Whether meeting `ev` in phase `p` hands an item to the consumer.
pub open spec fn sends_on<T>(p: StreamPhase, ev: StreamEvent<T>) -> bool {
    p == StreamPhase::Pulling && ev is Item
}

/// Whether meeting `ev` in phase `p` finishes the consumer.
pub open spec fn finishes_on<T>(p: StreamPhase, ev: StreamEvent<T>) -> bool {
    p == StreamPhase::Draining && ev is Progress
}

/// Items handed to the consumer when a driver in phase `p` meets `evs`.
pub open spec fn sends<T>(p: StreamPhase, evs: Seq<StreamEvent<T>>) -> nat
    decreases evs.len(),
{
    if evs.len() == 0 {
        0
    } else {
        (if sends_on(p, evs[0]) {
            1nat
        } else {
            0nat
        }) + sends(next_phase(p, evs[0]), evs.drop_first())
    }
}

/// Finish actions a driver in phase `p` emits when it meets `evs`.
pub open spec fn finishes<T>(p: StreamPhase, evs: Seq<StreamEvent<T>>) -> nat
    decreases evs.len(),
{
    if evs.len() == 0 {
        0
    } else {
        (if finishes_on(p, evs[0]) {
            1nat
        } else {
            0nat
        }) + finishes(next_phase(p, evs[0]), evs.drop_first())
    }
}

/// Items in `evs`.
pub open spec fn item_count<T>(evs: Seq<StreamEvent<T>>) -> nat
    decreases evs.len(),
{
    if evs.len() == 0 {
        0
    } else {
        (if evs[0] is Item {
            1nat
        } else {
            0nat
        }) + item_count(evs.drop_first())
    }
}

/// A finished driver sends nothing more and finishes no more.
pub proof fn lemma_finished_is_idle<T>(evs: Seq<StreamEvent<T>>)
    ensures
        sends(StreamPhase::Finished, evs) == 0,
        finishes(StreamPhase::Finished, evs) == 0,
    decreases evs.len(),
{
    if evs.len() > 0 {
        lemma_finished_is_idle(evs.drop_first());
    }
}

/// A draining driver sends nothing, and finishes once, at the first report of
/// the consumer's readiness.
pub proof fn lemma_draining<T>(mid: Seq<StreamEvent<T>>, post: Seq<StreamEvent<T>>)
    requires
        forall|k: int| 0 <= k < mid.len() ==> !(mid[k] is Progress),
    ensures
        sends(StreamPhase::Draining, mid + seq![StreamEvent::Progress] + post) == 0,
        finishes(StreamPhase::Draining, mid + seq![StreamEvent::Progress] + post) == 1,
        finishes(StreamPhase::Draining, mid) == 0,
        sends(StreamPhase::Draining, mid) == 0,
    decreases mid.len(),
{
    let evs = mid + seq![StreamEvent::Progress] + post;
    if mid.len() == 0 {
        assert(evs.drop_first() =~= post);
        lemma_finished_is_idle(post);
    } else {
        let rest = mid.drop_first();
        assert forall|k: int| 0 <= k < rest.len() implies !(rest[k] is Progress) by {
            assert(rest[k] == mid[k + 1]);
        }
        lemma_draining(rest, post);
        assert(evs.drop_first() =~= rest + seq![StreamEvent::Progress] + post);
        assert(evs[0] == mid[0]);
    }
}

/// Over a source that yields `k` items and then reports exhaustion, with any
/// progress of the consumer in between, the driver hands exactly `k` items to
/// the consumer; it finishes the consumer exactly once, only after the consumer
/// has reported ready once the source was exhausted, whatever comes after.
pub proof fn stream_sends_each_item_once<T>(
    pre: Seq<StreamEvent<T>>,
    mid: Seq<StreamEvent<T>>,
    post: Seq<StreamEvent<T>>,
)
    requires
        forall|k: int| 0 <= k < pre.len() ==> !(pre[k] is Exhausted),
        forall|k: int| 0 <= k < mid.len() ==> !(mid[k] is Progress),
    ensures
        sends(StreamPhase::Pulling, pre + seq![StreamEvent::Exhausted] + mid) == item_count(pre),
        finishes(StreamPhase::Pulling, pre + seq![StreamEvent::Exhausted] + mid) == 0,
        sends(
            StreamPhase::Pulling,
            pre + seq![StreamEvent::Exhausted] + mid + seq![StreamEvent::Progress] + post,
        ) == item_count(pre),
        finishes(
            StreamPhase::Pulling,
            pre + seq![StreamEvent::Exhausted] + mid + seq![StreamEvent::Progress] + post,
        ) == 1,
    decreases pre.len(),
{
    let tail = mid + seq![StreamEvent::Progress] + post;
    let a = pre + seq![StreamEvent::Exhausted] + mid;
    let b = pre + seq![StreamEvent::Exhausted] + mid + seq![StreamEvent::Progress] + post;
    lemma_draining(mid, post);
    if pre.len() == 0 {
        assert(a.drop_first() =~= mid);
        assert(b.drop_first() =~= tail);
    } else {
        let rest = pre.drop_first();
        assert forall|k: int| 0 <= k < rest.len() implies !(rest[k] is Exhausted) by {
            assert(rest[k] == pre[k + 1]);
        }
        stream_sends_each_item_once(rest, mid, post);
        assert(a.drop_first() =~= rest + seq![StreamEvent::Exhausted] + mid);
        assert(b.drop_first() =~= rest + seq![StreamEvent::Exhausted] + mid + seq![
            StreamEvent::Progress,
        ] + post);
        assert(a[0] == pre[0]);
        assert(b[0] == pre[0]);
    }
}

/// The decisions of a stream driver: pull items and hand them to the consumer
/// until the source is exhausted, then advance the consumer alone until it
/// reports ready, then finish it once.
pub struct StreamDriver {
    phase: StreamPhase,
}

impl StreamDriver {
    pub closed spec fn phase(&self) -> StreamPhase {
        self.phase
    }

    pub fn new() -> (r: Self)
        ensures
            r.phase() == StreamPhase::Pulling,
    {
        StreamDriver { phase: StreamPhase::Pulling }
    }

    pub fn is_finished(&self) -> (r: bool)
        ensures
            r == (self.phase() == StreamPhase::Finished),
    {
        self.phase == StreamPhase::Finished
    }

    /// The next action, given what the last step produced.
    pub fn on_event<T>(&mut self, ev: StreamEvent<T>) -> (r: StreamAction<T>)
        ensures
            final(self).phase() == next_phase(old(self).phase(), ev),
            r is Send <==> sends_on(old(self).phase(), ev),
            r is Finish <==> finishes_on(old(self).phase(), ev),
            old(self).phase() == StreamPhase::Pulling ==> (ev matches StreamEvent::Item(v) ==> r
                == StreamAction::Send(v)),
            old(self).phase() == StreamPhase::Pulling && ev is Progress ==> r is Race,
            final(self).phase() == StreamPhase::Draining ==> r is Drain,
            old(self).phase() == StreamPhase::Finished ==> r is Idle,
    {
        match self.phase {
            StreamPhase::Pulling => match ev {
                StreamEvent::Progress => StreamAction::Race,
                StreamEvent::Item(v) => StreamAction::Send(v),
                StreamEvent::Exhausted => {
                    self.phase = StreamPhase::Draining;
                    StreamAction::Drain
                },
            },
            StreamPhase::Draining => match ev {
                StreamEvent::Progress => {
                    self.phase = StreamPhase::Finished;
                    StreamAction::Finish
                },
                _ => StreamAction::Drain,
            },
            StreamPhase::Finished => StreamAction::Idle,
        }
    }
}

/// A source of items, taken as a concurrent stream.
pub struct FromStream<S> {
    pub iter: S,
}

impl<S> FromStream<S> {
    pub open spec fn source(&self) -> S {
        self.iter
    }

    /// The source back, with a fresh driver for it.
    pub fn into_parts(self) -> (r: (S, StreamDriver))
        ensures
            r.0 == self.source(),
            r.1.phase() == StreamPhase::Pulling,
    {
        (self.iter, StreamDriver::new())
    }
}

/// Conversion into a concurrent stream.
pub trait IntoConcurrentStream: Sized {
    /// The concurrent stream this converts into.
    type ConcurrentStream;

    /// What `co` gives for `self`.
    spec fn co_spec(self) -> Self::ConcurrentStream;

    /// Converts `self` into a concurrent stream.
    fn co(self) -> (r: Self::ConcurrentStream)
        ensures
            r == self.co_spec(),
    ;
}

impl<S> IntoConcurrentStream for S {
    type ConcurrentStream = FromStream<S>;

    /// The source is wrapped as it is: nothing is pulled from it.
    open spec fn co_spec(self) -> FromStream<S> {
        FromStream { iter: self }
    }

    fn co(self) -> (r: FromStream<S>) {
        FromStream { iter: self }
    }
}

} // verus!

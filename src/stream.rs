//! The streaming callback protocol: items in the order the source yields
//! them, then exactly one terminal callback, then nothing.
//!
//! A forwarding loop hands each thing it observes to a [`StreamRelay`] and
//! performs the delivery that comes back.
use vstd::prelude::*;

verus! {

/// What a forwarding loop observed next.
pub enum SourceEvent<E> {
    /// The source yielded an item.
    Item(E),
    /// The source ended.
    Ended,
    /// The source reported a failure.
    Failed(String),
    /// The caller asked for cancellation.
    Cancelled,
}

/// The callback to invoke for one observation.
pub enum Delivery<E> {
    /// The item callback, with the item.
    Item(E),
    /// The completion callback; cancellation completes cleanly as well.
    Complete,
    /// The failure callback, with the message.
    Failure(String),
    /// No callback: the stream has already terminated.
    Nothing,
}

pub open spec fn is_terminal<E>(d: Delivery<E>) -> bool {
    d is Complete || d is Failure
}

/// The delivery for observation `ev`, made while the stream is terminated
/// or not, and whether the stream is terminated afterwards.
pub open spec fn relay_step<E>(terminated: bool, ev: SourceEvent<E>) -> (bool, Delivery<E>) {
    if terminated {
        (true, Delivery::Nothing)
    } else {
        match ev {
            SourceEvent::Item(e) => (false, Delivery::Item(e)),
            SourceEvent::Ended => (true, Delivery::Complete),
            SourceEvent::Cancelled => (true, Delivery::Complete),
            SourceEvent::Failed(m) => (true, Delivery::Failure(m)),
        }
    }
}

/// The callbacks invoked, in order, for a run of observations; observations
/// that deliver nothing leave no trace.
pub open spec fn relay_run<E>(terminated: bool, evs: Seq<SourceEvent<E>>) -> Seq<Delivery<E>>
    decreases evs.len(),
{
    if evs.len() == 0 {
        Seq::empty()
    } else {
        let (t, d) = relay_step(terminated, evs[0]);
        let rest = relay_run(t, evs.drop_first());
        if d is Nothing {
            rest
        } else {
            seq![d] + rest
        }
    }
}

/// Whether any observation of `evs` ends a stream.
pub open spec fn has_end<E>(evs: Seq<SourceEvent<E>>) -> bool {
    exists|i: int| 0 <= i < evs.len() && !(#[trigger] evs[i] is Item)
}

/// Once a stream has terminated, nothing more is delivered.
pub proof fn lemma_terminated_run_is_silent<E>(evs: Seq<SourceEvent<E>>)
    ensures
        relay_run(true, evs).len() == 0,
    decreases evs.len(),
{
    if evs.len() > 0 {
        lemma_terminated_run_is_silent(evs.drop_first());
    }
}

/// For every run of observations on a fresh stream, at most one terminal
/// callback is invoked, no callback follows it, and there is exactly one
/// as soon as the source ends, fails or is cancelled.
pub proof fn law_terminal_exclusive<E>(evs: Seq<SourceEvent<E>>)
    ensures
        forall|i: int|
            0 <= i < relay_run(false, evs).len() - 1 ==> !is_terminal(
                #[trigger] relay_run(false, evs)[i],
            ),
        forall|i: int|
            0 <= i < relay_run(false, evs).len() ==> !(#[trigger] relay_run(false, evs)[i] is Nothing),
        has_end(evs) <==> (relay_run(false, evs).len() > 0 && is_terminal(
            relay_run(false, evs).last(),
        )),
    decreases evs.len(),
{
    if evs.len() > 0 {
        let rest = evs.drop_first();
        law_terminal_exclusive(rest);
        let run = relay_run(false, evs);
        match evs[0] {
            SourceEvent::Item(e) => {
                assert(run == seq![Delivery::Item(e)] + relay_run(false, rest));
                if has_end(evs) {
                    let i = choose|i: int| 0 <= i < evs.len() && !(#[trigger] evs[i] is Item);
                    assert(rest[i - 1] == evs[i]);
                    assert(has_end(rest));
                }
                if has_end(rest) {
                    let i = choose|i: int| 0 <= i < rest.len() && !(#[trigger] rest[i] is Item);
                    assert(evs[i + 1] == rest[i]);
                }
            },
            _ => {
                lemma_terminated_run_is_silent(rest);
                assert(run =~= seq![relay_step(false, evs[0]).1]);
                assert(!(evs[0] is Item));
            },
        }
    } else {
        assert(!has_end(evs));
    }
}

/// The state of one stream: whether it has terminated, and the callbacks
/// delivered so far.
pub struct StreamRelay<E> {
    terminated: bool,
    delivered: Ghost<Seq<Delivery<E>>>,
    observed: Ghost<Seq<SourceEvent<E>>>,
}

impl<E> StreamRelay<E> {
    pub closed spec fn is_terminated(&self) -> bool {
        self.terminated
    }

    /// Every callback delivered so far, in order.
    pub closed spec fn delivered(&self) -> Seq<Delivery<E>> {
        self.delivered@
    }

    /// Every observation handed in so far, in order.
    pub closed spec fn observed(&self) -> Seq<SourceEvent<E>> {
        self.observed@
    }

    pub closed spec fn wf(&self) -> bool {
        &&& self.delivered@ == relay_run(false, self.observed@)
        &&& self.terminated == has_end(self.observed@)
    }

    /// What a well-formed relay has delivered is the run of what it has
    /// observed, and it has terminated exactly when an observation ended it;
    /// so the laws on runs apply to it.
    pub proof fn lemma_delivered_is_run(&self)
        requires
            self.wf(),
        ensures
            self.delivered() == relay_run(false, self.observed()),
            self.is_terminated() == has_end(self.observed()),
    {
    }

    /// A stream that has delivered nothing yet.
    pub fn new() -> (r: Self)
        ensures
            r.wf(),
            !r.is_terminated(),
            r.delivered() == Seq::<Delivery<E>>::empty(),
            r.observed() == Seq::<SourceEvent<E>>::empty(),
    {
        StreamRelay { terminated: false, delivered: Ghost(Seq::empty()), observed: Ghost(Seq::empty()) }
    }

    /// Decides the callback for the next observation.
    pub fn observe(&mut self, ev: SourceEvent<E>) -> (d: Delivery<E>)
        requires
            old(self).wf(),
        ensures
            final(self).wf(),
            final(self).delivered() == relay_run(false, final(self).observed()),
            (final(self).is_terminated(), d) == relay_step(old(self).is_terminated(), ev),
            final(self).observed() == old(self).observed().push(ev),
            final(self).delivered() == (if d is Nothing {
                old(self).delivered()
            } else {
                old(self).delivered().push(d)
            }),
    {
        let ghost ev0 = ev;
        let ghost evs = self.observed@.push(ev);
        proof {
            lemma_run_push(self.observed@, ev);
        }
        let d = if self.terminated {
            Delivery::Nothing
        } else {
            match ev {
                SourceEvent::Item(e) => Delivery::Item(e),
                SourceEvent::Ended => {
                    self.terminated = true;
                    Delivery::Complete
                },
                SourceEvent::Cancelled => {
                    self.terminated = true;
                    Delivery::Complete
                },
                SourceEvent::Failed(m) => {
                    self.terminated = true;
                    Delivery::Failure(m)
                },
            }
        };
        proof {
            self.observed = Ghost(evs);
            if !(d is Nothing) {
                self.delivered = Ghost(self.delivered@.push(d));
            }
        }
        d
    }
}

/// How a run grows by one observation.
proof fn lemma_run_push<E>(evs: Seq<SourceEvent<E>>, ev: SourceEvent<E>)
    ensures
        ({
            let (t, d) = relay_step(has_end(evs), ev);
            &&& t == has_end(evs.push(ev))
            &&& relay_run(false, evs.push(ev)) == (if d is Nothing {
                relay_run(false, evs)
            } else {
                relay_run(false, evs).push(d)
            })
        }),
    decreases evs.len(),
{
    lemma_run_push_from(false, evs, ev);
    lemma_run_state_has_end(false, evs);
    lemma_run_state_has_end(false, evs.push(ev));
}

/// The state a run starting at `t` ends in.
pub open spec fn run_state<E>(t: bool, evs: Seq<SourceEvent<E>>) -> bool
    decreases evs.len(),
{
    if evs.len() == 0 {
        t
    } else {
        run_state(relay_step(t, evs[0]).0, evs.drop_first())
    }
}

proof fn lemma_run_state_has_end<E>(t: bool, evs: Seq<SourceEvent<E>>)
    ensures
        run_state(t, evs) == (t || has_end(evs)),
    decreases evs.len(),
{
    if evs.len() > 0 {
        let rest = evs.drop_first();
        lemma_run_state_has_end(relay_step(t, evs[0]).0, rest);
        if has_end(evs) {
            let i = choose|i: int| 0 <= i < evs.len() && !(#[trigger] evs[i] is Item);
            if i > 0 {
                assert(rest[i - 1] == evs[i]);
            }
        }
        if has_end(rest) {
            let i = choose|i: int| 0 <= i < rest.len() && !(#[trigger] rest[i] is Item);
            assert(evs[i + 1] == rest[i]);
        }
    } else {
        assert(!has_end(evs));
    }
}

proof fn lemma_run_push_from<E>(t: bool, evs: Seq<SourceEvent<E>>, ev: SourceEvent<E>)
    ensures
        ({
            let (t2, d) = relay_step(run_state(t, evs), ev);
            &&& run_state(t, evs.push(ev)) == t2
            &&& relay_run(t, evs.push(ev)) == (if d is Nothing {
                relay_run(t, evs)
            } else {
                relay_run(t, evs).push(d)
            })
        }),
    decreases evs.len(),
{
    lemma_run_state_has_end(t, evs);
    lemma_run_state_has_end(t, evs.push(ev));
    if evs.len() == 0 {
        assert(evs.push(ev).drop_first() =~= Seq::<SourceEvent<E>>::empty());
        assert(relay_run(relay_step(t, ev).0, Seq::<SourceEvent<E>>::empty()) =~= Seq::<
            Delivery<E>,
        >::empty());
    } else {
        let (t1, d1) = relay_step(t, evs[0]);
        assert(evs.push(ev).drop_first() =~= evs.drop_first().push(ev));
        assert(evs.push(ev)[0] == evs[0]);
        lemma_run_push_from(t1, evs.drop_first(), ev);
        let (t2, d) = relay_step(run_state(t, evs), ev);
        if !(d1 is Nothing) && !(d is Nothing) {
            assert(seq![d1] + relay_run(t1, evs.drop_first()).push(d) =~= (seq![d1] + relay_run(
                t1,
                evs.drop_first(),
            )).push(d));
        }
    }
}

} // verus!

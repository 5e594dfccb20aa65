//! The one-shot state machine behind a deferred value.
//!
//! A deferred value sees exactly two kinds of event over its life: a value
//! arriving (`complete`) and a continuation being registered. Whichever comes
//! second releases the pair `(continuation, value)`, which the caller hands to
//! a scheduler; the machine itself never calls the continuation.
use vstd::prelude::*;

verus! {

/// The state of a deferred value over payload `P` and continuation `C`.
pub enum SwearState<P, C> {
    /// Neither a value nor a continuation has arrived.
    Empty,
    /// A continuation is stored, waiting for the value.
    PendingCompletion(C),
    /// A value is stored, waiting for a continuation.
    PendingCallback(P),
    /// Both arrived; the continuation has been released.
    Completed,
}

/// Misuse of a deferred value: a second completion or a second continuation.
#[derive(PartialEq, Eq, Structural, Clone, Copy, Debug)]
pub enum SwearFault {
    /// `complete` while an earlier value still waits for its continuation.
    DoubleCompletionWithoutCallback,
    /// `complete` after the continuation was already released.
    DoubleCompletion,
    /// A continuation registered while an earlier one still waits for a value.
    DoubleCallbackWithoutCompletion,
    /// A continuation registered after one was already released.
    DoubleCallback,
}

/// One event seen by a deferred value.
pub enum Event<P, C> {
    Complete(P),
    Register(C),
}

/// What a transition yields: the next state, and the continuation with the
/// value it must be called on, when the transition releases them.
pub type Transition<P, C> = Result<(SwearState<P, C>, Option<(C, P)>), SwearFault>;

/// The transition on a value arriving.
pub open spec fn after_complete<P, C>(s: SwearState<P, C>, v: P) -> Transition<P, C> {
    match s {
        SwearState::Empty => Ok((SwearState::PendingCallback(v), None)),
        SwearState::PendingCompletion(c) => Ok((SwearState::Completed, Some((c, v)))),
        SwearState::PendingCallback(_) => Err(SwearFault::DoubleCompletionWithoutCallback),
        SwearState::Completed => Err(SwearFault::DoubleCompletion),
    }
}

/// The transition on a continuation being registered.
pub open spec fn after_register<P, C>(s: SwearState<P, C>, c: C) -> Transition<P, C> {
    match s {
        SwearState::Empty => Ok((SwearState::PendingCompletion(c), None)),
        SwearState::PendingCompletion(_) => Err(SwearFault::DoubleCallbackWithoutCompletion),
        SwearState::PendingCallback(v) => Ok((SwearState::Completed, Some((c, v)))),
        SwearState::Completed => Err(SwearFault::DoubleCallback),
    }
}

/// The transition on one event.
pub open spec fn step<P, C>(s: SwearState<P, C>, e: Event<P, C>) -> Transition<P, C> {
    match e {
        Event::Complete(v) => after_complete(s, v),
        Event::Register(c) => after_register(s, c),
    }
}

/// Runs a sequence of events from `s`: the final state, or the first fault,
/// together with every `(continuation, value)` pair released on the way.
pub open spec fn run_events<P, C>(s: SwearState<P, C>, es: Seq<Event<P, C>>) -> (
    Result<SwearState<P, C>, SwearFault>,
    Seq<(C, P)>,
)
    decreases es.len(),
{
    if es.len() == 0 {
        (Ok(s), Seq::empty())
    } else {
        match step(s, es[0]) {
            Err(f) => (Err(f), Seq::empty()),
            Ok((n, released)) => {
                let rest = run_events(n, es.drop_first());
                let here = match released {
                    Some(p) => seq![p],
                    None => Seq::empty(),
                };
                (rest.0, here + rest.1)
            },
        }
    }
}

/// Applies a value arriving to `s`. On a fault `s` is left as it was and
/// `v` is dropped.
pub fn complete_step<P, C>(s: &mut SwearState<P, C>, v: P) -> (r: Result<
    Option<(C, P)>,
    SwearFault,
>)
    ensures
        after_complete(*old(s), v) matches Ok((n, released)) ==> r == Ok::<
            Option<(C, P)>,
            SwearFault,
        >(released) && *final(s) == n,
        after_complete(*old(s), v) matches Err(f) ==> r == Err::<Option<(C, P)>, SwearFault>(f)
            && *final(s) == *old(s),
{
    let mut cur = SwearState::Empty;
    core::mem::swap(&mut cur, s);
    match cur {
        SwearState::Empty => {
            *s = SwearState::PendingCallback(v);
            Ok(None)
        },
        SwearState::PendingCompletion(c) => {
            *s = SwearState::Completed;
            Ok(Some((c, v)))
        },
        SwearState::PendingCallback(w) => {
            *s = SwearState::PendingCallback(w);
            Err(SwearFault::DoubleCompletionWithoutCallback)
        },
        SwearState::Completed => {
            *s = SwearState::Completed;
            Err(SwearFault::DoubleCompletion)
        },
    }
}

/// Applies a continuation being registered to `s`. On a fault `s` is left as
/// it was and `c` is dropped.
pub fn register_step<P, C>(s: &mut SwearState<P, C>, c: C) -> (r: Result<
    Option<(C, P)>,
    SwearFault,
>)
    ensures
        after_register(*old(s), c) matches Ok((n, released)) ==> r == Ok::<
            Option<(C, P)>,
            SwearFault,
        >(released) && *final(s) == n,
        after_register(*old(s), c) matches Err(f) ==> r == Err::<Option<(C, P)>, SwearFault>(f)
            && *final(s) == *old(s),
{
    let mut cur = SwearState::Empty;
    core::mem::swap(&mut cur, s);
    match cur {
        SwearState::Empty => {
            *s = SwearState::PendingCompletion(c);
            Ok(None)
        },
        SwearState::PendingCompletion(d) => {
            *s = SwearState::PendingCompletion(d);
            Err(SwearFault::DoubleCallbackWithoutCompletion)
        },
        SwearState::PendingCallback(v) => {
            *s = SwearState::Completed;
            Ok(Some((c, v)))
        },
        SwearState::Completed => {
            *s = SwearState::Completed;
            Err(SwearFault::DoubleCallback)
        },
    }
}

/// Completing first and registering second releases the same pair, and ends
/// in the same state, as registering first and completing second: the
/// continuation once, on the completed value.
pub proof fn lemma_order_independent<P, C>(v: P, c: C)
    ensures
        run_events(SwearState::Empty, seq![Event::Complete(v), Event::Register(c)])
            == run_events(SwearState::Empty, seq![Event::Register(c), Event::Complete(v)]),
        run_events(SwearState::Empty, seq![Event::Complete(v), Event::Register(c)])
            == (Ok::<SwearState<P, C>, SwearFault>(SwearState::Completed), seq![(c, v)]),
{
    reveal_with_fuel(run_events, 3);
    let a = seq![Event::Complete(v), Event::Register(c)];
    let b = seq![Event::Register(c), Event::Complete(v)];
    let e = Seq::<Event<P, C>>::empty();
    assert(a.drop_first() =~= seq![Event::Register(c)]);
    assert(b.drop_first() =~= seq![Event::Complete(v)]);
    assert(a.drop_first().drop_first() =~= e);
    assert(b.drop_first().drop_first() =~= e);
    let ra = run_events(SwearState::Empty, a);
    let rb = run_events(SwearState::Empty, b);
    assert(ra.1 =~= seq![(c, v)]);
    assert(rb.1 =~= seq![(c, v)]);
}

/// The values that the events deliver, in order.
pub open spec fn values_of<P, C>(es: Seq<Event<P, C>>) -> Seq<P>
    decreases es.len(),
{
    if es.len() == 0 {
        Seq::empty()
    } else {
        let rest = values_of(es.drop_first());
        match es[0] {
            Event::Complete(v) => seq![v] + rest,
            Event::Register(_) => rest,
        }
    }
}

/// The continuations that the events register, in order.
pub open spec fn callbacks_of<P, C>(es: Seq<Event<P, C>>) -> Seq<C>
    decreases es.len(),
{
    if es.len() == 0 {
        Seq::empty()
    } else {
        let rest = callbacks_of(es.drop_first());
        match es[0] {
            Event::Complete(_) => rest,
            Event::Register(c) => seq![c] + rest,
        }
    }
}

/// The value held by `s`, if it holds one.
pub open spec fn held_values<P, C>(s: SwearState<P, C>) -> Seq<P> {
    match s {
        SwearState::PendingCallback(v) => seq![v],
        _ => Seq::empty(),
    }
}

/// The continuation held by `s`, if it holds one.
pub open spec fn held_callbacks<P, C>(s: SwearState<P, C>) -> Seq<C> {
    match s {
        SwearState::PendingCompletion(c) => seq![c],
        _ => Seq::empty(),
    }
}

/// How many values `s` has already accepted (zero or one).
pub open spec fn values_seen<P, C>(s: SwearState<P, C>) -> int {
    match s {
        SwearState::PendingCallback(_) | SwearState::Completed => 1,
        _ => 0,
    }
}

/// How many continuations `s` has already accepted (zero or one).
pub open spec fn callbacks_seen<P, C>(s: SwearState<P, C>) -> int {
    match s {
        SwearState::PendingCompletion(_) | SwearState::Completed => 1,
        _ => 0,
    }
}

proof fn lemma_run_events<P, C>(s: SwearState<P, C>, es: Seq<Event<P, C>>)
    ensures
        ({
            let (end, released) = run_events(s, es);
            let vs = held_values(s) + values_of(es);
            let cs = held_callbacks(s) + callbacks_of(es);
            let nv = values_seen(s) + values_of(es).len();
            let nc = callbacks_seen(s) + callbacks_of(es).len();
            &&& released.len() + (if s is Completed { 1int } else { 0int }) <= 1
            &&& released.len() == 1 ==> vs.len() >= 1 && cs.len() >= 1 && released[0] == (
                cs[0],
                vs[0],
            )
            &&& (end is Ok <==> nv <= 1 && nc <= 1)
            &&& (end is Ok && nv == 1 && nc == 1 && !(s is Completed)) ==> released.len() == 1
        }),
    decreases es.len(),
{
    if es.len() > 0 {
        let tail = es.drop_first();
        lemma_run_events::<P, C>(SwearState::Completed, tail);
        match step(s, es[0]) {
            Err(_) => {},
            Ok((n, _)) => {
                lemma_run_events(n, tail);
                match es[0] {
                    Event::Complete(v) => {
                        assert(values_of(es) == seq![v] + values_of(tail));
                        assert((seq![v] + values_of(tail))[0] == v);
                    },
                    Event::Register(c) => {
                        assert(callbacks_of(es) == seq![c] + callbacks_of(tail));
                        assert((seq![c] + callbacks_of(tail))[0] == c);
                    },
                }
            },
        }
    }
}

/// Over any sequence of events on a fresh deferred value: at most one pair is
/// released; the events are accepted without a fault exactly when at most one
/// value and at most one continuation arrive; and when one of each arrives,
/// exactly one pair is released, the registered continuation with the
/// completed value.
pub proof fn lemma_exactly_once<P, C>(es: Seq<Event<P, C>>)
    ensures
        ({
            let (end, released) = run_events(SwearState::Empty, es);
            let vs = values_of(es);
            let cs = callbacks_of(es);
            &&& released.len() <= 1
            &&& (end is Ok <==> vs.len() <= 1 && cs.len() <= 1)
            &&& (end is Ok && vs.len() == 1 && cs.len() == 1) ==> released == seq![(cs[0], vs[0])]
            &&& (vs.len() == 0 || cs.len() == 0) ==> released.len() == 0
        }),
{
    lemma_run_events(SwearState::<P, C>::Empty, es);
    let released = run_events(SwearState::<P, C>::Empty, es).1;
    assert(held_values(SwearState::<P, C>::Empty) + values_of(es) =~= values_of(es));
    assert(held_callbacks(SwearState::<P, C>::Empty) + callbacks_of(es) =~= callbacks_of(es));
    if released.len() == 1 {
        assert(released =~= seq![released[0]]);
    }
}

/// A value arriving at a deferred value that has already accepted one is a
/// fault, and so is a continuation arriving at one that has already accepted
/// one.
pub proof fn lemma_fault_on_reuse<P, C>(s: SwearState<P, C>, v1: P, v2: P, c1: C, c2: C)
    ensures
        after_complete(s, v1) matches Ok((n, _)) ==> after_complete(n, v2) is Err,
        after_register(s, c1) matches Ok((n, _)) ==> after_register(n, c2) is Err,
{
}

} // verus!

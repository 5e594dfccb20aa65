//! Deferred values bound to a scheduler: a one-shot `Completer` that supplies
//! the value and a `Swear` that takes the continuation.
//!
//! The value and the continuation live in two slots. Only the completer
//! fills the value slot and only the swear fills the continuation slot, and
//! each handle is consumed by its one use, so neither side can arrive twice:
//! the faults of the state machine cannot occur through these handles.
use boxfnonce::BoxFnOnce;
use std::rc::Rc;
use vstd::cell::invcell::InvCell;
use vstd::predicate::Predicate;
use vstd::prelude::*;

use crate::boxed::{box_continuation, call_continuation};
use crate::schedule::Scheduler;
use crate::state::{complete_step, register_step, SwearState};

verus! {

/// Admits every content: a slot is either filled or not.
struct AnySlot;

impl<T> Predicate<T> for AnySlot {
    open spec fn predicate(&self, t: T) -> bool {
        true
    }
}

/// The slots shared by a completer and its swear, and the scheduler that
/// runs the continuation.
#[verifier::reject_recursive_types(P)]
struct SwearImpl<'a, P, S> where S: Scheduler<'a> {
    value: InvCell<Option<P>, AnySlot>,
    callback: InvCell<Option<BoxFnOnce<'a, (P,)>>, AnySlot>,
    scheduler: S,
}

impl<'a, P: 'a, S: 'a + Scheduler<'a>> SwearImpl<'a, P, S> {
    /// Takes the value; when a continuation waits, schedules it on `i`,
    /// otherwise stores `i` for the continuation to come.
    fn complete(&self, i: P) {
        // No value has arrived before: only the completer brings one.
        let mut st = match self.callback.replace(None) {
            Some(cb) => SwearState::PendingCompletion(cb),
            None => SwearState::Empty,
        };
        match complete_step(&mut st, i) {
            Ok(Some((cb, v))) => {
                self.scheduler.schedule(move || call_continuation(cb, v));
            },
            Ok(None) => {
                if let SwearState::PendingCallback(v) = st {
                    let _ = self.value.replace(Some(v));
                }
            },
            Err(_) => {
                proof {
                    assert(false);
                }
            },
        }
    }

    /// Takes the continuation; when a value waits, schedules `f` on it,
    /// otherwise stores `f` for the value to come.
    fn on_complete<F: 'a>(&self, f: F) where F: FnOnce(P)
        requires
            forall|p: P| f.requires((p,)),
    {
        // No continuation has arrived before: only the swear brings one.
        let mut st = match self.value.replace(None) {
            Some(v) => SwearState::PendingCallback(v),
            None => SwearState::Empty,
        };
        match register_step(&mut st, box_continuation(f)) {
            Ok(Some((cb, v))) => {
                self.scheduler.schedule(move || call_continuation(cb, v));
            },
            Ok(None) => {
                if let SwearState::PendingCompletion(cb) = st {
                    let _ = self.callback.replace(Some(cb));
                }
            },
            Err(_) => {
                proof {
                    assert(false);
                }
            },
        }
    }
}

/// The producing side of a deferred value; used once.
#[verifier::reject_recursive_types(P)]
pub struct Completer<'a, P, S> where S: Scheduler<'a> {
    s: Rc<SwearImpl<'a, P, S>>,
}

impl<'a, P: 'a, S: 'a + Scheduler<'a>> Completer<'a, P, S> {
    /// The scheduler that runs the continuation.
    pub closed spec fn scheduler(&self) -> S {
        self.s.scheduler
    }

    /// Supplies the value. The continuation, once registered, is scheduled
    /// on it; it never runs before this call returns.
    pub fn complete(self, i: P) {
        self.s.complete(i)
    }
}

/// The consuming side of a deferred value; takes one continuation.
#[verifier::reject_recursive_types(P)]
pub struct Swear<'a, P, S> where S: Scheduler<'a> {
    s: Rc<SwearImpl<'a, P, S>>,
}

impl<'a, P: 'a, S: 'a + Scheduler<'a>> Swear<'a, P, S> {
    /// `self` takes the continuation for the value that `c` supplies: the
    /// two handles share one deferred value.
    pub closed spec fn paired_with(&self, c: &Completer<'a, P, S>) -> bool {
        self.s == c.s
    }

    /// The scheduler that runs the continuation.
    pub closed spec fn scheduler(&self) -> S {
        self.s.scheduler
    }

    /// A deferred value, on the same scheduler, that completes with `f` of
    /// this one's value.
    pub fn map<F: 'a, R: 'a>(self, f: F) -> (r: Swear<'a, R, S>) where
        F: FnOnce(P) -> R,
        requires
            forall|p: P| f.requires((p,)),
        ensures
            cloned(self.scheduler(), r.scheduler()),
    {
        let (rc, rs) = make_swear(self.s.scheduler.clone());
        let newf = move |p: P|
            requires
                f.requires((p,)),
            { rc.complete(f(p)) };
        self.s.on_complete(newf);
        rs
    }

    /// A deferred value, on the same scheduler, that completes with the
    /// value of the deferred value that `f` returns on this one's value.
    pub fn and_then<F: 'a, R: 'a>(self, f: F) -> (r: Swear<'a, R, S>) where
        F: FnOnce(P) -> Swear<'a, R, S>,
        requires
            forall|p: P| f.requires((p,)),
        ensures
            cloned(self.scheduler(), r.scheduler()),
    {
        let (rc, rs) = make_swear(self.s.scheduler.clone());
        let newf = move |p: P|
            requires
                f.requires((p,)),
            {
                f(p).map(move |r: R| rc.complete(r));
            };
        self.s.on_complete(newf);
        rs
    }
}

/// A fresh deferred value on scheduler `s`: the completer, which supplies the
/// value, and the swear, which takes the continuation.
pub fn make_swear<'a, P, S: Scheduler<'a>>(s: S) -> (r: (Completer<'a, P, S>, Swear<'a, P, S>))
    ensures
        r.1.paired_with(&r.0),
        r.0.scheduler() == s,
        r.1.scheduler() == s,
{
    let sw = Rc::new(
        SwearImpl {
            value: InvCell::new(None, Ghost(AnySlot)),
            callback: InvCell::new(None, Ghost(AnySlot)),
            scheduler: s,
        },
    );
    (Completer { s: Rc::clone(&sw) }, Swear { s: sw })
}

} // verus!

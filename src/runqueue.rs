//! A FIFO channel with shareable senders, and the run queue built on it.
use boxfnonce::BoxFnOnce;
use std::collections::VecDeque;
use std::rc::Rc;
use vstd::cell::invcell::InvCell;
use vstd::predicate::Predicate;
use vstd::prelude::*;

use crate::boxed::{box_work, call_work};
use crate::schedule::Scheduler;

verus! {

/// Admits every buffer: the channel keeps no invariant beyond its type.
struct AnyQueue;

impl<T> Predicate<VecDeque<T>> for AnyQueue {
    open spec fn predicate(&self, q: VecDeque<T>) -> bool {
        true
    }
}

/// The producing end of a channel; clones push into the same buffer.
pub struct Sender<T> {
    buffer: Rc<InvCell<VecDeque<T>, AnyQueue>>,
}

impl<T> Sender<T> {
    /// `self` pushes into the buffer that `r` takes from.
    pub closed spec fn feeds(&self, r: &Reciever<T>) -> bool {
        self.buffer == r.buffer
    }

    /// `self` and `o` push into one buffer.
    pub closed spec fn same_buffer(&self, o: &Sender<T>) -> bool {
        self.buffer == o.buffer
    }

    /// Appends `t` at the tail of the shared buffer.
    pub fn send(&self, t: T) {
        let mut q = self.buffer.replace(VecDeque::new());
        q.push_back(t);
        let _ = self.buffer.replace(q);
    }
}

impl<T> Clone for Sender<T> {
    /// Another handle on the same buffer, not a copy of it.
    fn clone(&self) -> (r: Self)
        ensures
            r.same_buffer(self),
    {
        Sender { buffer: Rc::clone(&self.buffer) }
    }
}

/// The consuming end of a channel.
pub struct Reciever<T> {
    buffer: Rc<InvCell<VecDeque<T>, AnyQueue>>,
}

impl<T> Reciever<T> {
    /// Removes and returns the head of the shared buffer, or `None` when it is
    /// empty.
    pub fn recieve(&self) -> Option<T> {
        let mut q = self.buffer.replace(VecDeque::new());
        let r = q.pop_front();
        let _ = self.buffer.replace(q);
        r
    }
}

/// A fresh channel: a sender and a receiver over one new, empty buffer.
pub fn make_channel<T>() -> (r: (Sender<T>, Reciever<T>))
    ensures
        r.0.feeds(&r.1),
{
    let b = Rc::new(InvCell::new(VecDeque::new(), Ghost(AnyQueue)));
    (Sender { buffer: Rc::clone(&b) }, Reciever { buffer: b })
}

/// Schedules work onto a run queue; every clone feeds the same queue.
pub struct Queuer<'a> {
    sender: Sender<BoxFnOnce<'a, ()>>,
}

impl<'a> Queuer<'a> {
    /// `self` schedules onto the queue that `r` drains.
    pub closed spec fn feeds(&self, r: &Reactor<'a>) -> bool {
        self.sender.feeds(&r.receiver)
    }

    /// `self` and `o` schedule onto one queue.
    pub closed spec fn same_queue(&self, o: &Queuer<'a>) -> bool {
        self.sender.same_buffer(&o.sender)
    }
}

impl<'a> Clone for Queuer<'a> {
    /// Another scheduler for the same queue.
    fn clone(&self) -> (r: Self)
        ensures
            r.same_queue(self),
    {
        Queuer { sender: self.sender.clone() }
    }
}

impl<'a> Scheduler<'a> for Queuer<'a> {
    fn schedule<F: 'a>(&self, f: F) where F: FnOnce() {
        self.sender.send(box_work(f));
    }
}

/// Drains a run queue.
pub struct Reactor<'a> {
    receiver: Reciever<BoxFnOnce<'a, ()>>,
}

impl<'a> Reactor<'a> {
    /// Runs queued work in arrival order, including work that it schedules,
    /// until the queue is empty.
    ///
    /// The loop is counted so that it provably ends: it stops after
    /// `u64::MAX` items, a number that no run reaches in practice.
    pub fn run(&self) {
        let mut left: u64 = u64::MAX;
        while left > 0
            decreases left,
        {
            match self.receiver.recieve() {
                Some(w) => call_work(w),
                None => break,
            }
            left = left - 1;
        }
    }
}

/// A fresh run queue: a scheduler for it and the reactor that drains it.
pub fn make_runqueue<'a>() -> (r: (Queuer<'a>, Reactor<'a>))
    ensures
        r.0.feeds(&r.1),
{
    let (sdr, rcv) = make_channel::<BoxFnOnce<'a, ()>>();
    (Queuer { sender: sdr }, Reactor { receiver: rcv })
}

/// A model of draining, not a contract of `Reactor::run`, which cannot see
/// what the work it runs does: the work that the items of `q` schedule when
/// they run, in the order in which they run, where `spawn(w)` is what `w`
/// schedules.
pub open spec fn spawned_by<W>(q: Seq<W>, spawn: spec_fn(W) -> Seq<W>) -> Seq<W>
    decreases q.len(),
{
    if q.len() == 0 {
        Seq::empty()
    } else {
        spawn(q[0]) + spawned_by(q.drop_first(), spawn)
    }
}

/// A model of draining, not a contract of `Reactor::run`: the order in which
/// the first `steps` items execute when the queue holds `q`. The head runs,
/// and what it schedules joins the tail.
pub open spec fn drain_order<W>(q: Seq<W>, spawn: spec_fn(W) -> Seq<W>, steps: nat) -> Seq<W>
    decreases steps,
{
    if steps == 0 || q.len() == 0 {
        Seq::empty()
    } else {
        seq![q[0]] + drain_order(q.drop_first() + spawn(q[0]), spawn, (steps - 1) as nat)
    }
}

/// In the model of draining: a run executes what is queued first, in the
/// order in which it was queued, and only then the work that those items
/// scheduled, in the order in which they scheduled it, behind whatever
/// already waited.
pub proof fn lemma_drain_fifo<W>(q: Seq<W>, r: Seq<W>, spawn: spec_fn(W) -> Seq<W>, steps: nat)
    requires
        q.len() <= steps,
    ensures
        drain_order(q + r, spawn, steps) == q + drain_order(
            r + spawned_by(q, spawn),
            spawn,
            (steps - q.len()) as nat,
        ),
    decreases q.len(),
{
    if q.len() == 0 {
        assert(q + r =~= r);
        assert(r + spawned_by(q, spawn) =~= r);
        assert(q + drain_order(r, spawn, steps) =~= drain_order(r, spawn, steps));
    } else {
        let t = q.drop_first();
        let r2 = r + spawn(q[0]);
        assert((q + r).drop_first() + spawn(q[0]) =~= t + r2);
        assert((q + r)[0] == q[0]);
        lemma_drain_fifo(t, r2, spawn, (steps - 1) as nat);
        assert(r2 + spawned_by(t, spawn) =~= r + spawned_by(q, spawn));
        assert(seq![q[0]] + (t + drain_order(
            r + spawned_by(q, spawn),
            spawn,
            (steps - q.len()) as nat,
        )) =~= q + drain_order(r + spawned_by(q, spawn), spawn, (steps - q.len()) as nat));
    }
}

} // verus!

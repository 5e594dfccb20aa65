use std::cell::RefCell;

use swear::runqueue::{make_runqueue, Queuer, Reactor};
use swear::schedule::Scheduler;
use swear::state::{complete_step, register_step, SwearFault, SwearState};
use swear::{make_swear, Swear};

#[test]
fn try_int_swear() {
    let i = RefCell::new(0);
    let (q, reactor) = make_runqueue();
    let (sr, se) = make_swear(q.clone());
    let (sr2, se2) = make_swear(q.clone());
    q.schedule(|| *i.borrow_mut() += 1);
    sr2.complete(100);
    se.map(|x| {
        *i.borrow_mut() += x;
        1000
    })
    .map(|x| {
        *i.borrow_mut() += x;
        "cat"
    })
    .map(|s| {
        if s == "cat" {
            *i.borrow_mut() += 10000
        }
    });
    se2.map(|x| *i.borrow_mut() += x);
    sr.complete(10);
    reactor.run();
    assert_eq!(11111, *i.borrow());
}

#[test]
fn try_int_swear_with_continuation() {
    let i = RefCell::new(0);
    let (q, reactor) = make_runqueue();
    let (sr, se) = make_swear(q.clone());
    let (sr2, se2) = make_swear(q.clone());
    q.schedule(|| *i.borrow_mut() += 1);
    sr2.complete(50);
    se.and_then(|x| {
        *i.borrow_mut() += x;
        se2
    })
    .map(|x| {
        *i.borrow_mut() += x;
        "cat"
    })
    .map(|s| {
        if s == "cat" {
            *i.borrow_mut() += 10000
        }
    });
    sr.complete(10);
    reactor.run();
    assert_eq!(10061, *i.borrow());
}

#[derive(Clone)]
struct Runner<'a> {
    q: Queuer<'a>,
}

impl<'a> Runner<'a> {
    fn make() -> (Runner<'a>, Reactor<'a>) {
        let (q, r) = make_runqueue();
        (Runner { q }, r)
    }

    // Stands for a remote call that answers `va` later.
    fn make_value_swear<V: 'a>(&self, va: V) -> Swear<'a, V, Queuer<'a>> {
        let (c, s) = make_swear(self.q.clone());
        self.q.schedule(move || {
            c.complete(va);
        });
        s
    }
}

#[test]
fn simple_usage() {
    let (r, rea) = Runner::make();
    r.make_value_swear(2).map(|x| assert_eq!(x, 2));
    rea.run();
}

#[test]
fn chained_rpcs() {
    let (r, rea) = Runner::make();
    let rr = r.clone();
    r.make_value_swear(2)
        .and_then(move |x| rr.make_value_swear(x + 2))
        .map(|x| assert_eq!(x, 4));
    rea.run();
}

#[test]
fn complete_before_and_after_registering_agree() {
    let early = RefCell::new(0);
    let late = RefCell::new(0);
    let (q, reactor) = make_runqueue();
    let (c1, s1) = make_swear(q.clone());
    c1.complete(7);
    s1.map(|x| *early.borrow_mut() += x);
    let (c2, s2) = make_swear(q.clone());
    s2.map(|x| *late.borrow_mut() += x);
    c2.complete(7);
    reactor.run();
    assert_eq!(7, *early.borrow());
    assert_eq!(7, *late.borrow());
}

#[test]
fn continuation_waits_for_the_reactor() {
    let i = RefCell::new(0);
    let (q, reactor) = make_runqueue();
    let (c, s) = make_swear(q.clone());
    s.map(|x| *i.borrow_mut() += x);
    c.complete(5);
    assert_eq!(0, *i.borrow());
    reactor.run();
    assert_eq!(5, *i.borrow());
    reactor.run();
    assert_eq!(5, *i.borrow());
}

#[test]
fn and_then_yields_inner_payload() {
    let got = RefCell::new(String::new());
    let (q, reactor) = make_runqueue();
    let (c1, s1) = make_swear(q.clone());
    let (c2, s2) = make_swear::<String, _>(q.clone());
    s1.and_then(move |_: u32| s2)
        .map(|s: String| *got.borrow_mut() = s);
    c1.complete(1);
    reactor.run();
    assert_eq!("", *got.borrow());
    c2.complete(String::from("inner"));
    reactor.run();
    assert_eq!("inner", *got.borrow());
}

#[test]
fn step_complete_then_register() {
    let mut s: SwearState<u32, &str> = SwearState::Empty;
    assert_eq!(Ok(None), complete_step(&mut s, 10));
    assert!(matches!(s, SwearState::PendingCallback(10)));
    assert_eq!(Ok(Some(("k", 10))), register_step(&mut s, "k"));
    assert!(matches!(s, SwearState::Completed));
}

#[test]
fn step_register_then_complete() {
    let mut s: SwearState<u32, &str> = SwearState::Empty;
    assert_eq!(Ok(None), register_step(&mut s, "k"));
    assert!(matches!(s, SwearState::PendingCompletion("k")));
    assert_eq!(Ok(Some(("k", 10))), complete_step(&mut s, 10));
    assert!(matches!(s, SwearState::Completed));
}

#[test]
fn step_faults_on_reuse() {
    let mut s: SwearState<u32, &str> = SwearState::Empty;
    complete_step(&mut s, 1).unwrap();
    assert_eq!(Err(SwearFault::DoubleCompletionWithoutCallback), complete_step(&mut s, 2));
    assert!(matches!(s, SwearState::PendingCallback(1)));
    register_step(&mut s, "a").unwrap();
    assert_eq!(Err(SwearFault::DoubleCompletion), complete_step(&mut s, 3));
    assert_eq!(Err(SwearFault::DoubleCallback), register_step(&mut s, "b"));
    assert!(matches!(s, SwearState::Completed));

    let mut t: SwearState<u32, &str> = SwearState::Empty;
    register_step(&mut t, "a").unwrap();
    assert_eq!(Err(SwearFault::DoubleCallbackWithoutCompletion), register_step(&mut t, "b"));
    assert!(matches!(t, SwearState::PendingCompletion("a")));
}

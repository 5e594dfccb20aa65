//! Type-erased one-shot closures, as provided by the `boxfnonce` crate.
use boxfnonce::BoxFnOnce;
use vstd::prelude::*;

verus! {

#[verifier::external_type_specification]
#[verifier::external_body]
#[verifier::reject_recursive_types(A)]
#[verifier::reject_recursive_types(R)]
pub struct ExBoxFnOnce<'a, A, R>(BoxFnOnce<'a, A, R>);

/// Relies on `BoxFnOnce::from` (zero arguments): boxes `f` behind a uniform
/// type so that work of any closure type can share one queue. Only work
/// that can run as it stands is boxed, so running a box needs no check.
#[verifier::external_body]
pub(crate) fn box_work<'a, F: 'a + FnOnce()>(f: F) -> BoxFnOnce<'a, ()>
    requires
        f.requires(()),
{
    BoxFnOnce::from(f)
}

/// Relies on `BoxFnOnce::call` (zero arguments): runs the boxed work once.
#[verifier::external_body]
pub(crate) fn call_work<'a>(w: BoxFnOnce<'a, ()>) {
    w.call()
}

/// Relies on `BoxFnOnce::from` (one argument): boxes a continuation so that
/// a deferred value can store it whatever its closure type. Only a
/// continuation that accepts every payload is boxed.
#[verifier::external_body]
pub(crate) fn box_continuation<'a, P, F: 'a + FnOnce(P)>(f: F) -> BoxFnOnce<'a, (P,)>
    requires
        forall|p: P| f.requires((p,)),
{
    BoxFnOnce::from(f)
}

/// Relies on `BoxFnOnce::call` (one argument): runs the boxed continuation
/// once on `p`.
#[verifier::external_body]
pub(crate) fn call_continuation<'a, P>(c: BoxFnOnce<'a, (P,)>, p: P) {
    c.call(p)
}

} // verus!

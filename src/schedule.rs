//! The capability to run a piece of work later.
use vstd::prelude::*;

verus! {

/// Schedules a one-shot piece of work for later execution, generally at the
/// end of the current run queue; never runs it before `schedule` returns.
///
/// Deferring work this way is akin to yielding to other green threads, and it
/// keeps stack depth in check when continuations chain.
pub trait Scheduler<'a>: Clone {
    /// `f` must be callable as it stands: nothing checks it when it runs.
    fn schedule<F: 'a>(&self, f: F) where F: FnOnce()
        requires
            f.requires(()),
    ;
}

} // verus!

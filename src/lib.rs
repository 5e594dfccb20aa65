//! Deferred values ("swears") whose continuations run through a cooperative,
//! single-threaded run queue instead of being called inline.
mod boxed;
pub mod runqueue;
pub mod schedule;
pub mod state;
mod swear;

pub use swear::{make_swear, Completer, Swear};

//! The task-poll protocol: one call that either hands out the final value or
//! says that the value is not there yet.
use core::task::Context;
use vstd::prelude::*;

verus! {

/// Declares std's `core::task::Context`, the wake handle that a driver hands
/// to each poll, as an opaque type. Adapters only pass it on to the value
/// they poll; nothing here looks inside it or relies on what it does.
#[verifier::external_type_specification]
#[verifier::external_body]
pub struct ExContext<'a>(Context<'a>);

/// The outcome of one poll.
#[derive(Debug, PartialEq, Eq)]
pub enum Poll<T> {
    /// The value has been produced.
    Ready(T),
    /// Not ready yet; the wake handle will be invoked once progress is possible.
    Pending,
}

impl<T> Poll<T> {
    pub fn is_ready(&self) -> (r: bool)
        ensures
            r == (self is Ready),
    {
        match self {
            Poll::Ready(_) => true,
            Poll::Pending => false,
        }
    }

    pub fn is_pending(&self) -> (r: bool)
        ensures
            r == (self is Pending),
    {
        match self {
            Poll::Ready(_) => false,
            Poll::Pending => true,
        }
    }
}

} // verus!

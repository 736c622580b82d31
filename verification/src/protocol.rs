//! How a decision function talks to the driver that owns the filesystem.

use vstd::prelude::*;

verus! {

/// What a decision function tells its driver: either the one thing to do
/// next, or the result.
///
/// The driver does what `Next` names, records what came of it, and asks
/// again, until it is handed `Done`.
#[derive(Debug, PartialEq, Eq)]
pub enum Step<T, R> {
    /// The driver is to do this and ask again.
    Next(T),
    /// Nothing is left to do; this is the result.
    Done(R),
}

/// What a driver has recorded of one thing that it may be asked to do.
#[derive(Debug, PartialEq, Eq)]
pub enum Observed<T> {
    /// It was not done yet.
    NotYet,
    /// It was done, and this came of it.
    Seen(T),
    /// It was tried and failed. The driver keeps the error.
    Failed,
}

impl<T> Observed<T> {
    /// Whether nothing was recorded yet.
    pub open spec fn is_open(self) -> bool {
        self is NotYet
    }
}

} // verus!

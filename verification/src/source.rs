//! Events and outcomes shared by the dispatch core.

use vstd::prelude::*;

verus! {

/// One poll of an asynchronous producer: it may suspend, resolve with a
/// value, or fail with an error. A producer resolves at most once; after
/// that it must not be polled again.
#[derive(Debug, PartialEq, Eq)]
pub enum SourcePoll<T, E> {
    Suspend,
    Ready(T),
    Failed(E),
}

/// Readiness reported by a join participant after a drive step.
#[derive(Debug, PartialEq, Eq, Clone, Copy)]
pub enum Readiness {
    Suspend,
    Ready,
}

/// The distinguished signal for a unit of work that terminated abruptly
/// (a panic-equivalent), rather than returning normally.
#[derive(Debug, PartialEq, Eq, Clone, Copy)]
pub struct AbruptFailure;

/// Terminal errors surfaced by an operation.
#[derive(Debug, PartialEq, Eq)]
pub enum CoreError<E> {
    /// One of the two input sources failed; the error is propagated.
    Input(E),
    /// The chosen strategy could not relocate or run the work.
    Dispatch,
    /// The relocated work terminated abruptly instead of returning.
    Abrupt,
}

} // verus!

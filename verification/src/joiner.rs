//! A joiner wraps one asynchronous producer and enforces single-drive,
//! single-read semantics: once the producer has resolved it is never
//! consulted again, and the resolved value can be extracted at most once.

use vstd::prelude::*;

use crate::source::{Readiness, SourcePoll};

verus! {

/// The lifecycle of one joined input.
#[derive(Debug, PartialEq, Eq)]
pub enum Joiner<T, E> {
    /// The producer has not resolved yet and must be polled.
    Pending,
    /// The producer resolved with a value, held until it is taken.
    Done(T),
    /// The producer failed; the error is retained so the join point can
    /// surface it.
    Failed(E),
    /// The held value or error has been extracted; nothing remains.
    Consumed,
}

impl<T, E> Joiner<T, E> {
    /// The producer must be consulted exactly in this state.
    pub open spec fn wants_producer_spec(self) -> bool {
        self is Pending
    }

    /// State after one drive step that observed `produced` from the
    /// producer. Outside `Pending` the report is ignored.
    pub open spec fn poll_ready_next(self, produced: SourcePoll<T, E>) -> Joiner<T, E> {
        if self is Pending {
            match produced {
                SourcePoll::Suspend => Joiner::Pending,
                SourcePoll::Ready(v) => Joiner::Done(v),
                SourcePoll::Failed(e) => Joiner::Failed(e),
            }
        } else {
            self
        }
    }

    /// Readiness reported by one drive step: only a still-suspended
    /// producer keeps the joiner unready.
    pub open spec fn poll_ready_result(self, produced: SourcePoll<T, E>) -> Readiness {
        if self is Pending && produced is Suspend {
            Readiness::Suspend
        } else {
            Readiness::Ready
        }
    }

    /// What `take` yields: the held value, exactly when the joiner is
    /// `Done`.
    pub open spec fn take_result(self) -> Option<T> {
        match self {
            Joiner::Done(v) => Some(v),
            _ => None,
        }
    }

    /// What `take_failure` yields: the retained error, exactly when the
    /// joiner is `Failed`.
    pub open spec fn take_failure_result(self) -> Option<E> {
        match self {
            Joiner::Failed(e) => Some(e),
            _ => None,
        }
    }

    /// State after any extraction: nothing can ever be read again.
    pub open spec fn take_next(self) -> Joiner<T, E> {
        Joiner::Consumed
    }

    /// A fresh joiner for a producer that has not been polled.
    pub fn new() -> (r: Self)
        ensures
            r == Joiner::<T, E>::Pending,
    {
        Joiner::Pending
    }

    /// Whether the driver must poll the underlying producer before the next
    /// drive step. `false` once the producer has resolved or failed: polling
    /// it again would violate its at-most-once resolution.
    pub fn wants_producer(&self) -> (r: bool)
        ensures
            r == self.wants_producer_spec(),
    {
        match self {
            Joiner::Pending => true,
            _ => false,
        }
    }

    /// One drive step. `produced` is the producer's poll outcome, obtained
    /// by the driver only when `wants_producer()` holds; in any other state
    /// the step is an idempotent no-op that reports readiness at once.
    ///
    /// Driving a joiner whose content was already extracted is a caller
    /// error and is excluded here.
    pub fn poll_ready(&mut self, produced: SourcePoll<T, E>) -> (r: Readiness)
        requires
            !((*old(self)) is Consumed),
        ensures
            *final(self) == old(self).poll_ready_next(produced),
            r == old(self).poll_ready_result(produced),
    {
        let pending = match self {
            Joiner::Pending => true,
            _ => false,
        };
        if pending {
            match produced {
                SourcePoll::Suspend => Readiness::Suspend,
                SourcePoll::Ready(v) => {
                    *self = Joiner::Done(v);
                    Readiness::Ready
                },
                SourcePoll::Failed(e) => {
                    *self = Joiner::Failed(e);
                    Readiness::Ready
                },
            }
        } else {
            Readiness::Ready
        }
    }

    /// Extract the resolved value. Returns it exactly once: afterwards the
    /// joiner is `Consumed` and every further extraction yields `None`.
    pub fn take(&mut self) -> (r: Option<T>)
        ensures
            r == old(self).take_result(),
            *final(self) == old(self).take_next(),
    {
        let mut prev = Joiner::Consumed;
        core::mem::swap(self, &mut prev);
        match prev {
            Joiner::Done(v) => Some(v),
            _ => None,
        }
    }

    /// Extract the retained error, exactly once, by the same rule as
    /// `take`.
    pub fn take_failure(&mut self) -> (r: Option<E>)
        ensures
            r == old(self).take_failure_result(),
            *final(self) == old(self).take_next(),
    {
        let mut prev = Joiner::Consumed;
        core::mem::swap(self, &mut prev);
        match prev {
            Joiner::Failed(e) => Some(e),
            _ => None,
        }
    }
}

/// Single extraction: whatever state a joiner is in, after one extraction
/// no further extraction yields anything — a value is never handed out
/// twice.
pub proof fn lemma_single_extraction<T, E>(j: Joiner<T, E>)
    ensures
        j.take_next().take_result() is None,
        j.take_next().take_failure_result() is None,
{
}

/// No double poll after completion: once the producer has resolved or
/// failed, a drive step neither changes the joiner nor depends on what the
/// producer would have reported, so the producer need never be polled
/// again.
pub proof fn lemma_no_poll_after_completion<T, E>(
    j: Joiner<T, E>,
    p1: SourcePoll<T, E>,
    p2: SourcePoll<T, E>,
)
    requires
        !j.wants_producer_spec(),
    ensures
        j.poll_ready_next(p1) == j,
        j.poll_ready_result(p1) == j.poll_ready_result(p2),
        j.poll_ready_result(p1) == Readiness::Ready,
{
}

} // verus!

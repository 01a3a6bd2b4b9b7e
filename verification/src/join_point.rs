//! A join point combines two joiners — the application context and the
//! inbound request — into a single readiness gate: ready only when both
//! inputs are ready, and short-circuiting on the first failure.
//!
//! The context is always driven first; while it is unresolved the request
//! source is not consulted, and once the context has failed the request
//! source is never driven again. On simultaneous availability of two
//! errors the context error wins. This order is fixed and part of the
//! contract.

use vstd::prelude::*;

use crate::joiner::Joiner;
use crate::source::SourcePoll;

verus! {

/// What the driver must do next to advance a join point.
#[derive(Debug, PartialEq, Eq, Clone, Copy)]
pub enum JoinAction {
    /// Poll the context source and report its outcome.
    PollContext,
    /// Poll the request source and report its outcome.
    PollRequest,
    /// Both inputs are settled: the join point can be resolved.
    Ready,
}

/// The pair of joined inputs.
#[derive(Debug, PartialEq, Eq)]
pub struct JoinPoint<C, R, E> {
    /// The application context input, driven first.
    pub context: Joiner<C, E>,
    /// The inbound request input, driven only after the context is done.
    pub request: Joiner<R, E>,
}

impl<C, R, E> JoinPoint<C, R, E> {
    /// The drive order: context first; a failed context makes the join
    /// ready at once, abandoning the request source.
    pub open spec fn action_spec(self) -> JoinAction {
        if self.context is Pending {
            JoinAction::PollContext
        } else if self.context is Failed {
            JoinAction::Ready
        } else if self.request is Pending {
            JoinAction::PollRequest
        } else {
            JoinAction::Ready
        }
    }

    /// A ready join point that still holds its outcome: either both values
    /// or a retained error.
    pub open spec fn can_resolve(self) -> bool {
        ||| self.context is Failed
        ||| (self.context is Done && (self.request is Done || self.request is Failed))
    }

    /// The joined outcome: the context error if the context failed,
    /// otherwise the request error if the request failed, otherwise both
    /// values.
    pub open spec fn resolve_result(self) -> Result<(C, R), E> {
        match self.context {
            Joiner::Failed(e) => Err(e),
            _ => match self.request {
                Joiner::Failed(e) => Err(e),
                _ => match (self.context, self.request) {
                    (Joiner::Done(c), Joiner::Done(r)) => Ok((c, r)),
                    _ => Err(arbitrary()),
                },
            },
        }
    }

    /// A fresh join point with both inputs unresolved.
    pub fn new() -> (r: Self)
        ensures
            r.context == Joiner::<C, E>::Pending,
            r.request == Joiner::<R, E>::Pending,
    {
        JoinPoint { context: Joiner::new(), request: Joiner::new() }
    }

    /// The next step the driver must perform.
    pub fn next_action(&self) -> (r: JoinAction)
        ensures
            r == self.action_spec(),
    {
        if self.context.wants_producer() {
            JoinAction::PollContext
        } else {
            let context_failed = match &self.context {
                Joiner::Failed(_) => true,
                _ => false,
            };
            if context_failed {
                JoinAction::Ready
            } else if self.request.wants_producer() {
                JoinAction::PollRequest
            } else {
                JoinAction::Ready
            }
        }
    }

    /// Apply one poll outcome of the context source.
    pub fn poll_context(&mut self, produced: SourcePoll<C, E>)
        requires
            old(self).action_spec() == JoinAction::PollContext,
        ensures
            final(self).context == old(self).context.poll_ready_next(produced),
            final(self).request == old(self).request,
    {
        let _ = self.context.poll_ready(produced);
    }

    /// Apply one poll outcome of the request source.
    pub fn poll_request(&mut self, produced: SourcePoll<R, E>)
        requires
            old(self).action_spec() == JoinAction::PollRequest,
        ensures
            final(self).request == old(self).request.poll_ready_next(produced),
            final(self).context == old(self).context,
    {
        let _ = self.request.poll_ready(produced);
    }

    /// Extract the joined outcome, exactly once: both joiners are consumed
    /// by this call.
    pub fn resolve(&mut self) -> (r: Result<(C, R), E>)
        requires
            old(self).can_resolve(),
        ensures
            r == old(self).resolve_result(),
            final(self).context == old(self).context.take_next(),
            final(self).request == old(self).request.take_next(),
    {
        let context_failed = match &self.context {
            Joiner::Failed(_) => true,
            _ => false,
        };
        if context_failed {
            let e = match self.context.take_failure() {
                Some(e) => e,
                None => unreached(),
            };
            let _ = self.request.take();
            Err(e)
        } else {
            let c = match self.context.take() {
                Some(c) => c,
                None => unreached(),
            };
            let request_failed = match &self.request {
                Joiner::Failed(_) => true,
                _ => false,
            };
            if request_failed {
                let e = match self.request.take_failure() {
                    Some(e) => e,
                    None => unreached(),
                };
                Err(e)
            } else {
                let r = match self.request.take() {
                    Some(r) => r,
                    None => unreached(),
                };
                Ok((c, r))
            }
        }
    }
}

/// Join short-circuit: once the context source has failed, the join point
/// never asks for the request source again, and resolving surfaces the
/// context error alone — whatever state the request input is in.
pub proof fn lemma_join_short_circuit<C, R, E>(jp: JoinPoint<C, R, E>, e: E)
    requires
        jp.context == Joiner::<C, E>::Failed(e),
    ensures
        jp.action_spec() != JoinAction::PollRequest,
        jp.action_spec() == JoinAction::Ready,
        jp.resolve_result() == Err::<(C, R), E>(e),
{
}

} // verus!

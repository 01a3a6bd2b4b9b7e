//! The awaiting side of a relocated unit of work.
//!
//! When a dispatch strategy moves the execute step to another execution
//! context, the worker's wrapper catches any abrupt termination of the
//! work and sends exactly one report over a one-shot channel. The task
//! handle turns the receiver's observations into the operation's view:
//! a normal result, or an observable `AbruptFailure` — never a silent
//! hang, even when the channel closed without a report.

use vstd::prelude::*;

use crate::oneshot::ChannelPoll;
use crate::source::{AbruptFailure, SourcePoll};

verus! {

/// The single report a relocated unit of work sends back.
#[derive(Debug, PartialEq, Eq)]
pub enum WorkResult<T> {
    /// The work returned normally.
    Finished(T),
    /// The work terminated abruptly; the failure was intercepted by the
    /// worker's wrapper instead of tearing the worker down silently.
    Panicked,
}

/// The awaiter of one relocated unit of work.
#[derive(Debug, PartialEq, Eq)]
pub struct TaskHandle {
    /// True until a terminal report has been observed; a settled handle is
    /// never polled again.
    pub awaiting: bool,
}

impl TaskHandle {
    /// How one channel observation resolves: a delivered result passes
    /// through; an intercepted abrupt termination, or a channel that
    /// closed without any report, surfaces as `AbruptFailure`.
    pub open spec fn poll_outcome<T>(msg: ChannelPoll<WorkResult<T>>) -> SourcePoll<
        T,
        AbruptFailure,
    > {
        match msg {
            ChannelPoll::Pending => SourcePoll::Suspend,
            ChannelPoll::Delivered(WorkResult::Finished(t)) => SourcePoll::Ready(t),
            ChannelPoll::Delivered(WorkResult::Panicked) => SourcePoll::Failed(AbruptFailure),
            ChannelPoll::Closed => SourcePoll::Failed(AbruptFailure),
        }
    }

    /// A handle awaiting its work's report.
    pub fn new() -> (r: Self)
        ensures
            r.awaiting,
    {
        TaskHandle { awaiting: true }
    }

    /// Observe one poll of the channel. Resolution is terminal: after a
    /// non-`Pending` observation the handle is settled and must not be
    /// polled again.
    pub fn poll<T>(&mut self, msg: ChannelPoll<WorkResult<T>>) -> (r: SourcePoll<
        T,
        AbruptFailure,
    >)
        requires
            old(self).awaiting,
        ensures
            r == Self::poll_outcome(msg),
            final(self).awaiting == (msg is Pending),
    {
        match msg {
            ChannelPoll::Pending => SourcePoll::Suspend,
            ChannelPoll::Delivered(WorkResult::Finished(t)) => {
                self.awaiting = false;
                SourcePoll::Ready(t)
            },
            ChannelPoll::Delivered(WorkResult::Panicked) => {
                self.awaiting = false;
                SourcePoll::Failed(AbruptFailure)
            },
            ChannelPoll::Closed => {
                self.awaiting = false;
                SourcePoll::Failed(AbruptFailure)
            },
        }
    }
}

/// Panic containment: every terminal channel observation resolves the
/// handle — an intercepted abrupt termination and a channel closed
/// without a report both surface as `AbruptFailure`, and a normal result
/// passes through; none of them leaves the awaiter suspended.
pub proof fn lemma_panic_containment<T>(msg: ChannelPoll<WorkResult<T>>)
    requires
        !(msg is Pending),
    ensures
        !(TaskHandle::poll_outcome(msg) is Suspend),
        msg == ChannelPoll::Delivered(WorkResult::<T>::Panicked) ==> TaskHandle::poll_outcome(msg)
            == SourcePoll::<T, AbruptFailure>::Failed(AbruptFailure),
        msg is Closed ==> TaskHandle::poll_outcome(msg) == SourcePoll::<
            T,
            AbruptFailure,
        >::Failed(AbruptFailure),
        forall|t: T|
            msg == ChannelPoll::Delivered(WorkResult::Finished(t)) ==> TaskHandle::poll_outcome(
                msg,
            ) == SourcePoll::<T, AbruptFailure>::Ready(t),
{
}

} // verus!

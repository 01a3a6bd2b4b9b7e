//! The orchestrating operation: the state machine that sequences one
//! request from two unresolved inputs to a terminal response.
//!
//! It drives the join point to completion, extracts the joined inputs
//! exactly once, hands them to the configured dispatch strategy, and
//! surfaces the final response or error. The machine owns every decision;
//! a driver owns the real producers, pool and spawner, performs the action
//! the machine asks for, and reports the outcome back.

use vstd::prelude::*;

use crate::join_point::{JoinAction, JoinPoint};
use crate::oneshot::ChannelPoll;
use crate::source::{CoreError, SourcePoll};
use crate::strategy::{BlockingPoll, Strategy};
use crate::task_handle::{TaskHandle, WorkResult};

verus! {

/// Where an operation stands.
#[derive(Debug, PartialEq, Eq)]
pub enum OpState<C, R, T, E> {
    /// Driving the join point until both inputs are settled.
    AwaitingInputs(JoinPoint<C, R, E>),
    /// Both inputs extracted and held, the dispatch not yet begun.
    Dispatching(C, R),
    /// The work was handed to the strategy; awaiting its completion.
    AwaitingDispatch,
    /// The outcome is decided and can be taken.
    Terminal(Result<T, CoreError<E>>),
}

/// What the driver must do next to advance an operation.
#[derive(Debug, PartialEq, Eq, Clone, Copy)]
pub enum OpAction {
    /// Poll the context source and report its outcome.
    PollContext,
    /// Poll the request source and report its outcome.
    PollRequest,
    /// Both inputs are settled: extract them.
    ExtractInputs,
    /// Hand the held inputs to the configured strategy.
    Dispatch,
    /// Await the strategy's completion signal and report it.
    AwaitDispatch,
    /// The outcome is ready to be taken.
    Complete,
}

/// One request-execution operation.
#[derive(Debug, PartialEq, Eq)]
pub struct Operation<C, R, T, E> {
    /// The dispatch policy fixed at construction.
    pub strategy: Strategy,
    /// The current stage.
    pub state: OpState<C, R, T, E>,
}

impl<C, R, T, E> Operation<C, R, T, E> {
    /// The next step a driver must perform.
    pub open spec fn action_spec(self) -> OpAction {
        match self.state {
            OpState::AwaitingInputs(jp) => match jp.action_spec() {
                JoinAction::PollContext => OpAction::PollContext,
                JoinAction::PollRequest => OpAction::PollRequest,
                JoinAction::Ready => OpAction::ExtractInputs,
            },
            OpState::Dispatching(_, _) => OpAction::Dispatch,
            OpState::AwaitingDispatch => OpAction::AwaitDispatch,
            OpState::Terminal(_) => OpAction::Complete,
        }
    }

    /// State after one poll outcome of the context source.
    pub open spec fn poll_context_next(self, produced: SourcePoll<C, E>) -> Self {
        match self.state {
            OpState::AwaitingInputs(jp) => Operation {
                strategy: self.strategy,
                state: OpState::AwaitingInputs(
                    JoinPoint { context: jp.context.poll_ready_next(produced), ..jp },
                ),
            },
            _ => self,
        }
    }

    /// State after one poll outcome of the request source.
    pub open spec fn poll_request_next(self, produced: SourcePoll<R, E>) -> Self {
        match self.state {
            OpState::AwaitingInputs(jp) => Operation {
                strategy: self.strategy,
                state: OpState::AwaitingInputs(
                    JoinPoint { request: jp.request.poll_ready_next(produced), ..jp },
                ),
            },
            _ => self,
        }
    }

    /// State after extracting the joined inputs: on an input error the
    /// operation is terminal at once; otherwise it holds both values and
    /// is ready to dispatch.
    pub open spec fn extract_next(self) -> Self {
        match self.state {
            OpState::AwaitingInputs(jp) => match jp.resolve_result() {
                Ok((c, r)) => Operation {
                    strategy: self.strategy,
                    state: OpState::Dispatching(c, r),
                },
                Err(e) => Operation {
                    strategy: self.strategy,
                    state: OpState::Terminal(Err(CoreError::Input(e))),
                },
            },
            _ => self,
        }
    }

    /// State after the execute step produced `t` — shared by every
    /// strategy's completion path.
    pub open spec fn executed_next(self, t: T) -> Self {
        Operation { strategy: self.strategy, state: OpState::Terminal(Ok(t)) }
    }

    /// State after the held inputs were handed out for relocation.
    pub open spec fn relocation_next(self) -> Self {
        Operation { strategy: self.strategy, state: OpState::AwaitingDispatch }
    }

    /// State after one poll of the blocking pool.
    pub open spec fn blocking_next(self, produced: BlockingPoll<T>) -> Self {
        match produced {
            BlockingPoll::NotReady => self,
            BlockingPoll::Ran(t) => self.executed_next(t),
            BlockingPoll::Refused => Operation {
                strategy: self.strategy,
                state: OpState::Terminal(Err(CoreError::Dispatch)),
            },
        }
    }

    /// State after the external spawner rejected the submission: a fatal
    /// configuration error.
    pub open spec fn spawn_refused_next(self) -> Self {
        Operation { strategy: self.strategy, state: OpState::Terminal(Err(CoreError::Dispatch)) }
    }

    /// State after one observation of the task handle's channel.
    pub open spec fn channel_next(self, msg: ChannelPoll<WorkResult<T>>) -> Self {
        match TaskHandle::poll_outcome(msg) {
            SourcePoll::Suspend => self,
            SourcePoll::Ready(t) => self.executed_next(t),
            SourcePoll::Failed(_) => Operation {
                strategy: self.strategy,
                state: OpState::Terminal(Err(CoreError::Abrupt)),
            },
        }
    }

    /// The decided outcome of a terminal operation.
    pub open spec fn terminal_result(self) -> Result<T, CoreError<E>> {
        match self.state {
            OpState::Terminal(res) => res,
            _ => arbitrary(),
        }
    }

    /// A fresh operation under the given strategy, with both inputs
    /// unresolved.
    pub fn new(strategy: Strategy) -> (op: Self)
        ensures
            op.strategy == strategy,
            op.state == OpState::<C, R, T, E>::AwaitingInputs(
                JoinPoint {
                    context: crate::joiner::Joiner::<C, E>::Pending,
                    request: crate::joiner::Joiner::<R, E>::Pending,
                },
            ),
            op.action_spec() == OpAction::PollContext,
    {
        Operation { strategy, state: OpState::AwaitingInputs(JoinPoint::new()) }
    }

    /// The next step the driver must perform.
    pub fn next_action(&self) -> (a: OpAction)
        ensures
            a == self.action_spec(),
    {
        match &self.state {
            OpState::AwaitingInputs(jp) => match jp.next_action() {
                JoinAction::PollContext => OpAction::PollContext,
                JoinAction::PollRequest => OpAction::PollRequest,
                JoinAction::Ready => OpAction::ExtractInputs,
            },
            OpState::Dispatching(_, _) => OpAction::Dispatch,
            OpState::AwaitingDispatch => OpAction::AwaitDispatch,
            OpState::Terminal(_) => OpAction::Complete,
        }
    }

    /// Report one poll outcome of the context source.
    pub fn poll_context(self, produced: SourcePoll<C, E>) -> (next: Self)
        requires
            self.action_spec() == OpAction::PollContext,
        ensures
            next == self.poll_context_next(produced),
    {
        let Operation { strategy, state } = self;
        match state {
            OpState::AwaitingInputs(mut jp) => {
                jp.poll_context(produced);
                Operation { strategy, state: OpState::AwaitingInputs(jp) }
            },
            _ => unreached(),
        }
    }

    /// Report one poll outcome of the request source.
    pub fn poll_request(self, produced: SourcePoll<R, E>) -> (next: Self)
        requires
            self.action_spec() == OpAction::PollRequest,
        ensures
            next == self.poll_request_next(produced),
    {
        let Operation { strategy, state } = self;
        match state {
            OpState::AwaitingInputs(mut jp) => {
                jp.poll_request(produced);
                Operation { strategy, state: OpState::AwaitingInputs(jp) }
            },
            _ => unreached(),
        }
    }

    /// Extract the joined inputs, exactly once. An input error makes the
    /// operation terminal with that error; otherwise the operation holds
    /// both values, ready to dispatch.
    pub fn extract_inputs(self) -> (next: Self)
        requires
            self.action_spec() == OpAction::ExtractInputs,
            self.state matches OpState::AwaitingInputs(jp) ==> jp.can_resolve(),
        ensures
            next == self.extract_next(),
    {
        let Operation { strategy, state } = self;
        match state {
            OpState::AwaitingInputs(mut jp) => match jp.resolve() {
                Ok((c, r)) => Operation { strategy, state: OpState::Dispatching(c, r) },
                Err(e) => Operation {
                    strategy,
                    state: OpState::Terminal(Err(CoreError::Input(e))),
                },
            },
            _ => unreached(),
        }
    }

    /// Inline dispatch: run the execute step right here, on the polling
    /// call stack, and become terminal with its result.
    pub fn dispatch_inline<F: FnOnce(C, R) -> T>(self, f: F) -> (next: Self)
        requires
            self.strategy == Strategy::Inline,
            self.action_spec() == OpAction::Dispatch,
            self.state matches OpState::Dispatching(c, r) ==> call_requires(f, (c, r)),
        ensures
            next.strategy == self.strategy,
            self.state matches OpState::Dispatching(c, r) ==> exists|t: T|
                #[trigger] call_ensures(f, (c, r), t) && next == self.executed_next(t),
    {
        let Operation { strategy, state } = self;
        match state {
            OpState::Dispatching(c, r) => {
                let t = f(c, r);
                Operation { strategy, state: OpState::Terminal(Ok(t)) }
            },
            _ => unreached(),
        }
    }

    /// Relocating dispatch: hand the held inputs out so the driver can
    /// package the execute step for the blocking pool or the external
    /// spawner, and await its completion signal.
    pub fn begin_relocation(self) -> (next: (Self, (C, R)))
        requires
            self.action_spec() == OpAction::Dispatch,
            self.strategy != Strategy::Inline,
        ensures
            next.0 == self.relocation_next(),
            self.state matches OpState::Dispatching(c, r) ==> next.1 == (c, r),
    {
        let Operation { strategy, state } = self;
        match state {
            OpState::Dispatching(c, r) => {
                (Operation { strategy, state: OpState::AwaitingDispatch }, (c, r))
            },
            _ => unreached(),
        }
    }

    /// Report one poll of the blocking pool hosting the execute step.
    /// Backpressure keeps the operation suspended; a run or a refusal is
    /// terminal.
    pub fn on_blocking_poll(self, produced: BlockingPoll<T>) -> (next: Self)
        requires
            self.strategy == Strategy::BlockingPool,
            self.action_spec() == OpAction::AwaitDispatch,
        ensures
            next == self.blocking_next(produced),
    {
        let Operation { strategy, state } = self;
        match produced {
            BlockingPoll::NotReady => Operation { strategy, state },
            BlockingPoll::Ran(t) => Operation { strategy, state: OpState::Terminal(Ok(t)) },
            BlockingPoll::Refused => Operation {
                strategy,
                state: OpState::Terminal(Err(CoreError::Dispatch)),
            },
        }
    }

    /// Report that the external spawner rejected the submission.
    pub fn on_spawn_refused(self) -> (next: Self)
        requires
            self.strategy == Strategy::ExternalSpawner,
            self.action_spec() == OpAction::AwaitDispatch,
        ensures
            next == self.spawn_refused_next(),
    {
        let Operation { strategy, state: _ } = self;
        Operation { strategy, state: OpState::Terminal(Err(CoreError::Dispatch)) }
    }

    /// Report one observation of the spawned work's channel, as seen by
    /// the panic-safe task handle.
    pub fn on_channel_poll(self, msg: ChannelPoll<WorkResult<T>>) -> (next: Self)
        requires
            self.strategy == Strategy::ExternalSpawner,
            self.action_spec() == OpAction::AwaitDispatch,
        ensures
            next == self.channel_next(msg),
    {
        let Operation { strategy, state } = self;
        match msg {
            ChannelPoll::Pending => Operation { strategy, state },
            ChannelPoll::Delivered(WorkResult::Finished(t)) => Operation {
                strategy,
                state: OpState::Terminal(Ok(t)),
            },
            ChannelPoll::Delivered(WorkResult::Panicked) => Operation {
                strategy,
                state: OpState::Terminal(Err(CoreError::Abrupt)),
            },
            ChannelPoll::Closed => Operation {
                strategy,
                state: OpState::Terminal(Err(CoreError::Abrupt)),
            },
        }
    }

    /// Take the terminal outcome. The operation is consumed: observing the
    /// outcome twice is impossible by construction.
    pub fn take_result(self) -> (res: Result<T, CoreError<E>>)
        requires
            self.action_spec() == OpAction::Complete,
        ensures
            res == self.terminal_result(),
    {
        let Operation { strategy: _, state } = self;
        match state {
            OpState::Terminal(res) => res,
            _ => unreached(),
        }
    }
}

/// Strategy equivalence: from the same dispatch-ready state, with the
/// execute step producing the same value `t`, every strategy reaches the
/// same terminal outcome `Ok(t)` — inline immediately, the blocking pool
/// once the pool ran the work, the external spawner once the channel
/// delivered the work's normal result. Backpressure and pending channel
/// observations leave the operation unchanged rather than altering the
/// outcome.
pub proof fn lemma_strategy_equivalence<C, R, T, E>(c: C, r: R, t: T)
    ensures
        ({
            let op = Operation::<C, R, T, E> {
                strategy: Strategy::Inline,
                state: OpState::Dispatching(c, r),
            };
            op.executed_next(t).terminal_result() == Ok::<T, CoreError<E>>(t)
        }),
        ({
            let op = Operation::<C, R, T, E> {
                strategy: Strategy::BlockingPool,
                state: OpState::Dispatching(c, r),
            };
            &&& op.relocation_next().blocking_next(BlockingPoll::Ran(t)).terminal_result()
                == Ok::<T, CoreError<E>>(t)
            &&& op.relocation_next().blocking_next(BlockingPoll::NotReady) == op.relocation_next()
        }),
        ({
            let op = Operation::<C, R, T, E> {
                strategy: Strategy::ExternalSpawner,
                state: OpState::Dispatching(c, r),
            };
            &&& op.relocation_next().channel_next(
                ChannelPoll::Delivered(WorkResult::Finished(t)),
            ).terminal_result() == Ok::<T, CoreError<E>>(t)
            &&& op.relocation_next().channel_next(ChannelPoll::Pending) == op.relocation_next()
        }),
{
}

} // verus!

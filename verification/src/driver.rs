//! A deterministic, fully verified driver for an operation.
//!
//! Real deployments poll real producers and real pools; this driver
//! replays scripted producers instead, so an operation's whole life can be
//! exercised — and reasoned about — without any host runtime. A script is
//! the sequence of outcomes a producer reports, one per poll; its first
//! non-suspend entry decides the produced value or error.

use vstd::prelude::*;

use crate::joiner::Joiner;
use crate::oneshot::{ChannelPoll, OneShot};
use crate::operation::{OpAction, Operation, OpState};
use crate::source::{CoreError, SourcePoll};
use crate::strategy::{BlockingPoll, Strategy};
use crate::task_handle::WorkResult;

verus! {

/// A producer that reports a scripted outcome on each poll and counts how
/// often it was polled.
#[derive(Debug)]
pub struct ScriptedSource<T, E> {
    /// Outcomes still to be reported, front first.
    pub script: Vec<SourcePoll<T, E>>,
    /// How many times the producer has been polled.
    pub polled: usize,
}

impl<T, E> ScriptedSource<T, E> {
    /// A producer that will report the given outcomes in order.
    pub fn new(script: Vec<SourcePoll<T, E>>) -> (s: Self)
        ensures
            s.script == script,
            s.polled == 0,
            s.script@.len() <= usize::MAX,
    {
        // the script's length is a machine size, so the poll counter
        // cannot overflow while entries remain
        let _len = script.len();
        ScriptedSource { script, polled: 0 }
    }

    /// How many times the producer has been polled.
    pub fn polls(&self) -> (n: usize)
        ensures
            n == self.polled,
    {
        self.polled
    }

    /// Whether the script has run out.
    pub fn is_exhausted(&self) -> (b: bool)
        ensures
            b == (self.script@.len() == 0),
    {
        self.script.is_empty()
    }

    /// Poll the producer: report the next scripted outcome.
    pub fn next(&mut self) -> (p: SourcePoll<T, E>)
        requires
            old(self).script@.len() > 0,
            old(self).polled < usize::MAX,
        ensures
            p == old(self).script@[0],
            final(self).script@ == old(self).script@.skip(1),
            final(self).polled == old(self).polled + 1,
    {
        self.polled = self.polled + 1;
        self.script.remove(0)
    }
}

/// The first outcome a script actually signals: its first non-suspend
/// entry, if any.
pub open spec fn script_signal<T, E>(s: Seq<SourcePoll<T, E>>) -> Option<SourcePoll<T, E>>
    decreases s.len(),
{
    if s.len() == 0 {
        None
    } else if !(s[0] is Suspend) {
        Some(s[0])
    } else {
        script_signal(s.skip(1))
    }
}

/// Whether a script's signal is a failure.
pub open spec fn signal_failed<T, E>(s: Seq<SourcePoll<T, E>>) -> bool {
    match script_signal(s) {
        Some(SourcePoll::Failed(_)) => true,
        _ => false,
    }
}

/// What joining two scripted producers yields: `None` when either needed
/// script runs out before signalling, the context error first, then the
/// request error, then both values.
pub open spec fn join_outcome<C, R, E>(
    ctx: Seq<SourcePoll<C, E>>,
    req: Seq<SourcePoll<R, E>>,
) -> Option<Result<(C, R), E>> {
    match script_signal(ctx) {
        None => None,
        Some(SourcePoll::Failed(e)) => Some(Err(e)),
        Some(SourcePoll::Ready(c)) => match script_signal(req) {
            None => None,
            Some(SourcePoll::Failed(e)) => Some(Err(e)),
            Some(SourcePoll::Ready(r)) => Some(Ok((c, r))),
            Some(SourcePoll::Suspend) => None,
        },
        Some(SourcePoll::Suspend) => None,
    }
}

/// The outcome of one scripted run, with the poll counts a host scheduler
/// would have performed.
#[derive(Debug)]
pub struct DriveReport<T, E> {
    /// The operation's terminal outcome, or `None` when a script ran out
    /// before the operation could finish.
    pub outcome: Option<Result<T, CoreError<E>>>,
    /// Polls of the context source.
    pub context_polls: usize,
    /// Polls of the request source.
    pub request_polls: usize,
    /// Polls of the dispatch stage (inline run, pool polls, channel
    /// observations).
    pub dispatch_polls: usize,
}

/// Drive an operation's joining stage from two scripted producers.
/// Returns the advanced operation and whether both inputs settled before
/// the needed scripts ran out.
fn drive_join<C, R, T, E>(
    op: Operation<C, R, T, E>,
    ctx: &mut ScriptedSource<C, E>,
    req: &mut ScriptedSource<R, E>,
) -> (r: (Operation<C, R, T, E>, bool))
    requires
        op.state matches OpState::AwaitingInputs(jp) && jp.context is Pending
            && jp.request is Pending,
        old(ctx).polled + old(ctx).script@.len() <= usize::MAX,
        old(req).polled + old(req).script@.len() <= usize::MAX,
    ensures
        r.0.strategy == op.strategy,
        r.1 == !(join_outcome(old(ctx).script@, old(req).script@) is None),
        r.1 ==> r.0.action_spec() == OpAction::ExtractInputs,
        r.1 ==> (r.0.state matches OpState::AwaitingInputs(jp) && jp.can_resolve() && Some(
            jp.resolve_result(),
        ) == join_outcome(old(ctx).script@, old(req).script@)),
        signal_failed(old(ctx).script@) ==> final(req).script@ == old(req).script@
            && final(req).polled == old(req).polled,
{
    let ghost ctx0 = ctx.script@;
    let ghost req0 = req.script@;
    let mut cur = op;
    loop
        invariant
            ctx0 == old(ctx).script@,
            req0 == old(req).script@,
            ctx.polled + ctx.script@.len() == old(ctx).polled + ctx0.len(),
            req.polled + req.script@.len() == old(req).polled + req0.len(),
            ctx.polled + ctx.script@.len() <= usize::MAX,
            req.polled + req.script@.len() <= usize::MAX,
            cur.strategy == op.strategy,
            cur.state matches OpState::AwaitingInputs(jp) && !(jp.context is Consumed) && !(
            jp.request is Consumed) && (jp.context is Pending ==> script_signal(ctx0)
                == script_signal(ctx.script@) && jp.request is Pending && req.script@ == req0
                && req.polled == old(req).polled) && (jp.context matches Joiner::Done(c)
                ==> script_signal(ctx0) == Some(SourcePoll::<C, E>::Ready(c))) && (jp.context
                matches Joiner::Failed(e) ==> script_signal(ctx0) == Some(
                SourcePoll::<C, E>::Failed(e),
            ) && jp.request is Pending && req.script@ == req0 && req.polled == old(req).polled) && (
            jp.request is Pending ==> script_signal(req0) == script_signal(req.script@)) && (
            jp.request matches Joiner::Done(v) ==> script_signal(req0) == Some(
                SourcePoll::<R, E>::Ready(v),
            )) && (jp.request matches Joiner::Failed(e) ==> script_signal(req0) == Some(
                SourcePoll::<R, E>::Failed(e),
            )),
        decreases ctx.script@.len() + req.script@.len(),
    {
        let a = cur.next_action();
        match a {
            OpAction::PollContext => {
                if ctx.is_exhausted() {
                    proof {
                        assert(script_signal(ctx0) is None);
                    }
                    return (cur, false);
                }
                let p = ctx.next();
                cur = cur.poll_context(p);
            },
            OpAction::PollRequest => {
                if req.is_exhausted() {
                    proof {
                        assert(script_signal(req0) is None);
                    }
                    return (cur, false);
                }
                let p = req.next();
                cur = cur.poll_request(p);
            },
            _ => {
                return (cur, true);
            },
        }
    }
}

/// Run one operation under the inline strategy: both inputs come from
/// scripts, and the execute step `f` runs on the polling call stack.
pub fn run_inline<C, R, T, E, F: FnOnce(C, R) -> T>(
    ctx_script: Vec<SourcePoll<C, E>>,
    req_script: Vec<SourcePoll<R, E>>,
    f: F,
) -> (report: DriveReport<T, E>)
    requires
        forall|c: C, r: R| call_requires(f, (c, r)),
    ensures
        join_outcome(ctx_script@, req_script@) is None ==> report.outcome is None,
        join_outcome(ctx_script@, req_script@) matches Some(Err(e)) ==> report.outcome == Some(
            Err::<T, CoreError<E>>(CoreError::Input(e)),
        ),
        join_outcome(ctx_script@, req_script@) matches Some(Ok(pair)) ==> (report.outcome matches
            Some(Ok(t)) && call_ensures(f, pair, t)),
        signal_failed(ctx_script@) ==> report.request_polls == 0,
{
    let mut ctx = ScriptedSource::new(ctx_script);
    let mut req = ScriptedSource::new(req_script);
    let op = Operation::<C, R, T, E>::new(Strategy::Inline);
    let (op, complete) = drive_join(op, &mut ctx, &mut req);
    if !complete {
        return DriveReport {
            outcome: None,
            context_polls: ctx.polls(),
            request_polls: req.polls(),
            dispatch_polls: 0,
        };
    }
    let op = op.extract_inputs();
    let a = op.next_action();
    match a {
        OpAction::Complete => DriveReport {
            outcome: Some(op.take_result()),
            context_polls: ctx.polls(),
            request_polls: req.polls(),
            dispatch_polls: 0,
        },
        OpAction::Dispatch => {
            let op = op.dispatch_inline(f);
            DriveReport {
                outcome: Some(op.take_result()),
                context_polls: ctx.polls(),
                request_polls: req.polls(),
                dispatch_polls: 1,
            }
        },
        _ => unreached(),
    }
}

/// The blocking pool's scripted behaviour, one entry per poll of the
/// blocking section.
#[derive(Debug, PartialEq, Eq, Clone, Copy)]
pub enum BlockingGate {
    /// No blocking-capable worker is free yet; the work has not run.
    Busy,
    /// A worker is free: the execute step runs now.
    Admit,
    /// The pool rejects the blocking request outright.
    Refuse,
}

impl BlockingGate {
    /// Whether this poll leaves the work still waiting for a worker.
    pub fn is_busy(&self) -> (b: bool)
        ensures
            b == (*self is Busy),
    {
        match self {
            BlockingGate::Busy => true,
            _ => false,
        }
    }
}

/// The first decisive pool answer: the first non-busy gate, if any.
pub open spec fn gate_signal(gs: Seq<BlockingGate>) -> Option<BlockingGate>
    decreases gs.len(),
{
    if gs.len() == 0 {
        None
    } else if gs[0] is Busy {
        gate_signal(gs.skip(1))
    } else {
        Some(gs[0])
    }
}

/// Run one operation under the blocking-pool strategy: the inputs come
/// from scripts and the pool's admission behaviour from `gates`. The
/// execute step `f` runs when — and only when — the pool admits the
/// blocking section.
pub fn run_blocking<C, R, T, E, F: FnOnce(C, R) -> T>(
    ctx_script: Vec<SourcePoll<C, E>>,
    req_script: Vec<SourcePoll<R, E>>,
    gates: Vec<BlockingGate>,
    f: F,
) -> (report: DriveReport<T, E>)
    requires
        forall|c: C, r: R| call_requires(f, (c, r)),
    ensures
        join_outcome(ctx_script@, req_script@) is None ==> report.outcome is None,
        join_outcome(ctx_script@, req_script@) matches Some(Err(e)) ==> report.outcome == Some(
            Err::<T, CoreError<E>>(CoreError::Input(e)),
        ),
        join_outcome(ctx_script@, req_script@) matches Some(Ok(pair)) ==> {
            &&& gate_signal(gates@) is None ==> report.outcome is None
            &&& gate_signal(gates@) == Some(BlockingGate::Admit) ==> (report.outcome matches Some(
                Ok(t),
            ) && call_ensures(f, pair, t))
            &&& gate_signal(gates@) == Some(BlockingGate::Refuse) ==> report.outcome == Some(
                Err::<T, CoreError<E>>(CoreError::Dispatch),
            )
        },
        signal_failed(ctx_script@) ==> report.request_polls == 0,
{
    let mut ctx = ScriptedSource::new(ctx_script);
    let mut req = ScriptedSource::new(req_script);
    let op = Operation::<C, R, T, E>::new(Strategy::BlockingPool);
    let (op, complete) = drive_join(op, &mut ctx, &mut req);
    if !complete {
        return DriveReport {
            outcome: None,
            context_polls: ctx.polls(),
            request_polls: req.polls(),
            dispatch_polls: 0,
        };
    }
    let op = op.extract_inputs();
    let a = op.next_action();
    match a {
        OpAction::Complete => DriveReport {
            outcome: Some(op.take_result()),
            context_polls: ctx.polls(),
            request_polls: req.polls(),
            dispatch_polls: 0,
        },
        OpAction::Dispatch => {
            let (relocated, inputs) = op.begin_relocation();
            let (c, r) = inputs;
            let ghost relocated0 = relocated;
            let mut cur = relocated;
            let mut i: usize = 0;
            proof {
                assert(gates@.skip(0) =~= gates@);
            }
            while i < gates.len() && gates[i].is_busy()
                invariant
                    i <= gates@.len(),
                    gate_signal(gates@) == gate_signal(gates@.skip(i as int)),
                    cur == relocated0,
                    relocated0.strategy == Strategy::BlockingPool,
                    relocated0.state is AwaitingDispatch,
                decreases gates@.len() - i,
            {
                proof {
                    assert(gates@.skip(i as int)[0] == gates@[i as int]);
                    assert(gates@.skip(i as int).skip(1) =~= gates@.skip(i as int + 1));
                }
                cur = cur.on_blocking_poll(BlockingPoll::NotReady);
                i = i + 1;
            }
            if i == gates.len() {
                // every scripted poll was busy: the pool never admitted
                // the section within the script
                return DriveReport {
                    outcome: None,
                    context_polls: ctx.polls(),
                    request_polls: req.polls(),
                    dispatch_polls: i,
                };
            }
            proof {
                assert(gates@.skip(i as int)[0] == gates@[i as int]);
            }
            let g = gates[i];
            let cur = match g {
                BlockingGate::Admit => {
                    let t = f(c, r);
                    cur.on_blocking_poll(BlockingPoll::Ran(t))
                },
                BlockingGate::Refuse => cur.on_blocking_poll(BlockingPoll::Refused),
                BlockingGate::Busy => unreached(),
            };
            DriveReport {
                outcome: Some(cur.take_result()),
                context_polls: ctx.polls(),
                request_polls: req.polls(),
                dispatch_polls: i + 1,
            }
        },
        _ => unreached(),
    }
}

/// How the spawner and the relocated work behave in one scripted run.
#[derive(Debug, PartialEq, Eq, Clone, Copy)]
pub struct SpawnScript {
    /// The spawner rejects the submission outright.
    pub refused: bool,
    /// The work terminates abruptly instead of returning; its wrapper
    /// intercepts the failure and reports it over the channel.
    pub panics: bool,
    /// Channel polls that find nothing before the work's report arrives.
    pub delay: usize,
}

/// Run one operation under the external-spawner strategy: the inputs come
/// from scripts; the spawned work communicates through a one-shot channel
/// exactly as the panic-safe task handle expects. Resolution takes exactly
/// `plan.delay + 1` channel observations — the awaiter never hangs once
/// the work has terminated, however it terminated.
pub fn run_spawned<C, R, T, E, F: FnOnce(C, R) -> T>(
    ctx_script: Vec<SourcePoll<C, E>>,
    req_script: Vec<SourcePoll<R, E>>,
    plan: SpawnScript,
    f: F,
) -> (report: DriveReport<T, E>)
    requires
        forall|c: C, r: R| call_requires(f, (c, r)),
        plan.delay < usize::MAX,
    ensures
        join_outcome(ctx_script@, req_script@) is None ==> report.outcome is None,
        join_outcome(ctx_script@, req_script@) matches Some(Err(e)) ==> report.outcome == Some(
            Err::<T, CoreError<E>>(CoreError::Input(e)),
        ),
        join_outcome(ctx_script@, req_script@) matches Some(Ok(pair)) ==> {
            &&& plan.refused ==> report.outcome == Some(
                Err::<T, CoreError<E>>(CoreError::Dispatch),
            )
            &&& !plan.refused && plan.panics ==> report.outcome == Some(
                Err::<T, CoreError<E>>(CoreError::Abrupt),
            ) && report.dispatch_polls == plan.delay + 1
            &&& !plan.refused && !plan.panics ==> (report.outcome matches Some(Ok(t))
                && call_ensures(f, pair, t)) && report.dispatch_polls == plan.delay + 1
        },
        signal_failed(ctx_script@) ==> report.request_polls == 0,
{
    let mut ctx = ScriptedSource::new(ctx_script);
    let mut req = ScriptedSource::new(req_script);
    let op = Operation::<C, R, T, E>::new(Strategy::ExternalSpawner);
    let (op, complete) = drive_join(op, &mut ctx, &mut req);
    if !complete {
        return DriveReport {
            outcome: None,
            context_polls: ctx.polls(),
            request_polls: req.polls(),
            dispatch_polls: 0,
        };
    }
    let op = op.extract_inputs();
    let a = op.next_action();
    match a {
        OpAction::Complete => DriveReport {
            outcome: Some(op.take_result()),
            context_polls: ctx.polls(),
            request_polls: req.polls(),
            dispatch_polls: 0,
        },
        OpAction::Dispatch => {
            let (relocated, inputs) = op.begin_relocation();
            let (c, r) = inputs;
            if plan.refused {
                let cur = relocated.on_spawn_refused();
                return DriveReport {
                    outcome: Some(cur.take_result()),
                    context_polls: ctx.polls(),
                    request_polls: req.polls(),
                    dispatch_polls: 0,
                };
            }
            let mut channel: OneShot<WorkResult<T>> = OneShot::new();
            let ghost relocated0 = relocated;
            let mut cur = relocated;
            let mut waited: usize = 0;
            // the spawner queued the work; until it runs, the awaiter's
            // channel polls find nothing
            while waited < plan.delay
                invariant
                    waited <= plan.delay,
                    plan.delay < usize::MAX,
                    channel == OneShot::<WorkResult<T>>::Idle,
                    cur == relocated0,
                    relocated0.strategy == Strategy::ExternalSpawner,
                    relocated0.state is AwaitingDispatch,
                decreases plan.delay - waited,
            {
                let msg = channel.poll_receive();
                cur = cur.on_channel_poll(msg);
                waited = waited + 1;
            }
            // the work runs; its wrapper sends exactly one report however
            // the work terminated
            if plan.panics {
                let _ = channel.send(WorkResult::Panicked);
            } else {
                let t = f(c, r);
                let _ = channel.send(WorkResult::Finished(t));
            }
            let msg = channel.poll_receive();
            let cur = cur.on_channel_poll(msg);
            DriveReport {
                outcome: Some(cur.take_result()),
                context_polls: ctx.polls(),
                request_polls: req.polls(),
                dispatch_polls: waited + 1,
            }
        },
        _ => unreached(),
    }
}

} // verus!

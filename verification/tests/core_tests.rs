use graphql_dispatch::join_point::{JoinAction, JoinPoint};
use graphql_dispatch::joiner::Joiner;
use graphql_dispatch::oneshot::{ChannelPoll, OneShot};
use graphql_dispatch::operation::{OpAction, Operation};
use graphql_dispatch::source::{AbruptFailure, CoreError, Readiness, SourcePoll};
use graphql_dispatch::strategy::{BlockingPoll, Strategy};
use graphql_dispatch::task_handle::{TaskHandle, WorkResult};

#[test]
fn joiner_yields_value_at_most_once() {
    let mut j: Joiner<u32, &'static str> = Joiner::new();
    assert!(j.wants_producer());
    assert_eq!(j.poll_ready(SourcePoll::Ready(5)), Readiness::Ready);
    assert!(!j.wants_producer());
    assert_eq!(j.take(), Some(5));
    assert_eq!(j.take(), None);
    assert_eq!(j.take(), None);
}

#[test]
fn joiner_take_before_done_yields_nothing() {
    let mut j: Joiner<u32, &'static str> = Joiner::new();
    assert_eq!(j.take(), None);
}

#[test]
fn joiner_ignores_producer_after_completion() {
    let mut j: Joiner<u32, &'static str> = Joiner::new();
    assert_eq!(j.poll_ready(SourcePoll::Ready(1)), Readiness::Ready);
    // a report that would contradict the held value changes nothing
    assert_eq!(j.poll_ready(SourcePoll::Ready(2)), Readiness::Ready);
    assert_eq!(j.poll_ready(SourcePoll::Failed("late")), Readiness::Ready);
    assert_eq!(j.take(), Some(1));
}

#[test]
fn joiner_suspend_keeps_pending() {
    let mut j: Joiner<u32, &'static str> = Joiner::new();
    assert_eq!(j.poll_ready(SourcePoll::Suspend), Readiness::Suspend);
    assert!(j.wants_producer());
}

#[test]
fn joiner_retains_failure_for_extraction() {
    let mut j: Joiner<u32, &'static str> = Joiner::new();
    assert_eq!(j.poll_ready(SourcePoll::Failed("denied")), Readiness::Ready);
    assert!(!j.wants_producer());
    assert_eq!(j.take_failure(), Some("denied"));
    assert_eq!(j.take_failure(), None);
}

#[test]
fn join_point_drives_context_first() {
    let mut jp: JoinPoint<u32, u32, &'static str> = JoinPoint::new();
    assert_eq!(jp.next_action(), JoinAction::PollContext);
    jp.poll_context(SourcePoll::Suspend);
    assert_eq!(jp.next_action(), JoinAction::PollContext);
    jp.poll_context(SourcePoll::Ready(7));
    assert_eq!(jp.next_action(), JoinAction::PollRequest);
    jp.poll_request(SourcePoll::Ready(8));
    assert_eq!(jp.next_action(), JoinAction::Ready);
    assert_eq!(jp.resolve(), Ok((7, 8)));
}

#[test]
fn join_point_short_circuits_on_context_failure() {
    let mut jp: JoinPoint<u32, u32, &'static str> = JoinPoint::new();
    jp.poll_context(SourcePoll::Failed("no context"));
    // the request source is never asked for again
    assert_eq!(jp.next_action(), JoinAction::Ready);
    assert_eq!(jp.resolve(), Err("no context"));
}

#[test]
fn join_point_surfaces_request_failure_after_context() {
    let mut jp: JoinPoint<u32, u32, &'static str> = JoinPoint::new();
    jp.poll_context(SourcePoll::Ready(7));
    jp.poll_request(SourcePoll::Failed("bad request"));
    assert_eq!(jp.next_action(), JoinAction::Ready);
    assert_eq!(jp.resolve(), Err("bad request"));
}

#[test]
fn oneshot_delivers_once() {
    let mut ch: OneShot<u32> = OneShot::new();
    assert_eq!(ch.poll_receive(), ChannelPoll::Pending);
    assert_eq!(ch.send(42), Ok(()));
    assert_eq!(ch.poll_receive(), ChannelPoll::Delivered(42));
}

#[test]
fn oneshot_send_after_receiver_gone_returns_value() {
    let mut ch: OneShot<u32> = OneShot::new();
    ch.drop_receiver();
    // the sender is not blocked and the value is not lost silently
    assert_eq!(ch.send(42), Err(42));
}

#[test]
fn oneshot_closure_is_observed() {
    let mut ch: OneShot<u32> = OneShot::new();
    ch.drop_sender();
    assert_eq!(ch.poll_receive(), ChannelPoll::Closed);
}

#[test]
fn cancelled_operation_discards_relocated_result() {
    // the host gives up on an operation whose work was already relocated:
    // the operation is dropped, the channel's receiving end with it, and
    // the worker's send completes at once with the value handed back
    let op: Operation<u32, u32, u32, &'static str> = Operation::new(Strategy::ExternalSpawner);
    let op = op.poll_context(SourcePoll::Ready(1));
    let op = op.poll_request(SourcePoll::Ready(2));
    let op = op.extract_inputs();
    let (op, (c, r)) = op.begin_relocation();
    let mut ch: OneShot<WorkResult<u32>> = OneShot::new();
    drop(op);
    ch.drop_receiver();
    assert_eq!(
        ch.send(WorkResult::Finished(c + r)),
        Err(WorkResult::Finished(3))
    );
}

#[test]
fn task_handle_surfaces_abrupt_failure() {
    let mut h = TaskHandle::new();
    assert_eq!(
        h.poll::<u32>(ChannelPoll::Delivered(WorkResult::Panicked)),
        SourcePoll::Failed(AbruptFailure)
    );
    assert!(!h.awaiting);
}

#[test]
fn task_handle_surfaces_closed_channel_as_failure() {
    let mut h = TaskHandle::new();
    assert_eq!(h.poll::<u32>(ChannelPoll::Closed), SourcePoll::Failed(AbruptFailure));
}

#[test]
fn task_handle_passes_result_through() {
    let mut h = TaskHandle::new();
    assert_eq!(h.poll(ChannelPoll::Pending), SourcePoll::<u32, AbruptFailure>::Suspend);
    assert!(h.awaiting);
    assert_eq!(
        h.poll(ChannelPoll::Delivered(WorkResult::Finished(9u32))),
        SourcePoll::Ready(9)
    );
}

#[test]
fn use_blocking_toggles_between_pool_and_inline() {
    assert_eq!(Strategy::use_blocking(true), Strategy::BlockingPool);
    assert_eq!(Strategy::use_blocking(false), Strategy::Inline);
}

#[test]
fn operation_runs_inline_to_completion() {
    let op: Operation<u32, u32, u32, &'static str> = Operation::new(Strategy::Inline);
    assert_eq!(op.next_action(), OpAction::PollContext);
    let op = op.poll_context(SourcePoll::Ready(3));
    assert_eq!(op.next_action(), OpAction::PollRequest);
    let op = op.poll_request(SourcePoll::Ready(4));
    assert_eq!(op.next_action(), OpAction::ExtractInputs);
    let op = op.extract_inputs();
    assert_eq!(op.next_action(), OpAction::Dispatch);
    let op = op.dispatch_inline(|c, r| c * 10 + r);
    assert_eq!(op.next_action(), OpAction::Complete);
    assert_eq!(op.take_result(), Ok(34));
}

#[test]
fn operation_terminates_on_input_error() {
    let op: Operation<u32, u32, u32, &'static str> = Operation::new(Strategy::Inline);
    let op = op.poll_context(SourcePoll::Failed("denied"));
    assert_eq!(op.next_action(), OpAction::ExtractInputs);
    let op = op.extract_inputs();
    assert_eq!(op.next_action(), OpAction::Complete);
    assert_eq!(op.take_result(), Err(CoreError::Input("denied")));
}

#[test]
fn operation_blocking_pool_backpressure_then_run() {
    let op: Operation<u32, u32, u32, &'static str> = Operation::new(Strategy::BlockingPool);
    let op = op.poll_context(SourcePoll::Ready(1));
    let op = op.poll_request(SourcePoll::Ready(2));
    let op = op.extract_inputs();
    let (op, (c, r)) = op.begin_relocation();
    let op = op.on_blocking_poll(BlockingPoll::NotReady);
    assert_eq!(op.next_action(), OpAction::AwaitDispatch);
    let op = op.on_blocking_poll(BlockingPoll::Ran(c + r));
    assert_eq!(op.take_result(), Ok(3));
}

#[test]
fn operation_spawner_channel_paths() {
    // a delivered panic report surfaces as an abrupt failure
    let op: Operation<u32, u32, u32, &'static str> = Operation::new(Strategy::ExternalSpawner);
    let op = op.poll_context(SourcePoll::Ready(1));
    let op = op.poll_request(SourcePoll::Ready(2));
    let op = op.extract_inputs();
    let (op, _inputs) = op.begin_relocation();
    let op = op.on_channel_poll(ChannelPoll::Pending);
    assert_eq!(op.next_action(), OpAction::AwaitDispatch);
    let op = op.on_channel_poll(ChannelPoll::Delivered(WorkResult::Panicked));
    assert_eq!(op.take_result(), Err(CoreError::Abrupt));

    // a closed channel without a report fails rather than hangs
    let op: Operation<u32, u32, u32, &'static str> = Operation::new(Strategy::ExternalSpawner);
    let op = op.poll_context(SourcePoll::Ready(1));
    let op = op.poll_request(SourcePoll::Ready(2));
    let op = op.extract_inputs();
    let (op, _inputs) = op.begin_relocation();
    let op = op.on_channel_poll(ChannelPoll::Closed);
    assert_eq!(op.take_result(), Err(CoreError::Abrupt));

    // a refused submission is a fatal dispatch error
    let op: Operation<u32, u32, u32, &'static str> = Operation::new(Strategy::ExternalSpawner);
    let op = op.poll_context(SourcePoll::Ready(1));
    let op = op.poll_request(SourcePoll::Ready(2));
    let op = op.extract_inputs();
    let (op, _inputs) = op.begin_relocation();
    let op = op.on_spawn_refused();
    assert_eq!(op.take_result(), Err(CoreError::Dispatch));
}

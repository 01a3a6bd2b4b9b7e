use graphql_dispatch::driver::{run_blocking, run_inline, run_spawned, BlockingGate, SpawnScript};
use graphql_dispatch::source::{CoreError, SourcePoll};

#[derive(Debug, PartialEq, Eq, Clone)]
struct Ctx {
    user: String,
}

#[derive(Debug, PartialEq, Eq, Clone)]
struct Req {
    query: String,
}

#[derive(Debug, PartialEq, Eq, Clone)]
struct Resp {
    body: String,
}

fn ping_execute(c: Ctx, r: Req) -> Resp {
    if c.user == "a" && r.query == "{ping}" {
        Resp { body: "pong".to_string() }
    } else {
        Resp { body: "unknown".to_string() }
    }
}

#[test]
fn inline_scenario_counts_polls() {
    // context resolves after one suspension, the request immediately;
    // inline dispatch answers in a single dispatch poll
    let ctx_script = vec![
        SourcePoll::<Ctx, String>::Suspend,
        SourcePoll::Ready(Ctx { user: "a".to_string() }),
    ];
    let req_script = vec![SourcePoll::<Req, String>::Ready(Req { query: "{ping}".to_string() })];
    let report = run_inline(ctx_script, req_script, ping_execute);
    assert_eq!(report.outcome, Some(Ok(Resp { body: "pong".to_string() })));
    assert_eq!(report.context_polls, 2);
    assert_eq!(report.request_polls, 1);
    assert_eq!(report.dispatch_polls, 1);
}

#[test]
fn strategies_agree_on_pure_execute() {
    let ctx = || vec![SourcePoll::<u32, String>::Ready(6)];
    let req = || vec![SourcePoll::<u32, String>::Ready(7)];
    let f = |c: u32, r: u32| c * 100 + r;

    let inline = run_inline(ctx(), req(), f);
    let blocking = run_blocking(ctx(), req(), vec![BlockingGate::Admit], f);
    let spawned = run_spawned(
        ctx(),
        req(),
        SpawnScript { refused: false, panics: false, delay: 0 },
        f,
    );

    assert_eq!(inline.outcome, Some(Ok(607)));
    assert_eq!(blocking.outcome, Some(Ok(607)));
    assert_eq!(spawned.outcome, Some(Ok(607)));
}

#[test]
fn context_failure_short_circuits_request_source() {
    let ctx_script = vec![SourcePoll::<u32, String>::Failed("no context".to_string())];
    let req_script = vec![SourcePoll::<u32, String>::Failed("never seen".to_string())];
    let report = run_inline(ctx_script, req_script, |c: u32, r: u32| c + r);
    assert_eq!(report.outcome, Some(Err(CoreError::Input("no context".to_string()))));
    assert_eq!(report.request_polls, 0);
}

#[test]
fn request_failure_surfaces_after_context() {
    let ctx_script = vec![SourcePoll::<u32, String>::Ready(1)];
    let req_script = vec![SourcePoll::<u32, String>::Failed("malformed".to_string())];
    let report = run_inline(ctx_script, req_script, |c: u32, r: u32| c + r);
    assert_eq!(report.outcome, Some(Err(CoreError::Input("malformed".to_string()))));
}

#[test]
fn completed_context_is_not_polled_again() {
    // the context resolves on its first poll; while the request source
    // keeps suspending, the context source is left alone
    let ctx_script = vec![SourcePoll::<u32, String>::Ready(1)];
    let req_script = vec![
        SourcePoll::<u32, String>::Suspend,
        SourcePoll::Suspend,
        SourcePoll::Ready(2),
    ];
    let report = run_inline(ctx_script, req_script, |c: u32, r: u32| c + r);
    assert_eq!(report.outcome, Some(Ok(3)));
    assert_eq!(report.context_polls, 1);
    assert_eq!(report.request_polls, 3);
}

#[test]
fn unresolved_context_leaves_no_outcome() {
    let ctx_script = vec![SourcePoll::<u32, String>::Suspend];
    let req_script = vec![SourcePoll::<u32, String>::Ready(2)];
    let report = run_inline(ctx_script, req_script, |c: u32, r: u32| c + r);
    assert_eq!(report.outcome, None);
    assert_eq!(report.request_polls, 0);
}

#[test]
fn blocking_pool_backpressure_is_retried() {
    let ctx_script = vec![SourcePoll::<u32, String>::Ready(2)];
    let req_script = vec![SourcePoll::<u32, String>::Ready(3)];
    let gates = vec![BlockingGate::Busy, BlockingGate::Busy, BlockingGate::Admit];
    let report = run_blocking(ctx_script, req_script, gates, |c: u32, r: u32| c * r);
    assert_eq!(report.outcome, Some(Ok(6)));
    assert_eq!(report.dispatch_polls, 3);
}

#[test]
fn blocking_pool_refusal_is_a_dispatch_error() {
    let ctx_script = vec![SourcePoll::<u32, String>::Ready(2)];
    let req_script = vec![SourcePoll::<u32, String>::Ready(3)];
    let report = run_blocking(
        ctx_script,
        req_script,
        vec![BlockingGate::Refuse],
        |c: u32, r: u32| c * r,
    );
    assert_eq!(report.outcome, Some(Err(CoreError::Dispatch)));
}

#[test]
fn blocking_pool_never_admitting_leaves_no_outcome() {
    let ctx_script = vec![SourcePoll::<u32, String>::Ready(2)];
    let req_script = vec![SourcePoll::<u32, String>::Ready(3)];
    let report = run_blocking(
        ctx_script,
        req_script,
        vec![BlockingGate::Busy],
        |c: u32, r: u32| c * r,
    );
    assert_eq!(report.outcome, None);
}

#[test]
fn spawned_panic_is_contained_within_bounded_polls() {
    let ctx_script = vec![SourcePoll::<u32, String>::Ready(2)];
    let req_script = vec![SourcePoll::<u32, String>::Ready(3)];
    let plan = SpawnScript { refused: false, panics: true, delay: 2 };
    let report = run_spawned(ctx_script, req_script, plan, |c: u32, r: u32| c + r);
    assert_eq!(report.outcome, Some(Err(CoreError::Abrupt)));
    // the failure arrives on the first poll after the report: never a hang
    assert_eq!(report.dispatch_polls, 3);
}

#[test]
fn spawner_refusal_is_a_dispatch_error() {
    let ctx_script = vec![SourcePoll::<u32, String>::Ready(2)];
    let req_script = vec![SourcePoll::<u32, String>::Ready(3)];
    let plan = SpawnScript { refused: true, panics: false, delay: 0 };
    let report = run_spawned(ctx_script, req_script, plan, |c: u32, r: u32| c + r);
    assert_eq!(report.outcome, Some(Err(CoreError::Dispatch)));
}

#[test]
fn spawned_delivery_waits_out_the_delay() {
    let ctx_script = vec![SourcePoll::<u32, String>::Ready(4)];
    let req_script = vec![SourcePoll::<u32, String>::Ready(5)];
    let plan = SpawnScript { refused: false, panics: false, delay: 3 };
    let report = run_spawned(ctx_script, req_script, plan, |c: u32, r: u32| c + r);
    assert_eq!(report.outcome, Some(Ok(9)));
    assert_eq!(report.dispatch_polls, 4);
}

use flowguard::flow::{
    smoke_test_flow, FailurePolicy, Flow, FlowError, FlowRun, FlowStatus, FlowStep, RunAction,
    StepArgs,
};
use flowguard::run_log::{summarize_run, FlowLogEntry, LogStatus};

fn step(id: &str, policy: FailurePolicy) -> FlowStep {
    FlowStep { id: id.to_string(), cmd: "STATUS".to_string(), args: StepArgs::none(), on_failure: policy }
}

fn flow(id: &str, steps: Vec<FlowStep>) -> Flow {
    Flow { id: id.to_string(), name: format!("{} flow", id), description: String::new(), steps }
}

/// Runs `flow` to its end, failing the steps whose index is in `failing`.
/// Returns the dispatched step indices, the final status and every log entry.
fn run(f: Flow, failing: &[usize]) -> (Vec<usize>, FlowStatus, Vec<FlowLogEntry>) {
    let flows = vec![f];
    let mut status = FlowStatus::idle();
    let i = status.try_start(&flows, &flows[0].id).ok().unwrap();
    let mut r = FlowRun::new(flows.into_iter().nth(i).unwrap(), 1000);
    let mut entries = vec![r.opening_entry(1000)];
    let mut dispatched = Vec::new();
    loop {
        match r.next_action() {
            RunAction::Dispatch(k) => {
                entries.push(r.begin_step(&mut status, 1001));
                dispatched.push(k);
                let result = if failing.contains(&k) { Err(format!("boom {}", k)) } else { Ok(format!("ok {}", k)) };
                entries.extend(r.finish_step(&mut status, result, 1002));
            }
            RunAction::Complete => entries.push(r.complete(&mut status, 1003)),
            RunAction::Done => break,
        }
    }
    (dispatched, status, entries)
}

#[test]
fn start_while_running_is_refused_and_changes_nothing() {
    let flows = vec![flow("a", vec![step("s1", FailurePolicy::Abort)]), flow("b", vec![])];
    let mut status = FlowStatus::idle();
    assert_eq!(status.try_start(&flows, "a").ok(), Some(0));
    assert!(status.is_running);
    let logs_before = status.logs.clone();
    for id in ["a", "b"] {
        match status.try_start(&flows, id) {
            Err(FlowError::AlreadyRunning) => {}
            _ => panic!("expected AlreadyRunning"),
        }
    }
    match status.try_start(&flows, "missing") {
        Err(e) => assert_eq!(e.message(), "Flow not found: missing"),
        Ok(_) => panic!("expected NotFound"),
    }
    assert_eq!(status.current_flow_id, Some("a".to_string()));
    assert_eq!(status.current_step_index, Some(0));
    assert_eq!(status.total_steps, Some(1));
    assert_eq!(status.logs, logs_before);
    assert_eq!(FlowError::AlreadyRunning.message(), "A flow is already running");
}

#[test]
fn start_of_unknown_flow_is_not_found() {
    let flows = vec![flow("a", vec![])];
    let mut status = FlowStatus::idle();
    match status.try_start(&flows, "zzz") {
        Err(e) => assert_eq!(e.message(), "Flow not found: zzz"),
        Ok(_) => panic!("expected NotFound"),
    }
    assert!(!status.is_running);
    assert_eq!(status.try_start(&flows, "a").ok(), Some(0));
    assert_eq!(status.logs, vec!["Starting flow: a flow".to_string()]);
}

#[test]
fn abort_stops_the_run() {
    let f = flow(
        "f",
        vec![step("s1", FailurePolicy::Continue), step("s2", FailurePolicy::Abort), step("s3", FailurePolicy::Continue)],
    );
    let (dispatched, status, entries) = run(f, &[0, 1]);
    assert_eq!(dispatched, vec![0, 1]);
    assert!(!status.is_running);
    assert_eq!(status.last_error, Some("boom 1".to_string()));
    assert_eq!(status.logs.last().unwrap(), "⛔ Flow aborted due to error");
    let last = entries.last().unwrap();
    assert_eq!(last.status, LogStatus::Error);
    assert!(last.step_id.is_none());
    assert_eq!(last.message, "Flow aborted at step s2");
    let summary = summarize_run(&entries).ok().unwrap();
    assert_eq!(summary.status, "error");
    assert_eq!(summary.failed_step, Some("s1".to_string()));
    assert_eq!(summary.total_steps, 2);
}

#[test]
fn continue_dispatches_every_step_once() {
    let f = flow(
        "f",
        vec![step("s1", FailurePolicy::Continue), step("s2", FailurePolicy::Continue), step("s3", FailurePolicy::Continue)],
    );
    let (dispatched, status, entries) = run(f, &[0, 2]);
    assert_eq!(dispatched, vec![0, 1, 2]);
    assert!(!status.is_running);
    assert_eq!(status.current_step_index, None);
    assert_eq!(
        status.logs,
        vec![
            "Starting flow: f flow".to_string(),
            "Step 1/3: STATUS (s1)".to_string(),
            "❌ Error in step s1: boom 0".to_string(),
            "Step 2/3: STATUS (s2)".to_string(),
            "✅ Step s2 completed".to_string(),
            "Step 3/3: STATUS (s3)".to_string(),
            "❌ Error in step s3: boom 2".to_string(),
            "🎉 Flow completed successfully".to_string(),
        ]
    );
    let last = entries.last().unwrap();
    assert_eq!(last.status, LogStatus::Success);
    assert_eq!(last.message, "Flow completed: 3 steps");
    assert_eq!(entries[0].message, "Flow 'f' started");
    assert_eq!(entries[1].message, "Step s1 (STATUS) started");
    assert_eq!(entries[2].message, "Step s1 (STATUS) failed");
    assert_eq!(entries[2].error, Some("boom 0".to_string()));
    assert_eq!(entries[4].message, "ok 1");
    assert_eq!(entries[0].run_id, "1000");
    let summary = summarize_run(&entries).ok().unwrap();
    assert_eq!(summary.status, "success");
    assert_eq!(summary.total_steps, 3);
    assert_eq!(summary.finished_at, Some(1003));
}

#[test]
fn empty_flow_completes_at_once() {
    let (dispatched, status, entries) = run(flow("e", vec![]), &[]);
    assert!(dispatched.is_empty());
    assert!(!status.is_running);
    assert_eq!(entries.len(), 2);
    assert_eq!(entries[1].message, "Flow completed: 0 steps");
}

#[test]
fn default_flow_is_smoke_test() {
    let f = smoke_test_flow();
    assert_eq!(f.id, "smoke_test");
    assert_eq!(f.name, "Smoke Test Cycle");
    assert_eq!(f.steps.len(), 2);
    assert_eq!(f.steps[1].args.dry_run, Some(true));
    assert_eq!(f.steps[0].on_failure, FailurePolicy::Abort);
}

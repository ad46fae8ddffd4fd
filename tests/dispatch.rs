use flowguard::dispatch::{
    git_step_decision, git_step_outcome, index_outcome, resolve_step, status_outcome,
    train_outcome, GitStepDecision, StepCommand,
};
use flowguard::flow::{FailurePolicy, FlowStep, StepArgs};
use flowguard::git_safety::{GitPushPlan, GitPushResult, PushVerdict};
use flowguard::jobs::{IndexResult, TrainingResult};

fn step(cmd: &str, args: StepArgs) -> FlowStep {
    FlowStep { id: "s".to_string(), cmd: cmd.to_string(), args, on_failure: FailurePolicy::Abort }
}

#[test]
fn commands_resolve_with_defaults() {
    assert!(matches!(resolve_step(&step("STATUS", StepArgs::none())), Ok(StepCommand::Status)));
    match resolve_step(&step("GIT_PUSH", StepArgs::none())) {
        Ok(StepCommand::GitPush { remote, branch, dry_run }) => {
            assert_eq!(remote, "origin");
            assert_eq!(branch, "main");
            assert!(!dry_run);
        }
        _ => panic!("expected GIT_PUSH"),
    }
    let mut args = StepArgs::none();
    args.remote = Some("upstream".to_string());
    args.dry_run = Some(true);
    match resolve_step(&step("GIT_PUSH", args)) {
        Ok(StepCommand::GitPush { remote, branch, dry_run }) => {
            assert_eq!(remote, "upstream");
            assert_eq!(branch, "main");
            assert!(dry_run);
        }
        _ => panic!("expected GIT_PUSH"),
    }
    match resolve_step(&step("INDEX", StepArgs::none())) {
        Ok(StepCommand::Index(c)) => {
            assert_eq!(c.mode, Some("full".to_string()));
            assert!(c.profile.is_none() && c.data_root.is_none());
        }
        _ => panic!("expected INDEX"),
    }
    let mut args = StepArgs::none();
    args.profile = Some("default".to_string());
    args.epochs = Some(3);
    match resolve_step(&step("TRAIN", args)) {
        Ok(StepCommand::Train(c)) => {
            assert_eq!(c.profile, "default");
            assert_eq!(c.epochs, Some(3));
            assert!(c.dataset.is_none() && c.mode.is_none() && !c.dry_run);
        }
        _ => panic!("expected TRAIN"),
    }
}

#[test]
fn bad_steps_fail() {
    match resolve_step(&step("TRAIN", StepArgs::none())) {
        Err(e) => assert_eq!(e, "TRAIN step requires 'profile' field"),
        Ok(_) => panic!("expected a failure"),
    }
    match resolve_step(&step("status", StepArgs::none())) {
        Err(e) => assert_eq!(e, "Unknown command: status. Supported: STATUS, TRAIN, GIT_PUSH, INDEX"),
        Ok(_) => panic!("expected a failure"),
    }
}

fn plan(status: PushVerdict, reasons: &[&str], commits: usize) -> GitPushPlan {
    GitPushPlan {
        status,
        remote: "origin".to_string(),
        branch: "main".to_string(),
        current_branch: "main".to_string(),
        commits: (0..commits).map(|i| format!("c{} msg", i)).collect(),
        files_changed: Vec::new(),
        blocked_reasons: reasons.iter().map(|r| r.to_string()).collect(),
    }
}

#[test]
fn git_step_decisions() {
    match git_step_decision(&Ok(plan(PushVerdict::Blocked, &["A", "B"], 1)), false) {
        GitStepDecision::Fail(m) => assert_eq!(m, "Git push blocked: A, B"),
        _ => panic!("expected a failure"),
    }
    match git_step_decision(&Ok(plan(PushVerdict::Clean, &[], 0)), true) {
        GitStepDecision::Fail(m) => assert_eq!(m, "Git push blocked: Unknown reason"),
        _ => panic!("expected a failure"),
    }
    match git_step_decision(&Err("git missing".to_string()), true) {
        GitStepDecision::Fail(m) => assert_eq!(m, "Git plan failed: git missing"),
        _ => panic!("expected a failure"),
    }
    match git_step_decision(&Ok(plan(PushVerdict::Ready, &[], 12)), true) {
        GitStepDecision::Succeed(m) => assert_eq!(m, "Git plan: 12 commits ready (dry-run, no actual push)"),
        _ => panic!("expected a dry run"),
    }
    assert!(matches!(git_step_decision(&Ok(plan(PushVerdict::Ready, &[], 1)), false), GitStepDecision::Push));
}

#[test]
fn step_outcomes() {
    let pushed = GitPushResult { success: true, message: "ok".to_string() };
    assert_eq!(git_step_outcome(Ok(pushed), 2, "origin", "main"), Ok("Git push successful: 2 commits to origin/main".to_string()));
    let refused = GitPushResult { success: false, message: "Safety check failed".to_string() };
    assert_eq!(git_step_outcome(Ok(refused), 2, "origin", "main"), Err("Git push failed: Safety check failed".to_string()));
    assert_eq!(git_step_outcome(Err("spawn".to_string()), 0, "o", "b"), Err("Git push failed: spawn".to_string()));

    let started = TrainingResult { success: true, message: "job".to_string(), job_id: None };
    assert_eq!(train_outcome(Ok(started)), Ok("Training started: job".to_string()));
    let refused = TrainingResult { success: false, message: "no".to_string(), job_id: None };
    assert_eq!(train_outcome(Ok(refused)), Err("Training failed: no".to_string()));
    assert_eq!(train_outcome(Err("io".to_string())), Err("Training internal error: io".to_string()));

    let done = IndexResult { success: true, message: "idx".to_string(), job_id: None };
    assert_eq!(index_outcome(Ok(done)), Ok("Indexing completed: idx".to_string()));
    let failed = IndexResult { success: false, message: "x".to_string(), job_id: None };
    assert_eq!(index_outcome(Ok(failed)), Err("Indexing failed: x".to_string()));
    assert_eq!(index_outcome(Err("e".to_string())), Err("Indexing internal error: e".to_string()));

    assert_eq!(status_outcome("client"), Ok("System status: OK (client)".to_string()));
}

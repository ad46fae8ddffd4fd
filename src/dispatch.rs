//! Step dispatcher: resolves a step's command name to one of the four
//! actions, with its typed arguments, and turns what each action reported
//! into the step's success message or failure reason.

use vstd::prelude::*;
use vstd::string::*;
use crate::flow::FlowStep;
use crate::git_safety::{GitPushPlan, GitPushResult, PushVerdict};
use crate::jobs::{IndexConfig, IndexResult, TrainingConfig, TrainingResult};
use crate::run_log::{clone_opt, opt_view};
use crate::text::{concat2, concat3, decimal, join, join_strings, push_decimal, same_text, views};

verus! {

/// A step's action, resolved from its command name and arguments.
pub enum StepCommand {
    /// `STATUS`: a static confirmation, no side effect.
    Status,
    /// `TRAIN`: launch a training job.
    Train(TrainingConfig),
    /// `GIT_PUSH`: plan, and unless a dry run, push.
    GitPush { remote: String, branch: String, dry_run: bool },
    /// `INDEX`: launch an indexing job.
    Index(IndexConfig),
}

/// The failure of a step whose command is not one of the four.
pub open spec fn unknown_command_message(cmd: Seq<char>) -> Seq<char> {
    "Unknown command: "@ + cmd + ". Supported: STATUS, TRAIN, GIT_PUSH, INDEX"@
}

/// `o`'s text, or `fallback` when absent.
pub open spec fn text_or(o: Option<String>, fallback: Seq<char>) -> Seq<char> {
    match o {
        Some(s) => s@,
        None => fallback,
    }
}

fn string_or(o: &Option<String>, fallback: &str) -> (r: String)
    ensures
        r@ == text_or(*o, fallback@),
{
    match o {
        Some(s) => s.clone(),
        None => String::from_str(fallback),
    }
}

/// Resolves a step to its action. `TRAIN` needs a profile; `GIT_PUSH`
/// defaults to remote `origin`, branch `main` and a real push; `INDEX`
/// defaults to mode `full`. Any other command name fails.
pub fn resolve_step(step: &FlowStep) -> (r: Result<StepCommand, String>)
    ensures
        step.cmd@ == "STATUS"@ ==> r matches Ok(StepCommand::Status),
        step.cmd@ == "TRAIN"@ ==> match r {
            Ok(StepCommand::Train(c)) => {
                &&& step.args.profile matches Some(p) && c.profile@ == p@
                &&& opt_view(c.dataset) == opt_view(step.args.dataset)
                &&& c.epochs == step.args.epochs
                &&& opt_view(c.mode) == opt_view(step.args.mode)
                &&& !c.dry_run
            },
            Err(e) => step.args.profile is None && e@ == "TRAIN step requires 'profile' field"@,
            _ => false,
        },
        step.cmd@ == "GIT_PUSH"@ ==> (r matches Ok(StepCommand::GitPush { remote, branch, dry_run })
            && remote@ == text_or(step.args.remote, "origin"@) && branch@ == text_or(
            step.args.branch,
            "main"@,
        ) && dry_run == match step.args.dry_run {
            Some(d) => d,
            None => false,
        }),
        step.cmd@ == "INDEX"@ ==> (r matches Ok(StepCommand::Index(c)) && opt_view(c.profile)
            == opt_view(step.args.profile) && c.data_root is None && (c.mode matches Some(m)
            && m@ == text_or(step.args.mode, "full"@))),
        step.cmd@ != "STATUS"@ && step.cmd@ != "TRAIN"@ && step.cmd@ != "GIT_PUSH"@ && step.cmd@
            != "INDEX"@ ==> (r matches Err(e) && e@ == unknown_command_message(step.cmd@)),
{
    let cmd = step.cmd.as_str();
    let args = &step.args;
    proof {
        reveal_strlit("STATUS");
        reveal_strlit("TRAIN");
        reveal_strlit("GIT_PUSH");
        reveal_strlit("INDEX");
        assert("STATUS"@[0] != "TRAIN"@[0] && "STATUS"@[0] != "GIT_PUSH"@[0] && "STATUS"@[0]
            != "INDEX"@[0] && "TRAIN"@[0] != "GIT_PUSH"@[0] && "TRAIN"@[0] != "INDEX"@[0]
            && "GIT_PUSH"@[0] != "INDEX"@[0]);
    }
    if same_text(cmd, "STATUS") {
        Ok(StepCommand::Status)
    } else if same_text(cmd, "TRAIN") {
        match &args.profile {
            None => Err(String::from_str("TRAIN step requires 'profile' field")),
            Some(p) => Ok(
                StepCommand::Train(
                    TrainingConfig {
                        profile: p.clone(),
                        dataset: clone_opt(&args.dataset),
                        epochs: args.epochs,
                        mode: clone_opt(&args.mode),
                        dry_run: false,
                    },
                ),
            ),
        }
    } else if same_text(cmd, "GIT_PUSH") {
        let dry_run = match args.dry_run {
            Some(d) => d,
            None => false,
        };
        Ok(
            StepCommand::GitPush {
                remote: string_or(&args.remote, "origin"),
                branch: string_or(&args.branch, "main"),
                dry_run,
            },
        )
    } else if same_text(cmd, "INDEX") {
        Ok(
            StepCommand::Index(
                IndexConfig {
                    profile: clone_opt(&args.profile),
                    data_root: None,
                    mode: Some(string_or(&args.mode, "full")),
                },
            ),
        )
    } else {
        let mut m = concat2("Unknown command: ", cmd);
        m.append(". Supported: STATUS, TRAIN, GIT_PUSH, INDEX");
        Err(m)
    }
}

/// The success message of the `STATUS` action for application `app_name`.
pub fn status_outcome(app_name: &str) -> (r: Result<String, String>)
    ensures
        r matches Ok(m) && m@ == "System status: OK ("@ + app_name@ + ")"@,
{
    Ok(concat3("System status: OK (", app_name, ")"))
}

/// The step outcome of a training launch: a started job succeeds, a
/// refused or failed one fails, an internal error fails.
pub fn train_outcome(launch: Result<TrainingResult, String>) -> (r: Result<String, String>)
    ensures
        match launch {
            Ok(res) => if res.success {
                r matches Ok(m) && m@ == "Training started: "@ + res.message@
            } else {
                r matches Err(m) && m@ == "Training failed: "@ + res.message@
            },
            Err(e) => r matches Err(m) && m@ == "Training internal error: "@ + e@,
        },
{
    match launch {
        Ok(res) => if res.success {
            Ok(concat2("Training started: ", res.message.as_str()))
        } else {
            Err(concat2("Training failed: ", res.message.as_str()))
        },
        Err(e) => Err(concat2("Training internal error: ", e.as_str())),
    }
}

/// The step outcome of an indexing launch.
pub fn index_outcome(launch: Result<IndexResult, String>) -> (r: Result<String, String>)
    ensures
        match launch {
            Ok(res) => if res.success {
                r matches Ok(m) && m@ == "Indexing completed: "@ + res.message@
            } else {
                r matches Err(m) && m@ == "Indexing failed: "@ + res.message@
            },
            Err(e) => r matches Err(m) && m@ == "Indexing internal error: "@ + e@,
        },
{
    match launch {
        Ok(res) => if res.success {
            Ok(concat2("Indexing completed: ", res.message.as_str()))
        } else {
            Err(concat2("Indexing failed: ", res.message.as_str()))
        },
        Err(e) => Err(concat2("Indexing internal error: ", e.as_str())),
    }
}

/// What a `GIT_PUSH` step does once its plan is known.
pub enum GitStepDecision {
    /// The step fails with this reason; nothing is pushed.
    Fail(String),
    /// The step succeeds with this message; nothing is pushed.
    Succeed(String),
    /// Hand over to the executor.
    Push,
}

/// The reasons a blocked step names: the plan's, or a placeholder when the
/// plan gave none.
pub open spec fn named_reasons(plan: GitPushPlan) -> Seq<Seq<char>> {
    if plan.blocked_reasons@.len() == 0 {
        seq!["Unknown reason"@]
    } else {
        views(plan.blocked_reasons@)
    }
}

/// Decides a `GIT_PUSH` step from its fresh plan: a planning error or a
/// verdict other than `Ready` fails the step with every reason; a dry run
/// succeeds with the number of outgoing commits; otherwise push.
pub fn git_step_decision(plan: &Result<GitPushPlan, String>, dry_run: bool) -> (r: GitStepDecision)
    ensures
        match plan {
            Err(e) => r matches GitStepDecision::Fail(m) && m@ == "Git plan failed: "@ + e@,
            Ok(p) => if p.status != PushVerdict::Ready {
                r matches GitStepDecision::Fail(m) && m@ == "Git push blocked: "@ + join(
                    named_reasons(*p),
                    ", "@,
                )
            } else if dry_run {
                r matches GitStepDecision::Succeed(m) && m@ == "Git plan: "@ + decimal(
                    p.commits@.len(),
                ) + " commits ready (dry-run, no actual push)"@
            } else {
                r is Push
            },
        },
{
    match plan {
        Err(e) => GitStepDecision::Fail(concat2("Git plan failed: ", e.as_str())),
        Ok(p) => {
            if p.status != PushVerdict::Ready {
                let joined = if p.blocked_reasons.len() == 0 {
                    let mut placeholder: Vec<String> = Vec::new();
                    placeholder.push(String::from_str("Unknown reason"));
                    assert(views(placeholder@) =~= seq!["Unknown reason"@]);
                    join_strings(&placeholder, ", ")
                } else {
                    join_strings(&p.blocked_reasons, ", ")
                };
                GitStepDecision::Fail(concat2("Git push blocked: ", joined.as_str()))
            } else if dry_run {
                let mut m = String::from_str("Git plan: ");
                push_decimal(&mut m, p.commits.len() as u64);
                m.append(" commits ready (dry-run, no actual push)");
                GitStepDecision::Succeed(m)
            } else {
                GitStepDecision::Push
            }
        },
    }
}

/// The step outcome of the executor's push of `commits` commits to
/// `remote`/`branch`: a pushed result succeeds; a refused or failed push,
/// or an executor error, fails the step.
pub fn git_step_outcome(
    push: Result<GitPushResult, String>,
    commits: usize,
    remote: &str,
    branch: &str,
) -> (r: Result<String, String>)
    ensures
        match push {
            Err(e) => r matches Err(m) && m@ == "Git push failed: "@ + e@,
            Ok(res) => if res.success {
                r matches Ok(m) && m@ == "Git push successful: "@ + decimal(commits as nat)
                    + " commits to "@ + remote@ + "/"@ + branch@
            } else {
                r matches Err(m) && m@ == "Git push failed: "@ + res.message@
            },
        },
{
    match push {
        Err(e) => Err(concat2("Git push failed: ", e.as_str())),
        Ok(res) => if res.success {
            let mut m = String::from_str("Git push successful: ");
            push_decimal(&mut m, commits as u64);
            m.append(" commits to ");
            m.append(remote);
            m.append("/");
            m.append(branch);
            Ok(m)
        } else {
            Err(concat2("Git push failed: ", res.message.as_str()))
        },
    }
}

} // verus!

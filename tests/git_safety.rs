use flowguard::git_safety::{
    derive_plan, push_gate, push_outcome, CommandOutput, GitPushPlan, GitQuery, PlanError,
    PushDecision, PushVerdict, RepoSnapshot,
};

fn out(success: bool, stdout: &str, stderr: &str) -> CommandOutput {
    CommandOutput { success, stdout: stdout.to_string(), stderr: stderr.to_string() }
}

/// A repository on `main` with the given porcelain status and outgoing log.
fn repo(status: &str, outgoing: &str) -> RepoSnapshot {
    let mut s = RepoSnapshot::new(true);
    s.record(GitQuery::Status, out(true, status, ""));
    s.record(GitQuery::CurrentBranch, out(true, "main\n", ""));
    s.record(GitQuery::RemoteUrl, out(true, "git@example.org:x.git\n", ""));
    s.record(GitQuery::Outgoing, out(true, outgoing, ""));
    s.record(GitQuery::RemoteAhead, out(true, "", ""));
    s
}

fn plan(snap: &RepoSnapshot) -> GitPushPlan {
    match derive_plan("/repo", "origin", "main", snap) {
        Ok(p) => p,
        Err(PlanError::NeedsQuery(q)) => panic!("needs {:?}", q),
        Err(PlanError::GitFailed(m)) => panic!("git failed: {}", m),
    }
}

#[test]
fn missing_marker_directory_blocks() {
    let p = plan(&RepoSnapshot::new(false));
    assert_eq!(p.status, PushVerdict::Blocked);
    assert_eq!(p.blocked_reasons, vec!["Not a Git repository (no .git directory at /repo)".to_string()]);
    assert_eq!(p.remote, "origin");
    assert_eq!(p.branch, "main");
}

#[test]
fn planner_names_queries_in_order() {
    let mut snap = RepoSnapshot::new(true);
    let order = [
        GitQuery::Status,
        GitQuery::CurrentBranch,
        GitQuery::RemoteUrl,
        GitQuery::Outgoing,
        GitQuery::RemoteAhead,
    ];
    let answers = ["", "main", "url", "abc123 commit", ""];
    for (q, a) in order.iter().zip(answers.iter()) {
        match derive_plan("/repo", "origin", "main", &snap) {
            Err(PlanError::NeedsQuery(asked)) => assert_eq!(asked, *q),
            _ => panic!("expected a query"),
        }
        snap.record(*q, out(true, a, ""));
    }
    assert_eq!(plan(&snap).status, PushVerdict::Ready);
}

#[test]
fn clean_tree_without_commits_is_clean() {
    let p = plan(&repo("", ""));
    assert_eq!(p.status, PushVerdict::Clean);
    assert!(p.blocked_reasons.is_empty());
    assert_eq!(p.current_branch, "main");
    assert_eq!(p.status.as_str(), "clean");
}

#[test]
fn outgoing_commits_are_ready() {
    let p = plan(&repo("?? notes.txt\n", "a1b2c3d Add feature\r\nb2c3d4e Fix\n"));
    assert_eq!(p.status, PushVerdict::Ready);
    assert_eq!(p.commits, vec!["a1b2c3d Add feature".to_string(), "b2c3d4e Fix".to_string()]);
    assert_eq!(p.files_changed, vec!["?? notes.txt".to_string()]);
    assert_eq!(p.status.as_str(), "ready");
}

#[test]
fn unstaged_entry_blocks_whatever_is_outgoing() {
    let p = plan(&repo(" M src/main.rs\n", "a1b2c3d Add feature\n"));
    assert_eq!(p.status, PushVerdict::Blocked);
    assert_eq!(p.blocked_reasons, vec!["Unstaged changes detected (use git add)".to_string()]);
    assert!(p.commits.is_empty());
    let both = plan(&repo("MM a.rs\nA  b.rs\n", ""));
    assert_eq!(
        both.blocked_reasons,
        vec![
            "Unstaged changes detected (use git add)".to_string(),
            "Uncommitted changes detected (use git commit)".to_string()
        ]
    );
    let staged = plan(&repo("M  a.rs\n", ""));
    assert_eq!(staged.blocked_reasons, vec!["Uncommitted changes detected (use git commit)".to_string()]);
}

#[test]
fn later_checks_block() {
    let mut s = repo("", "c1 x\n");
    s.record(GitQuery::CurrentBranch, out(true, "  dev \n", ""));
    let p = plan(&s);
    assert_eq!(p.blocked_reasons, vec!["Current branch 'dev' does not match target branch 'main'".to_string()]);
    assert_eq!(p.current_branch, "dev");

    let mut s = repo("", "c1 x\n");
    s.record(GitQuery::RemoteUrl, out(false, "", "error: No such remote"));
    assert_eq!(plan(&s).blocked_reasons, vec!["Remote 'origin' not found (use git remote add)".to_string()]);

    let mut s = repo("", "c1 x\n");
    s.record(GitQuery::Outgoing, out(false, "", "fatal: bad revision: unknown revision or path"));
    assert_eq!(
        plan(&s).blocked_reasons,
        vec!["Branch 'origin/main' does not exist on remote (use git push -u)".to_string()]
    );

    let mut s = repo("", "c1 x\n");
    s.record(GitQuery::RemoteAhead, out(true, "d4 remote work\n", ""));
    let p = plan(&s);
    assert_eq!(p.status, PushVerdict::Blocked);
    assert_eq!(p.blocked_reasons, vec!["Remote is ahead (pull required before push)".to_string()]);
    assert_eq!(p.commits.len(), 1);

    let mut s = repo("", "c1 x\n");
    s.record(GitQuery::RemoteAhead, out(false, "", "fatal: ambiguous argument 'HEAD..origin/main'"));
    assert_eq!(
        plan(&s).blocked_reasons,
        vec!["No upstream branch configured (use git push -u origin main)".to_string()]
    );

    let mut s = repo("", "");
    s.record(GitQuery::RemoteAhead, out(false, "", "something else"));
    assert_eq!(plan(&s).status, PushVerdict::Clean);
}

#[test]
fn git_failures_are_errors() {
    let mut s = repo("", "");
    s.record(GitQuery::Status, out(false, "", "not a repo"));
    match derive_plan("/repo", "origin", "main", &s) {
        Err(PlanError::GitFailed(m)) => assert_eq!(m, "git status failed: not a repo"),
        _ => panic!("expected a failure"),
    }
    let mut s = repo("", "");
    s.record(GitQuery::CurrentBranch, out(false, "", "boom"));
    match derive_plan("/repo", "origin", "main", &s) {
        Err(PlanError::GitFailed(m)) => assert_eq!(m, "git branch failed: boom"),
        _ => panic!("expected a failure"),
    }
    let mut s = repo("", "");
    s.record(GitQuery::Outgoing, out(false, "", "fatal: corrupt"));
    match derive_plan("/repo", "origin", "main", &s) {
        Err(PlanError::GitFailed(m)) => assert_eq!(m, "git log failed: fatal: corrupt"),
        _ => panic!("expected a failure"),
    }
}

#[test]
fn planning_twice_gives_the_same_plan() {
    let s = repo(" D gone.rs\n?? new.rs\n", "c1 x\n");
    let a = plan(&s);
    let b = plan(&s);
    assert_eq!(a.status, b.status);
    assert_eq!(a.blocked_reasons, b.blocked_reasons);
    assert_eq!(a.files_changed, b.files_changed);
}

#[test]
fn blocked_plan_refuses_push() {
    let p = plan(&repo(" M a.rs\n", "c1 x\n"));
    match push_gate(&p) {
        PushDecision::Refuse(r) => {
            assert!(!r.success);
            assert_eq!(
                r.message,
                "Safety check failed: Repository state is 'blocked'. Blocked reasons: Unstaged changes detected (use git add)"
            );
        }
        PushDecision::Push => panic!("a blocked plan must not push"),
    }
    match push_gate(&plan(&repo("", ""))) {
        PushDecision::Refuse(r) => assert_eq!(r.message, "Safety check failed: Repository state is 'clean'. Blocked reasons: "),
        PushDecision::Push => panic!("a clean plan must not push"),
    }
    assert!(matches!(push_gate(&plan(&repo("", "c1 x\n"))), PushDecision::Push));
}

#[test]
fn push_outcomes() {
    let r = push_outcome(&out(true, "done\n", "To example.org\n"));
    assert!(r.success);
    assert_eq!(r.message, "To example.org\ndone\n");
    assert_eq!(push_outcome(&out(true, "", "")).message, "Push completed successfully");
    assert_eq!(push_outcome(&out(true, "only out", "")).message, "only out");
    let f = push_outcome(&out(false, "xy", "rejected\n"));
    assert!(!f.success);
    assert_eq!(f.message, "rejected\nxy");
    assert_eq!(push_outcome(&out(false, "x", "")).message, "x");
    assert_eq!(push_outcome(&out(false, "", "")).message, "Push failed (unknown error)");
}

//! Plan/execute safety protocol for pushing commits to a git remote.
//!
//! Planning is read-only: it derives a readiness verdict from what a fixed,
//! ordered series of git queries report about the working tree and the
//! remote. The queries themselves are run by the caller; [`derive_plan`]
//! names the next query it needs until the snapshot answers every question
//! that the checks reach. Pushing is allowed only on a fresh `Ready` verdict.

use vstd::prelude::*;
use vstd::string::*;
use crate::text::{
    concat2, concat3, contains, contains_str, join, join_strings, lines_of, nonempty_lines, trim,
    trim_str, views,
};

verus! {

/// Readiness verdict of a push plan.
#[derive(PartialEq, Eq, Structural, Clone, Copy, Debug)]
pub enum PushVerdict {
    /// Outgoing commits exist and nothing blocks the push.
    Ready,
    /// At least one blocking reason was found.
    Blocked,
    /// Nothing blocks, but there is nothing to push.
    Clean,
}

impl PushVerdict {
    /// The verdict's lowercase name.
    pub open spec fn name(self) -> Seq<char> {
        match self {
            PushVerdict::Ready => "ready"@,
            PushVerdict::Blocked => "blocked"@,
            PushVerdict::Clean => "clean"@,
        }
    }

    /// The verdict's lowercase name.
    pub fn as_str(&self) -> (r: &'static str)
        ensures
            r@ == self.name(),
    {
        match self {
            PushVerdict::Ready => "ready",
            PushVerdict::Blocked => "blocked",
            PushVerdict::Clean => "clean",
        }
    }
}

/// One read-only git query of the planner, in the order the checks run.
#[derive(PartialEq, Eq, Structural, Clone, Copy, Debug)]
pub enum GitQuery {
    /// `git status --porcelain`
    Status,
    /// `git branch --show-current`
    CurrentBranch,
    /// `git remote get-url <remote>`
    RemoteUrl,
    /// `git log <remote>/<branch>..HEAD --oneline --no-decorate`
    Outgoing,
    /// `git log HEAD..<remote>/<branch> --oneline --no-decorate`
    RemoteAhead,
}

/// What a finished external command reported.
pub struct CommandOutput {
    /// Whether it exited with status zero.
    pub success: bool,
    /// Its standard output, decoded.
    pub stdout: String,
    /// Its standard error, decoded.
    pub stderr: String,
}

/// What is known of a repository: whether its marker directory exists, and
/// the outputs of those queries that have been run.
pub struct RepoSnapshot {
    pub has_git_dir: bool,
    pub status: Option<CommandOutput>,
    pub current_branch: Option<CommandOutput>,
    pub remote_url: Option<CommandOutput>,
    pub outgoing: Option<CommandOutput>,
    pub remote_ahead: Option<CommandOutput>,
}

impl RepoSnapshot {
    /// A snapshot with no query run yet.
    pub fn new(has_git_dir: bool) -> (r: RepoSnapshot)
        ensures
            r.has_git_dir == has_git_dir,
            r.status is None,
            r.current_branch is None,
            r.remote_url is None,
            r.outgoing is None,
            r.remote_ahead is None,
    {
        RepoSnapshot {
            has_git_dir,
            status: None,
            current_branch: None,
            remote_url: None,
            outgoing: None,
            remote_ahead: None,
        }
    }

    /// Every query has an answer.
    pub open spec fn is_complete(&self) -> bool {
        &&& self.status is Some
        &&& self.current_branch is Some
        &&& self.remote_url is Some
        &&& self.outgoing is Some
        &&& self.remote_ahead is Some
    }

    /// Records the output of `query`, replacing an earlier one.
    pub fn record(&mut self, query: GitQuery, output: CommandOutput)
        ensures
            final(self).has_git_dir == old(self).has_git_dir,
            final(self).status == (if query == GitQuery::Status {
                Some(output)
            } else {
                old(self).status
            }),
            final(self).current_branch == (if query == GitQuery::CurrentBranch {
                Some(output)
            } else {
                old(self).current_branch
            }),
            final(self).remote_url == (if query == GitQuery::RemoteUrl {
                Some(output)
            } else {
                old(self).remote_url
            }),
            final(self).outgoing == (if query == GitQuery::Outgoing {
                Some(output)
            } else {
                old(self).outgoing
            }),
            final(self).remote_ahead == (if query == GitQuery::RemoteAhead {
                Some(output)
            } else {
                old(self).remote_ahead
            }),
    {
        match query {
            GitQuery::Status => self.status = Some(output),
            GitQuery::CurrentBranch => self.current_branch = Some(output),
            GitQuery::RemoteUrl => self.remote_url = Some(output),
            GitQuery::Outgoing => self.outgoing = Some(output),
            GitQuery::RemoteAhead => self.remote_ahead = Some(output),
        }
    }
}

/// Result of planning a push.
pub struct GitPushPlan {
    /// Readiness verdict.
    pub status: PushVerdict,
    /// Remote name, as asked.
    pub remote: String,
    /// Target branch, as asked.
    pub branch: String,
    /// Branch checked out in the working tree, once known.
    pub current_branch: String,
    /// Outgoing commits, one `git log --oneline` line each.
    pub commits: Vec<String>,
    /// Working-tree entries, one porcelain status line each.
    pub files_changed: Vec<String>,
    /// Every reason found that blocks the push, in the order found.
    pub blocked_reasons: Vec<String>,
}

/// Mathematical model of a [`GitPushPlan`].
pub struct PlanModel {
    pub status: PushVerdict,
    pub remote: Seq<char>,
    pub branch: Seq<char>,
    pub current_branch: Seq<char>,
    pub commits: Seq<Seq<char>>,
    pub files_changed: Seq<Seq<char>>,
    pub blocked_reasons: Seq<Seq<char>>,
}

impl View for GitPushPlan {
    type V = PlanModel;

    open spec fn view(&self) -> PlanModel {
        PlanModel {
            status: self.status,
            remote: self.remote@,
            branch: self.branch@,
            current_branch: self.current_branch@,
            commits: views(self.commits@),
            files_changed: views(self.files_changed@),
            blocked_reasons: views(self.blocked_reasons@),
        }
    }
}

/// Why no plan came out.
pub enum PlanError {
    /// The checks reached a query that the snapshot has no answer for.
    NeedsQuery(GitQuery),
    /// A git query failed in a way that says nothing about push safety.
    GitFailed(String),
}

/// Model of a [`PlanError`].
pub enum PlanFailure {
    NeedsQuery(GitQuery),
    GitFailed(Seq<char>),
}

impl View for PlanError {
    type V = PlanFailure;

    open spec fn view(&self) -> PlanFailure {
        match self {
            PlanError::NeedsQuery(q) => PlanFailure::NeedsQuery(*q),
            PlanError::GitFailed(m) => PlanFailure::GitFailed(m@),
        }
    }
}

/// Model of a planning result.
pub open spec fn plan_result_view(r: Result<GitPushPlan, PlanError>) -> Result<PlanModel, PlanFailure> {
    match r {
        Ok(p) => Ok(p@),
        Err(e) => Err(e@),
    }
}

pub open spec fn not_repo_reason(root: Seq<char>) -> Seq<char> {
    "Not a Git repository (no .git directory at "@ + root + ")"@
}

pub open spec fn unstaged_reason() -> Seq<char> {
    "Unstaged changes detected (use git add)"@
}

pub open spec fn uncommitted_reason() -> Seq<char> {
    "Uncommitted changes detected (use git commit)"@
}

pub open spec fn branch_mismatch_reason(current: Seq<char>, target: Seq<char>) -> Seq<char> {
    "Current branch '"@ + current + "' does not match target branch '"@ + target + "'"@
}

pub open spec fn missing_remote_reason(remote: Seq<char>) -> Seq<char> {
    "Remote '"@ + remote + "' not found (use git remote add)"@
}

pub open spec fn missing_remote_branch_reason(remote: Seq<char>, branch: Seq<char>) -> Seq<char> {
    "Branch '"@ + remote + "/"@ + branch + "' does not exist on remote (use git push -u)"@
}

pub open spec fn remote_ahead_reason() -> Seq<char> {
    "Remote is ahead (pull required before push)"@
}

pub open spec fn no_upstream_reason(remote: Seq<char>, branch: Seq<char>) -> Seq<char> {
    "No upstream branch configured (use git push -u "@ + remote + " "@ + branch + ")"@
}

/// An untracked entry (`??`) of porcelain status.
pub open spec fn is_untracked(entry: Seq<char>) -> bool {
    entry.len() >= 2 && entry[0] == '?' && entry[1] == '?'
}

/// A porcelain entry with a change in the working tree that is not staged.
pub open spec fn is_unstaged(entry: Seq<char>) -> bool {
    entry.len() >= 2 && entry[1] != ' ' && !is_untracked(entry)
}

/// A porcelain entry with a staged change that is not committed.
pub open spec fn is_uncommitted(entry: Seq<char>) -> bool {
    entry.len() >= 2 && entry[0] != ' ' && !is_untracked(entry)
}

pub open spec fn has_unstaged(entries: Seq<Seq<char>>) -> bool {
    exists|i: int| 0 <= i < entries.len() && is_unstaged(#[trigger] entries[i])
}

pub open spec fn has_uncommitted(entries: Seq<Seq<char>>) -> bool {
    exists|i: int| 0 <= i < entries.len() && is_uncommitted(#[trigger] entries[i])
}

/// The reasons that the working-tree entries block a push, unstaged first.
pub open spec fn status_reasons(entries: Seq<Seq<char>>) -> Seq<Seq<char>> {
    (if has_unstaged(entries) {
        seq![unstaged_reason()]
    } else {
        Seq::empty()
    }) + (if has_uncommitted(entries) {
        seq![uncommitted_reason()]
    } else {
        Seq::empty()
    })
}

/// The reasons that the remote-ahead query blocks a push.
pub open spec fn ahead_reasons(out: CommandOutput, remote: Seq<char>, branch: Seq<char>) -> Seq<Seq<char>> {
    if out.success {
        if trim(out.stdout@).len() > 0 {
            seq![remote_ahead_reason()]
        } else {
            Seq::empty()
        }
    } else if contains(out.stderr@, "ambiguous argument"@) || contains(
        out.stderr@,
        "unknown revision"@,
    ) {
        seq![no_upstream_reason(remote, branch)]
    } else {
        Seq::empty()
    }
}

/// Readiness of a plan: any blocking reason makes it blocked; otherwise it is
/// clean without outgoing commits and ready with some.
pub open spec fn verdict_of(reasons: Seq<Seq<char>>, commits: Seq<Seq<char>>) -> PushVerdict {
    if reasons.len() > 0 {
        PushVerdict::Blocked
    } else if commits.len() == 0 {
        PushVerdict::Clean
    } else {
        PushVerdict::Ready
    }
}

/// A blocked plan as far as the checks got.
pub open spec fn blocked_model(
    remote: Seq<char>,
    branch: Seq<char>,
    current: Seq<char>,
    files: Seq<Seq<char>>,
    reasons: Seq<Seq<char>>,
) -> PlanModel {
    PlanModel {
        status: PushVerdict::Blocked,
        remote,
        branch,
        current_branch: current,
        commits: Seq::empty(),
        files_changed: files,
        blocked_reasons: reasons,
    }
}

/// The plan that the ordered checks derive from `snap`, stopping at the
/// first conclusive block; or the query they need next; or a git failure.
pub open spec fn plan_outcome(
    root: Seq<char>,
    remote: Seq<char>,
    branch: Seq<char>,
    snap: RepoSnapshot,
) -> Result<PlanModel, PlanFailure> {
    if !snap.has_git_dir {
        Ok(blocked_model(remote, branch, Seq::empty(), Seq::empty(), seq![not_repo_reason(root)]))
    } else if snap.status is None {
        Err(PlanFailure::NeedsQuery(GitQuery::Status))
    } else if !snap.status->0.success {
        Err(PlanFailure::GitFailed("git status failed: "@ + snap.status->0.stderr@))
    } else {
        let files = nonempty_lines(snap.status->0.stdout@);
        if status_reasons(files).len() > 0 {
            Ok(blocked_model(remote, branch, Seq::empty(), files, status_reasons(files)))
        } else if snap.current_branch is None {
            Err(PlanFailure::NeedsQuery(GitQuery::CurrentBranch))
        } else if !snap.current_branch->0.success {
            Err(PlanFailure::GitFailed("git branch failed: "@ + snap.current_branch->0.stderr@))
        } else {
            let current = trim(snap.current_branch->0.stdout@);
            if current != branch {
                Ok(
                    blocked_model(
                        remote,
                        branch,
                        current,
                        files,
                        seq![branch_mismatch_reason(current, branch)],
                    ),
                )
            } else if snap.remote_url is None {
                Err(PlanFailure::NeedsQuery(GitQuery::RemoteUrl))
            } else if !snap.remote_url->0.success {
                Ok(blocked_model(remote, branch, current, files, seq![missing_remote_reason(remote)]))
            } else if snap.outgoing is None {
                Err(PlanFailure::NeedsQuery(GitQuery::Outgoing))
            } else if !snap.outgoing->0.success {
                let err = snap.outgoing->0.stderr@;
                if contains(err, "unknown revision"@) || contains(err, "does not have any commits"@) {
                    Ok(
                        blocked_model(
                            remote,
                            branch,
                            current,
                            files,
                            seq![missing_remote_branch_reason(remote, branch)],
                        ),
                    )
                } else {
                    Err(PlanFailure::GitFailed("git log failed: "@ + err))
                }
            } else if snap.remote_ahead is None {
                Err(PlanFailure::NeedsQuery(GitQuery::RemoteAhead))
            } else {
                let commits = nonempty_lines(snap.outgoing->0.stdout@);
                let reasons = ahead_reasons(snap.remote_ahead->0, remote, branch);
                Ok(
                    PlanModel {
                        status: verdict_of(reasons, commits),
                        remote,
                        branch,
                        current_branch: current,
                        commits,
                        files_changed: files,
                        blocked_reasons: reasons,
                    },
                )
            }
        }
    }
}

/// Whether a porcelain status entry is unstaged, and whether it is uncommitted.
fn classify_entry(entry: &str) -> (r: (bool, bool))
    ensures
        r.0 == is_unstaged(entry@),
        r.1 == is_uncommitted(entry@),
{
    let n = entry.unicode_len();
    if n < 2 {
        return (false, false);
    }
    let first = entry.get_char(0);
    let second = entry.get_char(1);
    let untracked = first == '?' && second == '?';
    (second != ' ' && !untracked, first != ' ' && !untracked)
}

/// The blocking reasons of a set of porcelain status entries.
fn status_blockers(entries: &Vec<String>) -> (r: Vec<String>)
    ensures
        views(r@) == status_reasons(views(entries@)),
{
    let ghost es = views(entries@);
    let mut unstaged = false;
    let mut uncommitted = false;
    let mut i: usize = 0;
    while i < entries.len()
        invariant
            i <= entries.len(),
            es == views(entries@),
            unstaged == exists|j: int| 0 <= j < i && is_unstaged(#[trigger] es[j]),
            uncommitted == exists|j: int| 0 <= j < i && is_uncommitted(#[trigger] es[j]),
        decreases entries.len() - i,
    {
        let (u, c) = classify_entry(entries[i].as_str());
        proof {
            assert(es[i as int] == entries@[i as int]@);
            if u {
                assert(is_unstaged(es[i as int]));
            }
            if c {
                assert(is_uncommitted(es[i as int]));
            }
        }
        unstaged = unstaged || u;
        uncommitted = uncommitted || c;
        i = i + 1;
    }
    let mut reasons: Vec<String> = Vec::new();
    if unstaged {
        reasons.push(String::from_str("Unstaged changes detected (use git add)"));
    }
    if uncommitted {
        reasons.push(String::from_str("Uncommitted changes detected (use git commit)"));
    }
    assert(views(reasons@) =~= status_reasons(es));
    reasons
}

/// A one-element list holding `s`.
fn single(s: String) -> (r: Vec<String>)
    ensures
        views(r@) == seq![s@],
{
    let mut r: Vec<String> = Vec::new();
    r.push(s);
    assert(views(r@) =~= seq![s@]);
    r
}

/// The reasons that the remote-ahead query blocks a push.
fn ahead_blockers(out: &CommandOutput, remote: &str, branch: &str) -> (r: Vec<String>)
    ensures
        views(r@) == ahead_reasons(*out, remote@, branch@),
{
    if out.success {
        if trim_str(out.stdout.as_str()).unicode_len() > 0 {
            single(String::from_str("Remote is ahead (pull required before push)"))
        } else {
            let r: Vec<String> = Vec::new();
            assert(views(r@) =~= Seq::<Seq<char>>::empty());
            r
        }
    } else if contains_str(out.stderr.as_str(), "ambiguous argument") || contains_str(
        out.stderr.as_str(),
        "unknown revision",
    ) {
        let mut m = concat3("No upstream branch configured (use git push -u ", remote, " ");
        m.append(branch);
        m.append(")");
        single(m)
    } else {
        let r: Vec<String> = Vec::new();
        assert(views(r@) =~= Seq::<Seq<char>>::empty());
        r
    }
}

/// A blocked plan as far as the checks got.
fn blocked_plan(
    remote: &str,
    branch: &str,
    current: String,
    files: Vec<String>,
    reasons: Vec<String>,
) -> (r: GitPushPlan)
    ensures
        r@ == blocked_model(remote@, branch@, current@, views(files@), views(reasons@)),
{
    let r = GitPushPlan {
        status: PushVerdict::Blocked,
        remote: String::from_str(remote),
        branch: String::from_str(branch),
        current_branch: current,
        commits: Vec::new(),
        files_changed: files,
        blocked_reasons: reasons,
    };
    assert(views(r.commits@) =~= Seq::<Seq<char>>::empty());
    r
}

/// Derives the push plan for `remote`/`branch` of the repository at
/// `repo_root` from what `snap` records, running the checks in order and
/// stopping at the first conclusive block. Where a check needs a query that
/// `snap` does not answer yet, the result names that query.
pub fn derive_plan(repo_root: &str, remote: &str, branch: &str, snap: &RepoSnapshot) -> (r: Result<
    GitPushPlan,
    PlanError,
>)
    ensures
        plan_result_view(r) == plan_outcome(repo_root@, remote@, branch@, *snap),
{
    if !snap.has_git_dir {
        let reason = concat3("Not a Git repository (no .git directory at ", repo_root, ")");
        let none: Vec<String> = Vec::new();
        assert(views(none@) =~= Seq::<Seq<char>>::empty());
        return Ok(blocked_plan(remote, branch, String::new(), none, single(reason)));
    }
    let status = match &snap.status {
        None => return Err(PlanError::NeedsQuery(GitQuery::Status)),
        Some(o) => o,
    };
    if !status.success {
        return Err(
            PlanError::GitFailed(concat2("git status failed: ", status.stderr.as_str())),
        );
    }
    let files = lines_of(status.stdout.as_str());
    let status_block = status_blockers(&files);
    if status_block.len() > 0 {
        return Ok(blocked_plan(remote, branch, String::new(), files, status_block));
    }
    let branch_out = match &snap.current_branch {
        None => return Err(PlanError::NeedsQuery(GitQuery::CurrentBranch)),
        Some(o) => o,
    };
    if !branch_out.success {
        return Err(
            PlanError::GitFailed(concat2("git branch failed: ", branch_out.stderr.as_str())),
        );
    }
    let current = String::from_str(trim_str(branch_out.stdout.as_str()));
    let target = String::from_str(branch);
    if current != target {
        let mut m = concat3("Current branch '", current.as_str(), "' does not match target branch '");
        m.append(branch);
        m.append("'");
        return Ok(blocked_plan(remote, branch, current, files, single(m)));
    }
    let url_out = match &snap.remote_url {
        None => return Err(PlanError::NeedsQuery(GitQuery::RemoteUrl)),
        Some(o) => o,
    };
    if !url_out.success {
        let m = concat3("Remote '", remote, "' not found (use git remote add)");
        return Ok(blocked_plan(remote, branch, current, files, single(m)));
    }
    let log_out = match &snap.outgoing {
        None => return Err(PlanError::NeedsQuery(GitQuery::Outgoing)),
        Some(o) => o,
    };
    if !log_out.success {
        if contains_str(log_out.stderr.as_str(), "unknown revision") || contains_str(
            log_out.stderr.as_str(),
            "does not have any commits",
        ) {
            let mut m = concat3("Branch '", remote, "/");
            m.append(branch);
            m.append("' does not exist on remote (use git push -u)");
            return Ok(blocked_plan(remote, branch, current, files, single(m)));
        }
        return Err(PlanError::GitFailed(concat2("git log failed: ", log_out.stderr.as_str())));
    }
    let ahead_out = match &snap.remote_ahead {
        None => return Err(PlanError::NeedsQuery(GitQuery::RemoteAhead)),
        Some(o) => o,
    };
    let commits = lines_of(log_out.stdout.as_str());
    let reasons = ahead_blockers(ahead_out, remote, branch);
    let status = if reasons.len() > 0 {
        PushVerdict::Blocked
    } else if commits.len() == 0 {
        PushVerdict::Clean
    } else {
        PushVerdict::Ready
    };
    Ok(
        GitPushPlan {
            status,
            remote: String::from_str(remote),
            branch: String::from_str(branch),
            current_branch: current,
            commits,
            files_changed: files,
            blocked_reasons: reasons,
        },
    )
}

/// Result of a push attempt.
pub struct GitPushResult {
    pub success: bool,
    /// What the tool reported, or why the push was refused.
    pub message: String,
}

/// Whether a push may go ahead on a freshly derived plan.
pub enum PushDecision {
    /// The plan is not ready: this failure is the answer, and nothing is pushed.
    Refuse(GitPushResult),
    /// The plan is ready: push.
    Push,
}

/// The message of a refused push.
pub open spec fn refusal_message(plan: PlanModel) -> Seq<char> {
    "Safety check failed: Repository state is '"@ + plan.status.name() + "'. Blocked reasons: "@
        + join(plan.blocked_reasons, ", "@)
}

/// Gate of the executor: only a `Ready` plan lets the push go ahead; any
/// other verdict is refused with a failure naming the verdict and every
/// blocking reason.
pub fn push_gate(plan: &GitPushPlan) -> (r: PushDecision)
    ensures
        r is Push <==> plan.status == PushVerdict::Ready,
        r matches PushDecision::Refuse(res) ==> !res.success && res.message@ == refusal_message(
            plan@,
        ),
{
    match plan.status {
        PushVerdict::Ready => PushDecision::Push,
        _ => {
            let mut m = concat3(
                "Safety check failed: Repository state is '",
                plan.status.as_str(),
                "'. Blocked reasons: ",
            );
            let reasons = join_strings(&plan.blocked_reasons, ", ");
            m.append(reasons.as_str());
            PushDecision::Refuse(GitPushResult { success: false, message: m })
        },
    }
}

/// The result of a push from what the push command reported. Both streams
/// are informational whatever the outcome, standard error first.
pub fn push_outcome(out: &CommandOutput) -> (r: GitPushResult)
    ensures
        r.success == out.success,
        out.success ==> r.message@ == (if out.stderr@.len() + out.stdout@.len() == 0 {
            "Push completed successfully"@
        } else {
            out.stderr@ + out.stdout@
        }),
        !out.success ==> r.message@ == (if out.stderr@.len() + out.stdout@.len() == 0 {
            "Push failed (unknown error)"@
        } else {
            out.stderr@ + out.stdout@
        }),
{
    let combined = concat2(out.stderr.as_str(), out.stdout.as_str());
    let empty = combined.as_str().unicode_len() == 0;
    if out.success {
        if empty {
            GitPushResult { success: true, message: String::from_str("Push completed successfully") }
        } else {
            GitPushResult { success: true, message: combined }
        }
    } else if empty {
        GitPushResult { success: false, message: String::from_str("Push failed (unknown error)") }
    } else {
        GitPushResult { success: false, message: combined }
    }
}

/// Planning twice on the same repository state gives the same verdict and
/// the same reasons: the plan depends on nothing but that state.
pub proof fn lemma_plan_repeatable(
    root: Seq<char>,
    remote: Seq<char>,
    branch: Seq<char>,
    snap: RepoSnapshot,
    first: Result<GitPushPlan, PlanError>,
    second: Result<GitPushPlan, PlanError>,
)
    requires
        plan_result_view(first) == plan_outcome(root, remote, branch, snap),
        plan_result_view(second) == plan_outcome(root, remote, branch, snap),
    ensures
        match (first, second) {
            (Ok(a), Ok(b)) => a.status == b.status && views(a.blocked_reasons@) == views(
                b.blocked_reasons@,
            ) && views(a.commits@) == views(b.commits@),
            (Err(x), Err(y)) => x@ == y@,
            _ => false,
        },
{
}

/// A repository whose every query answered and whose remote and branch
/// check out: the marker directory exists, the status query, the branch
/// query (naming the target branch), the remote query and both log queries
/// succeeded, and the remote has nothing the local branch lacks.
pub open spec fn remote_and_branch_valid(branch: Seq<char>, snap: RepoSnapshot) -> bool {
    &&& snap.has_git_dir
    &&& snap.is_complete()
    &&& snap.status->0.success
    &&& snap.current_branch->0.success
    &&& trim(snap.current_branch->0.stdout@) == branch
    &&& snap.remote_url->0.success
    &&& snap.outgoing->0.success
    &&& snap.remote_ahead->0.success
    &&& trim(snap.remote_ahead->0.stdout@).len() == 0
}

/// A working tree with no uncommitted and no unstaged entry, nothing
/// outgoing, and a valid remote and branch, plans as `Clean`.
pub proof fn lemma_quiet_tree_is_clean(
    root: Seq<char>,
    remote: Seq<char>,
    branch: Seq<char>,
    snap: RepoSnapshot,
)
    requires
        remote_and_branch_valid(branch, snap),
        !has_unstaged(nonempty_lines(snap.status->0.stdout@)),
        !has_uncommitted(nonempty_lines(snap.status->0.stdout@)),
        nonempty_lines(snap.outgoing->0.stdout@).len() == 0,
    ensures
        plan_outcome(root, remote, branch, snap) matches Ok(p) && p.status == PushVerdict::Clean
            && p.blocked_reasons.len() == 0,
{
    assert(status_reasons(nonempty_lines(snap.status->0.stdout@)).len() == 0);
}

/// The same tree with at least one outgoing commit plans as `Ready`.
pub proof fn lemma_outgoing_commits_are_ready(
    root: Seq<char>,
    remote: Seq<char>,
    branch: Seq<char>,
    snap: RepoSnapshot,
)
    requires
        remote_and_branch_valid(branch, snap),
        !has_unstaged(nonempty_lines(snap.status->0.stdout@)),
        !has_uncommitted(nonempty_lines(snap.status->0.stdout@)),
        nonempty_lines(snap.outgoing->0.stdout@).len() >= 1,
    ensures
        plan_outcome(root, remote, branch, snap) matches Ok(p) && p.status == PushVerdict::Ready
            && p.commits == nonempty_lines(snap.outgoing->0.stdout@),
{
    assert(status_reasons(nonempty_lines(snap.status->0.stdout@)).len() == 0);
}

/// In a repository whose status query succeeded, one unstaged entry blocks
/// the push and is named among the reasons, whatever else holds.
pub proof fn lemma_unstaged_blocks(
    root: Seq<char>,
    remote: Seq<char>,
    branch: Seq<char>,
    snap: RepoSnapshot,
)
    requires
        snap.has_git_dir,
        snap.status matches Some(o) && o.success,
        has_unstaged(nonempty_lines(snap.status->0.stdout@)),
    ensures
        plan_outcome(root, remote, branch, snap) matches Ok(p) && p.status == PushVerdict::Blocked
            && p.blocked_reasons.contains(unstaged_reason()),
{
    let reasons = status_reasons(nonempty_lines(snap.status->0.stdout@));
    assert(reasons[0] == unstaged_reason());
}

} // verus!

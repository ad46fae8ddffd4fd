//! Flow execution engine: a single-flight, step-sequenced runner with a
//! failure policy per step.
//!
//! The engine decides; the caller acts. [`FlowStatus::try_start`] admits at
//! most one run at a time. A [`FlowRun`] then says what to do next
//! ([`FlowRun::next_action`]): dispatch a step, complete the run, or
//! nothing. The caller dispatches the step, hands the outcome back to
//! [`FlowRun::finish_step`], and writes the log entries and publishes the
//! status snapshots that each transition returns or leaves behind.

use vstd::prelude::*;
use vstd::string::*;
use crate::run_log::{
    FlowLogEntry,
    LogStatus,
    entry_is,
    flow_started_message,
    step_failed_message,
    step_started_message,
    flow_complete_entry,
    flow_started_entry,
    run_id_for,
    step_error_entry,
    step_started_entry,
    step_success_entry,
};
use crate::text::{concat2, concat3, decimal, push_decimal, signed_decimal, views};

verus! {

/// What a failing step does to its run.
#[derive(PartialEq, Eq, Structural, Clone, Copy, Debug)]
pub enum FailurePolicy {
    /// Stop the run; it ends in error.
    Abort,
    /// Record the failure and go on with the next step.
    Continue,
}

/// Typed arguments of a step; a command reads those it knows.
pub struct StepArgs {
    pub profile: Option<String>,
    pub dataset: Option<String>,
    pub epochs: Option<u32>,
    pub mode: Option<String>,
    pub remote: Option<String>,
    pub branch: Option<String>,
    pub dry_run: Option<bool>,
}

impl StepArgs {
    /// Arguments with nothing set.
    pub fn none() -> (r: StepArgs)
        ensures
            r.profile is None,
            r.dataset is None,
            r.epochs is None,
            r.mode is None,
            r.remote is None,
            r.branch is None,
            r.dry_run is None,
    {
        StepArgs {
            profile: None,
            dataset: None,
            epochs: None,
            mode: None,
            remote: None,
            branch: None,
            dry_run: None,
        }
    }
}

/// One command invocation within a flow.
pub struct FlowStep {
    pub id: String,
    /// Command name, one of `STATUS`, `TRAIN`, `GIT_PUSH`, `INDEX`.
    pub cmd: String,
    pub args: StepArgs,
    pub on_failure: FailurePolicy,
}

/// A named, ordered list of steps run as one unit of work.
pub struct Flow {
    pub id: String,
    pub name: String,
    pub description: String,
    pub steps: Vec<FlowStep>,
}

/// The failure policies of a flow's steps, in order.
pub open spec fn policies(flow: Flow) -> Seq<FailurePolicy> {
    flow.steps@.map_values(|s: FlowStep| s.on_failure)
}

/// The flow installed when no flow definitions exist yet: a status check,
/// then a dry-run push plan of `origin`/`main` whose failure is tolerated.
pub fn smoke_test_flow() -> (r: Flow)
    ensures
        r.id@ == "smoke_test"@,
        r.steps@.len() == 2,
        r.steps@[0].id@ == "step_1"@,
        r.steps@[0].cmd@ == "STATUS"@,
        r.steps@[0].on_failure == FailurePolicy::Abort,
        r.steps@[1].id@ == "step_2"@,
        r.steps@[1].cmd@ == "GIT_PUSH"@,
        r.steps@[1].on_failure == FailurePolicy::Continue,
        r.steps@[1].args.remote matches Some(x) && x@ == "origin"@,
        r.steps@[1].args.branch matches Some(x) && x@ == "main"@,
        r.steps@[1].args.dry_run == Some(true),
{
    let mut push_args = StepArgs::none();
    push_args.remote = Some(String::from_str("origin"));
    push_args.branch = Some(String::from_str("main"));
    push_args.dry_run = Some(true);
    let mut steps: Vec<FlowStep> = Vec::new();
    steps.push(
        FlowStep {
            id: String::from_str("step_1"),
            cmd: String::from_str("STATUS"),
            args: StepArgs::none(),
            on_failure: FailurePolicy::Abort,
        },
    );
    steps.push(
        FlowStep {
            id: String::from_str("step_2"),
            cmd: String::from_str("GIT_PUSH"),
            args: push_args,
            on_failure: FailurePolicy::Continue,
        },
    );
    Flow {
        id: String::from_str("smoke_test"),
        name: String::from_str("Smoke Test Cycle"),
        description: String::from_str("Quick check: Status + Dry-run Git Push"),
        steps,
    }
}

/// Snapshot of the engine's run state.
pub struct FlowStatus {
    pub is_running: bool,
    pub current_flow_id: Option<String>,
    pub current_step_index: Option<usize>,
    pub total_steps: Option<usize>,
    pub last_error: Option<String>,
    /// Human-readable progress lines of the current or last run.
    pub logs: Vec<String>,
}

/// Why a run was not started.
pub enum FlowError {
    /// No known flow has this id.
    NotFound(String),
    /// A run is already active.
    AlreadyRunning,
}

impl FlowError {
    /// A message for the caller.
    pub fn message(&self) -> (r: String)
        ensures
            r@ == match self {
                FlowError::NotFound(id) => "Flow not found: "@ + id@,
                FlowError::AlreadyRunning => "A flow is already running"@,
            },
    {
        match self {
            FlowError::NotFound(id) => concat2("Flow not found: ", id.as_str()),
            FlowError::AlreadyRunning => String::from_str("A flow is already running"),
        }
    }
}

/// Index of the first flow with id `id`.
pub open spec fn first_flow_with_id(flows: Seq<Flow>, id: Seq<char>) -> Option<int> {
    if exists|i: int| 0 <= i < flows.len() && flows[i].id@ == id {
        let i = choose|i: int|
            0 <= i < flows.len() && flows[i].id@ == id && forall|j: int|
                0 <= j < i ==> flows[j].id@ != id;
        Some(i)
    } else {
        None
    }
}

/// Index of the first flow with id `flow_id`.
pub fn find_flow(flows: &Vec<Flow>, flow_id: &str) -> (r: Option<usize>)
    ensures
        match r {
            Some(i) => i < flows@.len() && flows@[i as int].id@ == flow_id@ && forall|j: int|
                0 <= j < i ==> flows@[j].id@ != flow_id@,
            None => forall|j: int| 0 <= j < flows@.len() ==> flows@[j].id@ != flow_id@,
        },
        r is None ==> first_flow_with_id(flows@, flow_id@) is None,
{
    let target = String::from_str(flow_id);
    let mut i: usize = 0;
    while i < flows.len()
        invariant
            i <= flows.len(),
            target@ == flow_id@,
            forall|j: int| 0 <= j < i ==> flows@[j].id@ != flow_id@,
        decreases flows.len() - i,
    {
        if flows[i].id == target {
            return Some(i);
        }
        i = i + 1;
    }
    None
}

impl FlowStatus {
    /// The state of an engine that has never run anything.
    pub fn idle() -> (r: FlowStatus)
        ensures
            !r.is_running,
            r.current_flow_id is None,
            r.current_step_index is None,
            r.total_steps is None,
            r.last_error is None,
            r.logs@.len() == 0,
    {
        FlowStatus {
            is_running: false,
            current_flow_id: None,
            current_step_index: None,
            total_steps: None,
            last_error: None,
            logs: Vec::new(),
        }
    }

    /// Starts a run of the first flow among `flows` with id `flow_id`. An id
    /// that no flow has is `NotFound`, whether or not a run is active; a
    /// known flow while a run is active is `AlreadyRunning`. On success the
    /// state is running at step 0 of that flow, with the earlier run's error
    /// and log lines cleared, and the result is the flow's index. On failure
    /// nothing changes.
    pub fn try_start(&mut self, flows: &Vec<Flow>, flow_id: &str) -> (r: Result<usize, FlowError>)
        ensures
            match first_flow_with_id(flows@, flow_id@) {
                None => {
                    &&& r matches Err(FlowError::NotFound(id)) && id@ == flow_id@
                    &&& *final(self) == *old(self)
                },
                Some(i) => if old(self).is_running {
                    &&& r matches Err(FlowError::AlreadyRunning)
                    &&& *final(self) == *old(self)
                } else {
                    &&& r matches Ok(k) && k == i
                    &&& final(self).is_running
                    &&& final(self).current_flow_id matches Some(f) && f@ == flow_id@
                    &&& final(self).current_step_index == Some(0usize)
                    &&& final(self).total_steps == Some(flows@[i].steps@.len() as usize)
                    &&& final(self).last_error is None
                    &&& views(final(self).logs@) == seq!["Starting flow: "@ + flows@[i].name@]
                },
            },
    {
        let i = match find_flow(flows, flow_id) {
            None => return Err(FlowError::NotFound(String::from_str(flow_id))),
            Some(i) => i,
        };
        proof {
            lemma_first_flow_at(flows@, flow_id@, i as int);
        }
        if self.is_running {
            return Err(FlowError::AlreadyRunning);
        }
        let flow = &flows[i];
        self.is_running = true;
        self.current_flow_id = Some(String::from_str(flow_id));
        self.current_step_index = Some(0);
        self.total_steps = Some(flow.steps.len());
        self.last_error = None;
        let mut logs: Vec<String> = Vec::new();
        logs.push(concat2("Starting flow: ", flow.name.as_str()));
        self.logs = logs;
        assert(views(self.logs@) =~= seq!["Starting flow: "@ + flows@[i as int].name@]);
        Ok(i)
    }
}

proof fn lemma_first_flow_at(flows: Seq<Flow>, id: Seq<char>, i: int)
    requires
        0 <= i < flows.len(),
        flows[i].id@ == id,
        forall|j: int| 0 <= j < i ==> flows[j].id@ != id,
    ensures
        first_flow_with_id(flows, id) == Some(i),
{
    let m = choose|m: int|
        0 <= m < flows.len() && flows[m].id@ == id && forall|j: int| 0 <= j < m ==> flows[j].id@ != id;
    assert(m == i) by {
        if m < i {
        } else if m > i {
        }
    }
}

impl Default for FlowStatus {
    fn default() -> (r: FlowStatus)
        ensures
            !r.is_running,
            r.current_flow_id is None,
            r.current_step_index is None,
            r.total_steps is None,
            r.last_error is None,
            r.logs@.len() == 0,
    {
        FlowStatus::idle()
    }
}

/// Progress of one run through its steps.
pub struct RunModel {
    pub policies: Seq<FailurePolicy>,
    /// Index of the step to dispatch next, or of the step that aborted.
    pub next: nat,
    pub aborted: bool,
    pub finished: bool,
}

/// What the caller does next for a run.
#[derive(PartialEq, Eq, Structural, Clone, Copy, Debug)]
pub enum RunAction {
    /// Dispatch the step with this index and report its outcome.
    Dispatch(usize),
    /// Every step was dispatched without abort: close the run as a success.
    Complete,
    /// The run is over.
    Done,
}

/// A run that has not dispatched anything yet.
pub open spec fn initial_run(policies: Seq<FailurePolicy>) -> RunModel {
    RunModel { policies, next: 0, aborted: false, finished: false }
}

/// The action that a run's progress calls for.
pub open spec fn action_of(m: RunModel) -> RunAction {
    if m.finished {
        RunAction::Done
    } else if m.next < m.policies.len() {
        RunAction::Dispatch(m.next as usize)
    } else {
        RunAction::Complete
    }
}

/// Progress after the step under way reported `ok`: a success, or a failure
/// under `Continue`, advances; a failure under `Abort` ends the run.
pub open spec fn after_result(m: RunModel, ok: bool) -> RunModel {
    if ok || m.policies[m.next as int] == FailurePolicy::Continue {
        RunModel { next: m.next + 1, ..m }
    } else {
        RunModel { aborted: true, finished: true, ..m }
    }
}

/// Progress after a run was closed as a success.
pub open spec fn after_complete(m: RunModel) -> RunModel {
    RunModel { finished: true, ..m }
}

/// A run driven to its end, where the dispatched steps report the outcomes
/// of `outcomes` in turn: its final progress, and the indices of the steps
/// dispatched, in order.
pub open spec fn drive(m: RunModel, outcomes: Seq<bool>) -> (RunModel, Seq<int>)
    decreases outcomes.len(),
{
    match action_of(m) {
        RunAction::Dispatch(i) => if outcomes.len() == 0 {
            (m, Seq::empty())
        } else {
            let rest = drive(after_result(m, outcomes[0]), outcomes.drop_first());
            (rest.0, seq![i as int] + rest.1)
        },
        RunAction::Complete => (after_complete(m), Seq::empty()),
        RunAction::Done => (m, Seq::empty()),
    }
}

/// Progress once the dispatched steps have reported the outcomes of
/// `outcomes` in turn, before the run is closed.
pub open spec fn run_through(m: RunModel, outcomes: Seq<bool>) -> RunModel
    decreases outcomes.len(),
{
    match action_of(m) {
        RunAction::Dispatch(_) => if outcomes.len() == 0 {
            m
        } else {
            run_through(after_result(m, outcomes[0]), outcomes.drop_first())
        },
        _ => m,
    }
}

/// One run of a flow.
pub struct FlowRun {
    pub flow: Flow,
    pub run_id: String,
    pub next_step: usize,
    pub aborted: bool,
    pub finished: bool,
}

impl View for FlowRun {
    type V = RunModel;

    open spec fn view(&self) -> RunModel {
        RunModel {
            policies: policies(self.flow),
            next: self.next_step as nat,
            aborted: self.aborted,
            finished: self.finished,
        }
    }
}

/// The status line of a step being started.
pub open spec fn step_line(index: nat, total: nat, step: FlowStep) -> Seq<char> {
    "Step "@ + decimal(index + 1) + "/"@ + decimal(total) + ": "@ + step.cmd@ + " ("@ + step.id@
        + ")"@
}

impl FlowRun {
    /// Consistent progress.
    pub open spec fn wf(&self) -> bool {
        &&& self.next_step <= self.flow.steps@.len()
        &&& self.aborted ==> self.finished && self.next_step < self.flow.steps@.len()
    }

    /// A run of `flow` that started at `started_at`, named by that time.
    pub fn new(flow: Flow, started_at: i64) -> (r: FlowRun)
        ensures
            r.wf(),
            r@ == initial_run(policies(flow)),
            r.flow == flow,
            r.run_id@ == signed_decimal(started_at as int),
    {
        FlowRun { flow, run_id: run_id_for(started_at), next_step: 0, aborted: false, finished: false }
    }

    /// The event that opens the run.
    pub fn opening_entry(&self, now: i64) -> (r: FlowLogEntry)
        ensures
            entry_is(
                r,
                now,
                self.flow.id@,
                self.run_id@,
                None,
                None,
                LogStatus::Started,
                flow_started_message(self.flow.id@),
                None,
            ),
    {
        flow_started_entry(self.flow.id.as_str(), self.run_id.as_str(), now)
    }

    /// What the caller does next.
    pub fn next_action(&self) -> (r: RunAction)
        requires
            self.wf(),
        ensures
            r == action_of(self@),
    {
        assert(policies(self.flow).len() == self.flow.steps@.len());
        if self.finished {
            RunAction::Done
        } else if self.next_step < self.flow.steps.len() {
            RunAction::Dispatch(self.next_step)
        } else {
            RunAction::Complete
        }
    }

    /// Marks the step to dispatch as current in `status` and adds its
    /// progress line; returns the step's opening event.
    pub fn begin_step(&self, status: &mut FlowStatus, now: i64) -> (r: FlowLogEntry)
        requires
            self.wf(),
            action_of(self@) is Dispatch,
        ensures
            final(status).is_running == old(status).is_running,
            final(status).current_flow_id == old(status).current_flow_id,
            final(status).current_step_index == Some(self.next_step),
            final(status).total_steps == old(status).total_steps,
            final(status).last_error == old(status).last_error,
            views(final(status).logs@) == views(old(status).logs@).push(
                step_line(
                    self.next_step as nat,
                    self.flow.steps@.len(),
                    self.flow.steps@[self.next_step as int],
                ),
            ),
            ({
                let step = self.flow.steps@[self.next_step as int];
                entry_is(
                    r,
                    now,
                    self.flow.id@,
                    self.run_id@,
                    Some(step.id@),
                    Some(step.cmd@),
                    LogStatus::Started,
                    step_started_message(step.id@, step.cmd@),
                    None,
                )
            }),
    {
        assert(policies(self.flow).len() == self.flow.steps@.len());
        let total = self.flow.steps.len();
        let step = &self.flow.steps[self.next_step];
        let mut line = String::from_str("Step ");
        push_decimal(&mut line, (self.next_step + 1) as u64);
        line.append("/");
        push_decimal(&mut line, total as u64);
        line.append(": ");
        line.append(step.cmd.as_str());
        line.append(" (");
        line.append(step.id.as_str());
        line.append(")");
        status.current_step_index = Some(self.next_step);
        status.logs.push(line);
        proof {
            assert(views(status.logs@) =~= views(old(status).logs@).push(line@));
        }
        step_started_entry(
            self.flow.id.as_str(),
            self.run_id.as_str(),
            step.id.as_str(),
            step.cmd.as_str(),
            now,
        )
    }

    /// Records the outcome of the step under way: in `status`, in the run's
    /// progress, and in the events returned (the step's closing event, then,
    /// when a failure aborts the run, the run's closing event).
    pub fn finish_step(&mut self, status: &mut FlowStatus, result: Result<String, String>, now: i64) -> (r:
        Vec<FlowLogEntry>)
        requires
            old(self).wf(),
            action_of(old(self)@) is Dispatch,
        ensures
            final(self).wf(),
            final(self)@ == after_result(old(self)@, result is Ok),
            final(self).flow == old(self).flow,
            final(self).run_id == old(self).run_id,
            ({
                let step = old(self).flow.steps@[old(self).next_step as int];
                match result {
                    Ok(msg) => {
                        &&& *final(status) == FlowStatus { logs: final(status).logs, ..*old(status) }
                        &&& views(final(status).logs@) == views(old(status).logs@).push(
                            "✅ Step "@ + step.id@ + " completed"@,
                        )
                        &&& r@.len() == 1
                        &&& entry_is(
                            r@[0],
                            now,
                            old(self).flow.id@,
                            old(self).run_id@,
                            Some(step.id@),
                            Some(step.cmd@),
                            LogStatus::Success,
                            msg@,
                            None,
                        )
                    },
                    Err(e) => {
                        let err_line = "❌ Error in step "@ + step.id@ + ": "@ + e@;
                        &&& final(status).last_error matches Some(le) && le@ == e@
                        &&& final(status).current_flow_id == old(status).current_flow_id
                        &&& final(status).current_step_index == old(status).current_step_index
                        &&& final(status).total_steps == old(status).total_steps
                        &&& r@.len() >= 1
                        &&& entry_is(
                            r@[0],
                            now,
                            old(self).flow.id@,
                            old(self).run_id@,
                            Some(step.id@),
                            Some(step.cmd@),
                            LogStatus::Error,
                            step_failed_message(step.id@, step.cmd@),
                            Some(e@),
                        )
                        &&& if step.on_failure == FailurePolicy::Abort {
                            &&& !final(status).is_running
                            &&& views(final(status).logs@) == views(old(status).logs@).push(
                                err_line,
                            ).push("⛔ Flow aborted due to error"@)
                            &&& r@.len() == 2
                            &&& entry_is(
                                r@[1],
                                now,
                                old(self).flow.id@,
                                old(self).run_id@,
                                None,
                                None,
                                LogStatus::Error,
                                "Flow aborted at step "@ + step.id@,
                                Some("Flow aborted at step "@ + step.id@),
                            )
                        } else {
                            &&& final(status).is_running == old(status).is_running
                            &&& views(final(status).logs@) == views(old(status).logs@).push(
                                err_line,
                            )
                            &&& r@.len() == 1
                        }
                    },
                }
            }),
    {
        assert(policies(self.flow).len() == self.flow.steps@.len());
        let total = self.flow.steps.len();
        let idx = self.next_step;
        let step_id = self.flow.steps[idx].id.clone();
        let cmd = self.flow.steps[idx].cmd.clone();
        let policy = self.flow.steps[idx].on_failure;
        let mut entries: Vec<FlowLogEntry> = Vec::new();
        match result {
            Ok(msg) => {
                entries.push(
                    step_success_entry(
                        self.flow.id.as_str(),
                        self.run_id.as_str(),
                        step_id.as_str(),
                        cmd.as_str(),
                        msg.as_str(),
                        now,
                    ),
                );
                status.logs.push(concat3("✅ Step ", step_id.as_str(), " completed"));
                proof {
                    assert(views(status.logs@) =~= views(old(status).logs@).push(
                        "✅ Step "@ + step_id@ + " completed"@,
                    ));
                }
                self.next_step = idx + 1;
            },
            Err(e) => {
                entries.push(
                    step_error_entry(
                        self.flow.id.as_str(),
                        self.run_id.as_str(),
                        step_id.as_str(),
                        cmd.as_str(),
                        e.as_str(),
                        now,
                    ),
                );
                let mut line = concat3("❌ Error in step ", step_id.as_str(), ": ");
                line.append(e.as_str());
                status.last_error = Some(e);
                status.logs.push(line);
                let ghost mid = views(status.logs@);
                assert(mid =~= views(old(status).logs@).push(line@));
                match policy {
                    FailurePolicy::Abort => {
                        status.is_running = false;
                        status.logs.push(String::from_str("⛔ Flow aborted due to error"));
                        assert(views(status.logs@) =~= mid.push("⛔ Flow aborted due to error"@));
                        let m = concat2("Flow aborted at step ", step_id.as_str());
                        entries.push(
                            flow_complete_entry(
                                self.flow.id.as_str(),
                                self.run_id.as_str(),
                                false,
                                m.as_str(),
                                now,
                            ),
                        );
                        self.aborted = true;
                        self.finished = true;
                    },
                    FailurePolicy::Continue => {
                        self.next_step = idx + 1;
                    },
                }
            },
        }
        entries
    }

    /// Closes a run whose every step was dispatched without abort: `status`
    /// stops running and the run's closing success event is returned.
    pub fn complete(&mut self, status: &mut FlowStatus, now: i64) -> (r: FlowLogEntry)
        requires
            old(self).wf(),
            action_of(old(self)@) is Complete,
        ensures
            final(self).wf(),
            final(self)@ == after_complete(old(self)@),
            final(self).flow == old(self).flow,
            final(self).run_id == old(self).run_id,
            !final(status).is_running,
            final(status).current_step_index is None,
            final(status).current_flow_id == old(status).current_flow_id,
            final(status).total_steps == old(status).total_steps,
            final(status).last_error == old(status).last_error,
            views(final(status).logs@) == views(old(status).logs@).push(
                "🎉 Flow completed successfully"@,
            ),
            entry_is(
                r,
                now,
                old(self).flow.id@,
                old(self).run_id@,
                None,
                None,
                LogStatus::Success,
                "Flow completed: "@ + decimal(old(self).flow.steps@.len()) + " steps"@,
                None,
            ),
    {
        assert(policies(self.flow).len() == self.flow.steps@.len());
        status.is_running = false;
        status.current_step_index = None;
        status.logs.push(String::from_str("🎉 Flow completed successfully"));
        proof {
            assert(views(status.logs@) =~= views(old(status).logs@).push(
                "🎉 Flow completed successfully"@,
            ));
        }
        let mut m = String::from_str("Flow completed: ");
        push_decimal(&mut m, self.flow.steps.len() as u64);
        m.append(" steps");
        self.finished = true;
        flow_complete_entry(self.flow.id.as_str(), self.run_id.as_str(), true, m.as_str(), now)
    }
}

proof fn lemma_continue_from(m: RunModel, outcomes: Seq<bool>)
    requires
        !m.finished,
        !m.aborted,
        m.next <= m.policies.len() <= usize::MAX,
        outcomes.len() == m.policies.len() - m.next,
        forall|i: int| 0 <= i < m.policies.len() ==> m.policies[i] == FailurePolicy::Continue,
    ensures
        drive(m, outcomes).1 == Seq::new(outcomes.len(), |i: int| m.next + i),
        drive(m, outcomes).0.finished,
        !drive(m, outcomes).0.aborted,
        action_of(run_through(m, outcomes)) == RunAction::Complete,
        drive(m, outcomes).0 == after_complete(run_through(m, outcomes)),
    decreases outcomes.len(),
{
    if m.next < m.policies.len() {
        let m2 = after_result(m, outcomes[0]);
        lemma_continue_from(m2, outcomes.drop_first());
        assert(drive(m, outcomes).1 =~= Seq::new(outcomes.len(), |i: int| m.next + i));
    } else {
        assert(drive(m, outcomes).1 =~= Seq::new(outcomes.len(), |i: int| m.next + i));
    }
}

/// When every step's policy is `Continue`, a run dispatches every step
/// exactly once, in order, whatever each step reports, and ends in success:
/// once every step has reported, the only action left is
/// [`FlowRun::complete`], which stops the run and returns the run's closing
/// success event.
pub proof fn lemma_continue_runs_every_step(policies: Seq<FailurePolicy>, outcomes: Seq<bool>)
    requires
        policies.len() <= usize::MAX,
        outcomes.len() == policies.len(),
        forall|i: int| 0 <= i < policies.len() ==> policies[i] == FailurePolicy::Continue,
    ensures
        drive(initial_run(policies), outcomes).1 == Seq::new(policies.len(), |i: int| i),
        drive(initial_run(policies), outcomes).0.finished,
        !drive(initial_run(policies), outcomes).0.aborted,
        action_of(run_through(initial_run(policies), outcomes)) == RunAction::Complete,
        drive(initial_run(policies), outcomes).0 == after_complete(
            run_through(initial_run(policies), outcomes),
        ),
{
    lemma_continue_from(initial_run(policies), outcomes);
    assert(Seq::new(outcomes.len(), |i: int| initial_run(policies).next + i) =~= Seq::new(
        policies.len(),
        |i: int| i,
    ));
}

proof fn lemma_abort_from(m: RunModel, outcomes: Seq<bool>, k: int)
    requires
        !m.finished,
        !m.aborted,
        m.next <= k < m.policies.len() <= usize::MAX,
        outcomes.len() == m.policies.len() - m.next,
        !outcomes[k - m.next],
        m.policies[k] == FailurePolicy::Abort,
    ensures
        forall|j: int|
            0 <= j < drive(m, outcomes).1.len() ==> m.next <= #[trigger] drive(m, outcomes).1[j]
                <= k,
        drive(m, outcomes).0.finished,
        drive(m, outcomes).0.aborted,
    decreases outcomes.len(),
{
    let m2 = after_result(m, outcomes[0]);
    let rest = outcomes.drop_first();
    if m2.aborted {
        assert(drive(m2, rest).1 =~= Seq::<int>::empty());
        assert(drive(m, outcomes).1 =~= seq![m.next as int]);
    } else {
        assert(m.next != k);
        assert(rest[k - m2.next] == outcomes[k - m.next]);
        lemma_abort_from(m2, rest, k);
        let sent = drive(m, outcomes).1;
        assert(sent == seq![m.next as int] + drive(m2, rest).1);
        assert forall|j: int| 0 <= j < sent.len() implies m.next <= #[trigger] sent[j] <= k by {
            if j > 0 {
                assert(sent[j] == drive(m2, rest).1[j - 1]);
            }
        }
    }
}

/// When step `k` fails under `Abort`, no step after `k` is dispatched and
/// the run ends in error.
pub proof fn lemma_abort_stops_run(policies: Seq<FailurePolicy>, outcomes: Seq<bool>, k: int)
    requires
        policies.len() <= usize::MAX,
        outcomes.len() == policies.len(),
        0 <= k < policies.len(),
        !outcomes[k],
        policies[k] == FailurePolicy::Abort,
    ensures
        forall|j: int|
            0 <= j < drive(initial_run(policies), outcomes).1.len() ==> #[trigger] drive(
                initial_run(policies),
                outcomes,
            ).1[j] <= k,
        drive(initial_run(policies), outcomes).0.finished,
        drive(initial_run(policies), outcomes).0.aborted,
{
    lemma_abort_from(initial_run(policies), outcomes, k);
}

} // verus!

//! Structured, append-only event log of flow runs, and the reconstruction
//! of run history from such logs.
//!
//! Each run writes one log; each event is one [`FlowLogEntry`]. History is
//! a pure function of the entries: [`summarize_run`] turns one run's entries
//! into a [`FlowRunSummary`], and [`select_history`] orders summaries
//! most-recent-first and keeps a bounded number of them.

use vstd::prelude::*;
use vstd::multiset::Multiset;
use vstd::string::*;
use crate::text::{concat3, push_signed_decimal, signed_decimal};

verus! {

broadcast use vstd::seq_lib::group_to_multiset_ensures;

/// Status of one log event.
#[derive(PartialEq, Eq, Structural, Clone, Copy, Debug)]
pub enum LogStatus {
    Started,
    Success,
    Error,
}

impl LogStatus {
    /// The status's lowercase name, as it is written in a log line.
    pub open spec fn name(self) -> Seq<char> {
        match self {
            LogStatus::Started => "started"@,
            LogStatus::Success => "success"@,
            LogStatus::Error => "error"@,
        }
    }

    /// The status's lowercase name, as it is written in a log line.
    pub fn as_str(&self) -> (r: &'static str)
        ensures
            r@ == self.name(),
    {
        match self {
            LogStatus::Started => "started",
            LogStatus::Success => "success",
            LogStatus::Error => "error",
        }
    }
}

/// One event of a flow run. Flow-level events carry no step id or command.
pub struct FlowLogEntry {
    /// Unix time of the event, in seconds.
    pub timestamp: i64,
    pub flow_id: String,
    pub run_id: String,
    pub step_id: Option<String>,
    pub cmd: Option<String>,
    pub status: LogStatus,
    pub message: String,
    pub error: Option<String>,
}

/// The view of an optional string.
pub open spec fn opt_view(o: Option<String>) -> Option<Seq<char>> {
    match o {
        Some(s) => Some(s@),
        None => None,
    }
}

/// Clones an optional string.
pub fn clone_opt(o: &Option<String>) -> (r: Option<String>)
    ensures
        opt_view(r) == opt_view(*o),
{
    match o {
        Some(s) => Some(s.clone()),
        None => None,
    }
}

/// `e` has exactly these fields.
pub open spec fn entry_is(
    e: FlowLogEntry,
    timestamp: i64,
    flow_id: Seq<char>,
    run_id: Seq<char>,
    step_id: Option<Seq<char>>,
    cmd: Option<Seq<char>>,
    status: LogStatus,
    message: Seq<char>,
    error: Option<Seq<char>>,
) -> bool {
    &&& e.timestamp == timestamp
    &&& e.flow_id@ == flow_id
    &&& e.run_id@ == run_id
    &&& opt_view(e.step_id) == step_id
    &&& opt_view(e.cmd) == cmd
    &&& e.status == status
    &&& e.message@ == message
    &&& opt_view(e.error) == error
}

pub open spec fn flow_started_message(flow_id: Seq<char>) -> Seq<char> {
    "Flow '"@ + flow_id + "' started"@
}

pub open spec fn step_started_message(step_id: Seq<char>, cmd: Seq<char>) -> Seq<char> {
    "Step "@ + step_id + " ("@ + cmd + ") started"@
}

pub open spec fn step_failed_message(step_id: Seq<char>, cmd: Seq<char>) -> Seq<char> {
    "Step "@ + step_id + " ("@ + cmd + ") failed"@
}

/// The run id of a run that started at `started_at`: its decimal rendering.
pub fn run_id_for(started_at: i64) -> (r: String)
    ensures
        r@ == signed_decimal(started_at as int),
{
    let mut r = String::new();
    push_signed_decimal(&mut r, started_at);
    assert(Seq::<char>::empty() + signed_decimal(started_at as int) =~= signed_decimal(
        started_at as int,
    ));
    r
}

/// The event that opens a run.
pub fn flow_started_entry(flow_id: &str, run_id: &str, now: i64) -> (r: FlowLogEntry)
    ensures
        entry_is(r, now, flow_id@, run_id@, None, None, LogStatus::Started, flow_started_message(flow_id@), None),
{
    FlowLogEntry {
        timestamp: now,
        flow_id: String::from_str(flow_id),
        run_id: String::from_str(run_id),
        step_id: None,
        cmd: None,
        status: LogStatus::Started,
        message: concat3("Flow '", flow_id, "' started"),
        error: None,
    }
}

/// The event that opens a step.
pub fn step_started_entry(flow_id: &str, run_id: &str, step_id: &str, cmd: &str, now: i64) -> (r:
    FlowLogEntry)
    ensures
        entry_is(
            r,
            now,
            flow_id@,
            run_id@,
            Some(step_id@),
            Some(cmd@),
            LogStatus::Started,
            step_started_message(step_id@, cmd@),
            None,
        ),
{
    let mut message = concat3("Step ", step_id, " (");
    message.append(cmd);
    message.append(") started");
    FlowLogEntry {
        timestamp: now,
        flow_id: String::from_str(flow_id),
        run_id: String::from_str(run_id),
        step_id: Some(String::from_str(step_id)),
        cmd: Some(String::from_str(cmd)),
        status: LogStatus::Started,
        message,
        error: None,
    }
}

/// The event that closes a step that succeeded with `result`.
pub fn step_success_entry(
    flow_id: &str,
    run_id: &str,
    step_id: &str,
    cmd: &str,
    result: &str,
    now: i64,
) -> (r: FlowLogEntry)
    ensures
        entry_is(
            r,
            now,
            flow_id@,
            run_id@,
            Some(step_id@),
            Some(cmd@),
            LogStatus::Success,
            result@,
            None,
        ),
{
    FlowLogEntry {
        timestamp: now,
        flow_id: String::from_str(flow_id),
        run_id: String::from_str(run_id),
        step_id: Some(String::from_str(step_id)),
        cmd: Some(String::from_str(cmd)),
        status: LogStatus::Success,
        message: String::from_str(result),
        error: None,
    }
}

/// The event that closes a step that failed with `error`.
pub fn step_error_entry(
    flow_id: &str,
    run_id: &str,
    step_id: &str,
    cmd: &str,
    error: &str,
    now: i64,
) -> (r: FlowLogEntry)
    ensures
        entry_is(
            r,
            now,
            flow_id@,
            run_id@,
            Some(step_id@),
            Some(cmd@),
            LogStatus::Error,
            step_failed_message(step_id@, cmd@),
            Some(error@),
        ),
{
    let mut message = concat3("Step ", step_id, " (");
    message.append(cmd);
    message.append(") failed");
    FlowLogEntry {
        timestamp: now,
        flow_id: String::from_str(flow_id),
        run_id: String::from_str(run_id),
        step_id: Some(String::from_str(step_id)),
        cmd: Some(String::from_str(cmd)),
        status: LogStatus::Error,
        message,
        error: Some(String::from_str(error)),
    }
}

/// The event that closes a run; a failed run repeats its message as the error.
pub fn flow_complete_entry(flow_id: &str, run_id: &str, success: bool, message: &str, now: i64) -> (r:
    FlowLogEntry)
    ensures
        entry_is(
            r,
            now,
            flow_id@,
            run_id@,
            None,
            None,
            if success {
                LogStatus::Success
            } else {
                LogStatus::Error
            },
            message@,
            if success {
                None
            } else {
                Some(message@)
            },
        ),
{
    FlowLogEntry {
        timestamp: now,
        flow_id: String::from_str(flow_id),
        run_id: String::from_str(run_id),
        step_id: None,
        cmd: None,
        status: if success {
            LogStatus::Success
        } else {
            LogStatus::Error
        },
        message: String::from_str(message),
        error: if success {
            None
        } else {
            Some(String::from_str(message))
        },
    }
}

/// Summary of one run, reconstructed from its log.
pub struct FlowRunSummary {
    pub flow_id: String,
    pub run_id: String,
    /// Time of the first event.
    pub started_at: i64,
    /// Time of the closing flow-level event, if the run has one.
    pub finished_at: Option<i64>,
    /// `success` or `error` for a finished run, `running` otherwise.
    pub status: String,
    /// Number of steps that the log shows.
    pub total_steps: usize,
    /// Id of the first step that failed, if any.
    pub failed_step: Option<String>,
}

/// A flow-level event that closes a run.
pub open spec fn closes_run(e: FlowLogEntry) -> bool {
    e.step_id is None && (e.status == LogStatus::Success || e.status == LogStatus::Error)
}

/// Number of step-scoped events.
pub open spec fn step_event_count(es: Seq<FlowLogEntry>) -> nat
    decreases es.len(),
{
    if es.len() == 0 {
        0
    } else {
        step_event_count(es.drop_last()) + if es.last().step_id is Some {
            1nat
        } else {
            0nat
        }
    }
}

/// A step-scoped error event.
pub open spec fn is_step_failure(e: FlowLogEntry) -> bool {
    e.status == LogStatus::Error && e.step_id is Some
}

/// Step id of the first step-scoped error event.
pub open spec fn first_failed_step(es: Seq<FlowLogEntry>) -> Option<Seq<char>>
    decreases es.len(),
{
    if es.len() == 0 {
        None
    } else {
        match first_failed_step(es.drop_last()) {
            Some(id) => Some(id),
            None => if is_step_failure(es.last()) {
                opt_view(es.last().step_id)
            } else {
                None
            },
        }
    }
}

/// Number of steps that a log shows. Each finished step emits a start and
/// a terminal event; a step whose terminal event is missing (a run cut off
/// mid-step) still counts, so an odd event count rounds up.
pub open spec fn steps_shown(es: Seq<FlowLogEntry>) -> nat {
    (step_event_count(es) + 1) / 2
}

/// Summarizes the events of one run. The first event gives the flow, the
/// run and the start time; a closing flow-level event as the last one gives
/// the finish time and the status, else the run is still `running`.
pub fn summarize_run(entries: &Vec<FlowLogEntry>) -> (r: Result<FlowRunSummary, String>)
    ensures
        match r {
            Err(e) => entries@.len() == 0 && e@ == "Empty log file"@,
            Ok(s) => {
                let es = entries@;
                &&& es.len() > 0
                &&& s.flow_id@ == es[0].flow_id@
                &&& s.run_id@ == es[0].run_id@
                &&& s.started_at == es[0].timestamp
                &&& s.finished_at == (if closes_run(es.last()) {
                    Some(es.last().timestamp)
                } else {
                    None
                })
                &&& s.status@ == (if closes_run(es.last()) {
                    es.last().status.name()
                } else {
                    "running"@
                })
                &&& s.total_steps == steps_shown(es)
                &&& opt_view(s.failed_step) == first_failed_step(es)
            },
        },
{
    let n = entries.len();
    if n == 0 {
        return Err(String::from_str("Empty log file"));
    }
    let mut count: usize = 0;
    let mut failed: Option<String> = None;
    let mut i: usize = 0;
    while i < n
        invariant
            n == entries.len(),
            i <= n,
            count == step_event_count(entries@.take(i as int)),
            count <= i,
            opt_view(failed) == first_failed_step(entries@.take(i as int)),
        decreases n - i,
    {
        let e = &entries[i];
        proof {
            assert(entries@.take(i as int + 1).drop_last() =~= entries@.take(i as int));
        }
        if e.step_id.is_some() {
            count = count + 1;
        }
        if failed.is_none() && e.status == LogStatus::Error && e.step_id.is_some() {
            failed = clone_opt(&e.step_id);
        }
        i = i + 1;
    }
    proof {
        assert(entries@.take(n as int) =~= entries@);
    }
    let first = &entries[0];
    let last = &entries[n - 1];
    let closed = last.step_id.is_none() && (last.status == LogStatus::Success || last.status
        == LogStatus::Error);
    let finished_at = if closed {
        Some(last.timestamp)
    } else {
        None
    };
    let status = if closed {
        String::from_str(last.status.as_str())
    } else {
        String::from_str("running")
    };
    Ok(
        FlowRunSummary {
            flow_id: first.flow_id.clone(),
            run_id: first.run_id.clone(),
            started_at: first.timestamp,
            finished_at,
            status,
            total_steps: count / 2 + count % 2,
            failed_step: failed,
        },
    )
}

/// Start times in non-increasing order.
pub open spec fn newest_first(s: Seq<FlowRunSummary>) -> bool {
    forall|i: int, j: int| 0 <= i < j < s.len() ==> s[i].started_at >= s[j].started_at
}

/// The `limit` most recent runs, most recent first: the runs sorted by
/// start time, newest first, and cut to at most `limit`.
pub fn select_history(runs: Vec<FlowRunSummary>, limit: usize) -> (r: Vec<FlowRunSummary>)
    ensures
        r@.len() == if runs@.len() < limit {
            runs@.len()
        } else {
            limit as nat
        },
        exists|sorted: Seq<FlowRunSummary>|
            {
                &&& sorted.to_multiset() == runs@.to_multiset()
                &&& newest_first(sorted)
                &&& r@ == sorted.take(r@.len() as int)
            },
{
    let ghost all = runs@;
    let mut rest = runs;
    let mut sorted: Vec<FlowRunSummary> = Vec::new();
    while rest.len() > 0
        invariant
            sorted@.to_multiset().add(rest@.to_multiset()) == all.to_multiset(),
            newest_first(sorted@),
            sorted@.len() + rest@.len() == all.len(),
        decreases rest.len(),
    {
        let ghost before = rest@;
        let x = rest.pop().unwrap();
        proof {
            assert(before =~= rest@.push(x));
        }
        let mut p: usize = 0;
        while p < sorted.len() && sorted[p].started_at > x.started_at
            invariant
                p <= sorted.len(),
                forall|j: int| 0 <= j < p ==> sorted@[j].started_at > x.started_at,
            decreases sorted.len() - p,
        {
            p = p + 1;
        }
        let ghost old_sorted = sorted@;
        proof {
            assert forall|j: int| p <= j < old_sorted.len() implies old_sorted[j].started_at
                <= x.started_at by {
                if p < old_sorted.len() {
                    assert(old_sorted[p as int].started_at <= x.started_at);
                    if j > p {
                        assert(old_sorted[p as int].started_at >= old_sorted[j].started_at);
                    }
                }
            }
        }
        sorted.insert(p, x);
        proof {
            assert(sorted@ == old_sorted.insert(p as int, x));
            assert forall|i: int, j: int| 0 <= i < j < sorted@.len() implies sorted@[i].started_at
                >= sorted@[j].started_at by {
                if i < p && j < p {
                    assert(sorted@[i] == old_sorted[i] && sorted@[j] == old_sorted[j]);
                } else if i < p && j == p {
                } else if i < p {
                    assert(sorted@[j] == old_sorted[j - 1]);
                    assert(sorted@[i] == old_sorted[i]);
                } else if i == p {
                    assert(sorted@[j] == old_sorted[j - 1]);
                } else {
                    assert(sorted@[j] == old_sorted[j - 1] && sorted@[i] == old_sorted[i - 1]);
                }
            }
            assert(sorted@.to_multiset() == old_sorted.to_multiset().insert(x));
            assert(before.to_multiset() == rest@.to_multiset().insert(x));
            assert(sorted@.to_multiset().add(rest@.to_multiset()) =~= old_sorted.to_multiset().add(
                before.to_multiset(),
            ));
        }
    }
    proof {
        assert(rest@.to_multiset() =~= Multiset::<FlowRunSummary>::empty());
        assert(sorted@.to_multiset() =~= all.to_multiset());
    }
    let ghost full = sorted@;
    if sorted.len() > limit {
        sorted.truncate(limit);
    }
    proof {
        assert(sorted@ =~= full.take(sorted@.len() as int));
    }
    sorted
}

/// The `%Y%m%d_%H%M%S` rendering of a unix time in UTC, as chrono writes it.
pub uninterp spec fn utc_compact_stamp(secs: int) -> Seq<char>;

/// Relies on chrono's `DateTime::<Utc>::from_timestamp` and its strftime
/// formatting with `%Y%m%d_%H%M%S`: the text depends on the time alone, and
/// `from_timestamp` gives a date for every time within about 262,000 years
/// of the epoch.
#[verifier::external_body]
fn compact_utc_stamp(secs: i64) -> (r: Option<String>)
    ensures
        r matches Some(s) ==> s@ == utc_compact_stamp(secs as int),
        0 <= secs <= 100_000_000_000 ==> r is Some,
{
    match chrono::DateTime::from_timestamp(secs, 0) {
        Some(t) => Some(t.format("%Y%m%d_%H%M%S").to_string()),
        None => None,
    }
}

/// Name of the log file of a run of `flow_id` that started at `started_at`:
/// `flow_<id>_<stamp>.jsonl`. None only for a time that has no calendar date.
pub fn log_file_name(flow_id: &str, started_at: i64) -> (r: Option<String>)
    ensures
        r matches Some(s) ==> s@ == "flow_"@ + flow_id@ + "_"@ + utc_compact_stamp(
            started_at as int,
        ) + ".jsonl"@,
        0 <= started_at <= 100_000_000_000 ==> r is Some,
{
    match compact_utc_stamp(started_at) {
        Some(stamp) => {
            let mut name = concat3("flow_", flow_id, "_");
            name.append(stamp.as_str());
            name.append(".jsonl");
            Some(name)
        },
        None => None,
    }
}

} // verus!

//! Pulse status synchronization: observing an out-of-process training
//! worker through the status record it rewrites.
//!
//! The record is read-only here. A `running` record more than 60 seconds
//! old is treated, on read, as an `error` record; a record that cannot be
//! read is treated as `idle`. [`PulsePoller`] decides, for each periodic
//! read, whether observers are told and whether polling stops.

use vstd::prelude::*;
use vstd::string::*;
use crate::text::same_text;

verus! {

/// Seconds without an update after which a running worker is unresponsive.
pub const STALE_AFTER_SECS: i64 = 60;

/// Ticks between two reads of the record.
pub const POLL_INTERVAL: u64 = 2;

/// Ticks after which an unchanged record is told again, to show liveness.
pub const HEARTBEAT_INTERVAL: u64 = 10;

/// The worker's status record. The three fractional numbers are carried as
/// the bit patterns of their IEEE-754 doubles; this library only moves them.
pub struct TrainingStatus {
    /// `idle`, `running`, `done` or `error`.
    pub status: String,
    pub epoch_bits: u64,
    pub total_epochs_bits: u64,
    pub loss_bits: u64,
    /// Human-readable message.
    pub message: String,
    /// Unix time of the last update, in seconds.
    pub timestamp: i64,
}

/// The record that stands for a worker doing nothing, at time `now`.
pub open spec fn idle_record(now: i64) -> (Seq<char>, u64, u64, u64, Seq<char>, i64) {
    ("idle"@, 0, 0, 0, "No training in progress"@, now)
}

impl TrainingStatus {
    /// All fields, as plain values.
    pub open spec fn fields(&self) -> (Seq<char>, u64, u64, u64, Seq<char>, i64) {
        (
            self.status@,
            self.epoch_bits,
            self.total_epochs_bits,
            self.loss_bits,
            self.message@,
            self.timestamp,
        )
    }

    /// A terminal record: the worker is done or failed.
    pub open spec fn is_terminal(&self) -> bool {
        self.status@ == "done"@ || self.status@ == "error"@
    }

    /// A `running` record last updated more than 60 seconds before `now`.
    pub open spec fn stale_at(&self, now: i64) -> bool {
        self.status@ == "running"@ && now - self.timestamp > STALE_AFTER_SECS
    }

    /// The record of an idle worker, stamped `now`.
    pub fn idle(now: i64) -> (r: TrainingStatus)
        ensures
            r.fields() == idle_record(now),
    {
        TrainingStatus {
            status: String::from_str("idle"),
            epoch_bits: 0,
            total_epochs_bits: 0,
            loss_bits: 0,
            message: String::from_str("No training in progress"),
            timestamp: now,
        }
    }

    /// A field-by-field copy.
    pub fn copy(&self) -> (r: TrainingStatus)
        ensures
            r.fields() == self.fields(),
    {
        TrainingStatus {
            status: self.status.clone(),
            epoch_bits: self.epoch_bits,
            total_epochs_bits: self.total_epochs_bits,
            loss_bits: self.loss_bits,
            message: self.message.clone(),
            timestamp: self.timestamp,
        }
    }

    /// Whether two records agree on every field. The three numbers are
    /// compared by bit pattern, not as floating-point values: a NaN equals
    /// an identical NaN here, and 0.0 differs from -0.0.
    pub fn same_as(&self, other: &TrainingStatus) -> (r: bool)
        ensures
            r == (self.fields() == other.fields()),
    {
        same_text(self.status.as_str(), other.status.as_str()) && self.epoch_bits
            == other.epoch_bits && self.total_epochs_bits == other.total_epochs_bits
            && self.loss_bits == other.loss_bits && same_text(
            self.message.as_str(),
            other.message.as_str(),
        ) && self.timestamp == other.timestamp
    }

    /// Whether the record is `running` and more than 60 seconds older than `now`.
    pub fn is_stale(&self, now: i64) -> (r: bool)
        ensures
            r == self.stale_at(now),
    {
        if !same_text(self.status.as_str(), "running") {
            return false;
        }
        (now as i128) - (self.timestamp as i128) > STALE_AFTER_SECS as i128
    }

    /// The `error` record that stands for an unresponsive worker: same
    /// numbers and timestamp, a fixed message.
    pub fn as_stale(&self) -> (r: TrainingStatus)
        ensures
            r.fields() == ("error"@, self.epoch_bits, self.total_epochs_bits, self.loss_bits,
            "Process unresponsive (stale pulse)"@, self.timestamp),
    {
        TrainingStatus {
            status: String::from_str("error"),
            epoch_bits: self.epoch_bits,
            total_epochs_bits: self.total_epochs_bits,
            loss_bits: self.loss_bits,
            message: String::from_str("Process unresponsive (stale pulse)"),
            timestamp: self.timestamp,
        }
    }

    /// The record as a reader at `now` sees it: a stale one becomes its
    /// `error` stand-in, any other stays as it is.
    pub fn settle(self, now: i64) -> (r: TrainingStatus)
        ensures
            r.fields() == if self.stale_at(now) {
                ("error"@, self.epoch_bits, self.total_epochs_bits, self.loss_bits,
                "Process unresponsive (stale pulse)"@, self.timestamp)
            } else {
                self.fields()
            },
    {
        if self.is_stale(now) {
            self.as_stale()
        } else {
            self
        }
    }
}

/// The status a caller sees at `now`, given the record as read and parsed:
/// none (absent or malformed) reads as idle, never as an error.
pub fn read_status(parsed: Option<TrainingStatus>, now: i64) -> (r: TrainingStatus)
    ensures
        r.fields() == match parsed {
            None => idle_record(now),
            Some(s) => if s.stale_at(now) {
                ("error"@, s.epoch_bits, s.total_epochs_bits, s.loss_bits,
                "Process unresponsive (stale pulse)"@, s.timestamp)
            } else {
                s.fields()
            },
        },
{
    match parsed {
        None => TrainingStatus::idle(now),
        Some(s) => s.settle(now),
    }
}

/// What the poll loop does after one read.
pub struct PollStep {
    /// The record to tell observers about, if any.
    pub emit: Option<TrainingStatus>,
    /// Whether polling ends.
    pub stop: bool,
}

/// Decisions of the poll loop: deduplication, heartbeat and termination.
pub struct PulsePoller {
    /// The last record read.
    pub last_known: Option<TrainingStatus>,
    /// Clock reading of the last notification, or of the start.
    pub last_emit: u64,
}

impl PulsePoller {
    /// A poller started at clock reading `now`.
    pub fn new(now: u64) -> (r: PulsePoller)
        ensures
            r.last_known is None,
            r.last_emit == now,
    {
        PulsePoller { last_known: None, last_emit: now }
    }

    /// Whether a read record `s` at clock reading `now` is told: the first
    /// record, a changed record, or any record once more than a heartbeat
    /// interval has passed since the last notification.
    pub open spec fn tells(&self, s: TrainingStatus, now: u64) -> bool {
        match self.last_known {
            None => true,
            Some(last) => last.fields() != s.fields() || now - self.last_emit
                > HEARTBEAT_INTERVAL,
        }
    }

    /// Handles one read at clock reading `now`. An unreadable record
    /// (`None`) changes nothing and tells nothing. A readable one becomes
    /// the last known record, is told when [`PulsePoller::tells`] says so,
    /// and stops polling when it is terminal.
    pub fn on_read(&mut self, read: Option<TrainingStatus>, now: u64) -> (r: PollStep)
        ensures
            match read {
                None => *final(self) == *old(self) && r.emit is None && !r.stop,
                Some(s) => {
                    &&& final(self).last_known matches Some(k) && k.fields() == s.fields()
                    &&& r.stop == s.is_terminal()
                    &&& if old(self).tells(s, now) {
                        &&& r.emit matches Some(e) && e.fields() == s.fields()
                        &&& final(self).last_emit == now
                    } else {
                        &&& r.emit is None
                        &&& final(self).last_emit == old(self).last_emit
                    }
                },
            },
    {
        let s = match read {
            None => return PollStep { emit: None, stop: false },
            Some(s) => s,
        };
        let tell = match &self.last_known {
            None => true,
            Some(last) => !last.same_as(&s) || (now as i128) - (self.last_emit as i128)
                > HEARTBEAT_INTERVAL as i128,
        };
        let stop = same_text(s.status.as_str(), "done") || same_text(s.status.as_str(), "error");
        let emit = if tell {
            self.last_emit = now;
            Some(s.copy())
        } else {
            None
        };
        self.last_known = Some(s);
        PollStep { emit, stop }
    }
}

} // verus!

//! The record that describes the current backend instance.
use vstd::prelude::*;
use crate::probe::{ProbeOutcome, ProbeView, probe_healthy, probe_failure_reason};

verus! {

/// Lifecycle state of the supervised backend.
#[derive(Debug, Clone)]
pub enum ProcessStatus {
    Starting,
    Running,
    Stopping,
    Stopped,
    /// A failure with its human-readable cause; not terminal.
    Error(String),
}

pub enum StatusView {
    Starting,
    Running,
    Stopping,
    Stopped,
    Error(Seq<char>),
}

impl View for ProcessStatus {
    type V = StatusView;

    open spec fn view(&self) -> StatusView {
        match self {
            ProcessStatus::Starting => StatusView::Starting,
            ProcessStatus::Running => StatusView::Running,
            ProcessStatus::Stopping => StatusView::Stopping,
            ProcessStatus::Stopped => StatusView::Stopped,
            ProcessStatus::Error(msg) => StatusView::Error(msg@),
        }
    }
}

impl ProcessStatus {
    /// A copy of this status.
    pub fn duplicate(&self) -> (r: ProcessStatus)
        ensures
            r@ == self@,
    {
        match self {
            ProcessStatus::Starting => ProcessStatus::Starting,
            ProcessStatus::Running => ProcessStatus::Running,
            ProcessStatus::Stopping => ProcessStatus::Stopping,
            ProcessStatus::Stopped => ProcessStatus::Stopped,
            ProcessStatus::Error(msg) => ProcessStatus::Error(msg.clone()),
        }
    }
}

/// Identity, timestamps, restart count and status of the current backend
/// instance. Times are whole seconds since the Unix epoch.
#[derive(Debug, Clone)]
pub struct ProcessInfo {
    pub pid: u32,
    pub start_time: u64,
    pub restart_count: u32,
    pub last_health_check: u64,
    pub status: ProcessStatus,
}

pub struct RecordView {
    pub pid: u32,
    pub start_time: u64,
    pub restart_count: u32,
    pub last_health_check: u64,
    pub status: StatusView,
}

impl View for ProcessInfo {
    type V = RecordView;

    open spec fn view(&self) -> RecordView {
        RecordView {
            pid: self.pid,
            start_time: self.start_time,
            restart_count: self.restart_count,
            last_health_check: self.last_health_check,
            status: self.status@,
        }
    }
}

/// The record of an instance launched at `now`, carrying `restarts` over
/// from the instance it replaces.
pub open spec fn fresh_record(pid: u32, now: u64, restarts: u32) -> RecordView {
    RecordView {
        pid,
        start_time: now,
        restart_count: restarts,
        last_health_check: now,
        status: StatusView::Starting,
    }
}

/// Seconds since the instance started; zero if the clock reads earlier
/// than the start time.
pub open spec fn uptime_of(r: RecordView, now: u64) -> u64 {
    if now >= r.start_time {
        (now - r.start_time) as u64
    } else {
        0
    }
}

/// Status after a probe: a healthy answer makes a starting, running or
/// failed instance `Running` and leaves `Stopping` and `Stopped` alone; an
/// unhealthy one records its cause as an error. Lifting `Error` on a
/// healthy answer is deliberate: a readiness probe sent before the backend
/// listens records an error, and the later healthy probe of the same wait
/// must bring the instance to `Running`.
pub open spec fn status_after_probe(s: StatusView, o: ProbeView) -> StatusView {
    if probe_healthy(o) {
        match s {
            StatusView::Stopping => s,
            StatusView::Stopped => s,
            _ => StatusView::Running,
        }
    } else {
        StatusView::Error(probe_failure_reason(o))
    }
}

/// The record after a probe made at `now`.
pub open spec fn record_after_probe(r: RecordView, o: ProbeView, now: u64) -> RecordView {
    RecordView { last_health_check: now, status: status_after_probe(r.status, o), ..r }
}

/// Reads the wall clock.
/// Relies on std's `SystemTime::now` and `duration_since(UNIX_EPOCH)`:
/// whole seconds since the epoch, or zero for a clock set before it.
#[verifier::external_body]
pub(crate) fn epoch_seconds() -> (r: u64) {
    std::time::SystemTime::now()
        .duration_since(std::time::UNIX_EPOCH)
        .map(|d| d.as_secs())
        .unwrap_or(0)
}

impl ProcessInfo {
    /// The record of an instance with `pid` launched at `now`: status
    /// `Starting`, no restarts yet, last health check at launch.
    pub fn new_at(pid: u32, now: u64) -> (r: ProcessInfo)
        ensures
            r@ == fresh_record(pid, now, 0),
    {
        ProcessInfo {
            pid,
            start_time: now,
            restart_count: 0,
            last_health_check: now,
            status: ProcessStatus::Starting,
        }
    }

    /// The record of an instance with `pid` launched now.
    pub fn new(pid: u32) -> (r: ProcessInfo)
        ensures
            r@ == fresh_record(pid, r.start_time, 0),
    {
        ProcessInfo::new_at(pid, epoch_seconds())
    }

    /// Seconds the instance has been up when the clock reads `now`.
    pub fn uptime_at(&self, now: u64) -> (r: u64)
        ensures
            r == uptime_of(self@, now),
    {
        if now >= self.start_time {
            now - self.start_time
        } else {
            0
        }
    }

    /// Seconds the instance has been up, by the wall clock.
    pub fn uptime(&self) -> (r: u64)
        ensures
            exists|now: u64| r == uptime_of(self@, now),
    {
        self.uptime_at(epoch_seconds())
    }

    /// A copy of this record.
    pub fn snapshot(&self) -> (r: ProcessInfo)
        ensures
            r@ == self@,
    {
        ProcessInfo {
            pid: self.pid,
            start_time: self.start_time,
            restart_count: self.restart_count,
            last_health_check: self.last_health_check,
            status: self.status.duplicate(),
        }
    }

    /// Books a probe made at `now` into the record and says whether it was
    /// healthy.
    pub fn apply_probe(&mut self, outcome: &ProbeOutcome, now: u64) -> (healthy: bool)
        ensures
            healthy == probe_healthy(outcome@),
            final(self)@ == record_after_probe(old(self)@, outcome@, now),
    {
        self.last_health_check = now;
        if outcome.is_healthy() {
            match self.status {
                ProcessStatus::Stopping => {},
                ProcessStatus::Stopped => {},
                _ => {
                    self.status = ProcessStatus::Running;
                },
            }
            true
        } else {
            self.status = ProcessStatus::Error(outcome.failure_reason());
            false
        }
    }
}

} // verus!

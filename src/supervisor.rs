//! The supervisor: one owned state that pairs the handle on the live
//! backend with its record, and the decisions of start, stop, force-kill
//! and the periodic health tick.
//!
//! Each decision is a step from the current state and what the caller
//! observed to the next state and the action the caller is to carry out.
//! The caller performs blocking work (probing, spawning, killing) between
//! steps, without holding the state.
use vstd::prelude::*;
use crate::error::{SupervisorError, ErrorView, error_reason};
use crate::probe::{ProbeOutcome, ProbeView, probe_healthy};
use crate::record::{
    ProcessInfo,
    ProcessStatus,
    RecordView,
    StatusView,
    fresh_record,
    record_after_probe,
};

verus! {

/// What the caller saw of the backend instance with the given pid.
#[derive(Debug, Clone)]
pub enum Observation {
    /// The operating system reports that the process has exited (or can
    /// no longer be waited on).
    Exited(u32),
    /// The process is alive and its health probe gave this outcome.
    Probed(u32, ProbeOutcome),
}

pub enum ObservationView {
    Exited(u32),
    Probed(u32, ProbeView),
}

impl View for Observation {
    type V = ObservationView;

    open spec fn view(&self) -> ObservationView {
        match self {
            Observation::Exited(pid) => ObservationView::Exited(*pid),
            Observation::Probed(pid, o) => ObservationView::Probed(*pid, o@),
        }
    }
}

/// View of an optional observation.
pub open spec fn view_of(obs: Option<Observation>) -> Option<ObservationView> {
    match obs {
        Some(o) => Some(o@),
        None => None,
    }
}

pub open spec fn observed_pid(o: ObservationView) -> u32 {
    match o {
        ObservationView::Exited(pid) => pid,
        ObservationView::Probed(pid, _) => pid,
    }
}

/// What a start request is to do next.
#[derive(Debug, Clone, Copy, PartialEq, Eq, Structural)]
pub enum StartStep {
    /// Another launch is under way; nothing is spawned.
    InProgress,
    /// The held instance is alive and healthy; nothing is spawned.
    AlreadyRunning,
    /// Observe the held instance with this pid and ask again.
    Observe(u32),
    /// Kill the instance with this pid if any, then resolve, spawn and
    /// wait for readiness; the launch is reserved to this caller.
    Launch { kill: Option<u32> },
}

/// A stop under way: the pid given up to be terminated and the status
/// its record had before the stop.
pub struct PendingStop {
    pid: u32,
    prior: ProcessStatus,
}

impl PendingStop {
    pub closed spec fn target(&self) -> u32 {
        self.pid
    }

    pub closed spec fn prior_status(&self) -> StatusView {
        self.prior@
    }

    /// The pid to terminate.
    pub fn pid(&self) -> (r: u32)
        ensures
            r == self.target(),
    {
        self.pid
    }
}

pub open spec fn pending_view(p: Option<PendingStop>) -> Option<(u32, StatusView)> {
    match p {
        Some(x) => Some((x.target(), x.prior_status())),
        None => None,
    }
}

/// What a supervisor tick is to do next.
#[derive(Debug, Clone, Copy, PartialEq, Eq, Structural)]
pub enum TickStep {
    /// Nothing to supervise, or a launch is under way.
    Idle,
    /// The held instance is alive and healthy.
    Healthy,
    /// Observe the held instance with this pid and tick again.
    Observe(u32),
    /// Kill the instance with this pid if any, then launch a replacement;
    /// the launch is reserved to this caller.
    Restart { kill: Option<u32> },
}

pub struct SupervisorView {
    /// Pid of the process whose handle the supervisor holds.
    pub handle: Option<u32>,
    pub record: Option<RecordView>,
    /// A launch has been reserved and not yet finished.
    pub launching: bool,
    /// The reserved launch is the tick's recovery of a failed instance,
    /// not a start request.
    pub recovering: bool,
}

/// Owner of the supervised backend's handle and record.
pub struct Supervisor {
    handle: Option<u32>,
    record: Option<ProcessInfo>,
    launching: bool,
    recovering: bool,
}

impl View for Supervisor {
    type V = SupervisorView;

    closed spec fn view(&self) -> SupervisorView {
        SupervisorView {
            handle: self.handle,
            record: match self.record {
                Some(r) => Some(r@),
                None => None,
            },
            launching: self.launching,
            recovering: self.recovering,
        }
    }
}

/// A record exists whenever a handle is held, and only a reserved launch
/// can be a recovery.
pub open spec fn well_formed(s: SupervisorView) -> bool {
    &&& s.handle is Some ==> s.record is Some
    &&& s.recovering ==> s.launching
}

/// The record with its status replaced, if there is one.
pub open spec fn with_status(r: Option<RecordView>, st: StatusView) -> Option<RecordView> {
    match r {
        Some(x) => Some(RecordView { status: st, ..x }),
        None => None,
    }
}

/// Prefix of the cause recorded when an automatic recovery fails.
pub open spec fn recovery_failure_prefix() -> Seq<char> {
    "자동 복구 실패: "@
}

/// One more restart, saturating at the largest count.
pub open spec fn next_count(c: u32) -> u32 {
    if c < u32::MAX {
        (c + 1) as u32
    } else {
        c
    }
}

/// Restart count of the current record, zero without one.
pub open spec fn restarts_of(r: Option<RecordView>) -> u32 {
    match r {
        Some(x) => x.restart_count,
        None => 0,
    }
}

/// The observation applied to the state: an exit of the held instance
/// drops its handle and leaves the record as it is; a probe of it is
/// booked in the record. An observation of any other pid changes nothing. The flag
/// is the combined liveness-and-health verdict.
pub open spec fn observe_spec(s: SupervisorView, o: ObservationView, now: u64) -> (
    SupervisorView,
    bool,
) {
    if s.handle == Some(observed_pid(o)) {
        match o {
            ObservationView::Exited(_) => (
                SupervisorView { handle: None, ..s },
                false,
            ),
            ObservationView::Probed(_, p) => (
                SupervisorView {
                    record: match s.record {
                        Some(x) => Some(record_after_probe(x, p, now)),
                        None => None,
                    },
                    ..s
                },
                probe_healthy(p),
            ),
        }
    } else {
        (s, false)
    }
}

pub open spec fn observes_handle(s: SupervisorView, obs: Option<ObservationView>) -> bool {
    match obs {
        Some(o) => s.handle == Some(observed_pid(o)),
        None => false,
    }
}

/// A start request: reserve a launch unless one is under way or the held
/// instance proves alive and healthy; an instance that is alive but
/// unhealthy is handed back to be killed.
pub open spec fn start_spec(s: SupervisorView, obs: Option<ObservationView>, now: u64) -> (
    SupervisorView,
    StartStep,
) {
    if s.launching {
        (s, StartStep::InProgress)
    } else {
        match s.handle {
            None => (
                SupervisorView { launching: true, recovering: false, ..s },
                StartStep::Launch { kill: None },
            ),
            Some(h) => if observes_handle(s, obs) {
                let (s1, healthy) = observe_spec(s, obs.unwrap(), now);
                if healthy {
                    (s1, StartStep::AlreadyRunning)
                } else {
                    (
                        SupervisorView { handle: None, launching: true, recovering: false, ..s1 },
                        StartStep::Launch { kill: s1.handle },
                    )
                }
            } else {
                (s, StartStep::Observe(h))
            },
        }
    }
}

/// A record that the tick is to bring back: one that exists and was not
/// stopped on request.
pub open spec fn recoverable(r: Option<RecordView>) -> bool {
    match r {
        Some(x) => !(x.status is Stopped) && !(x.status is Stopping),
        None => false,
    }
}

/// The restart path: count one more restart, mark the record `Starting`
/// and reserve the launch.
pub open spec fn restart_spec(s: SupervisorView) -> SupervisorView {
    SupervisorView {
        record: match s.record {
            Some(x) => Some(
                RecordView {
                    restart_count: next_count(x.restart_count),
                    status: StatusView::Starting,
                    ..x
                },
            ),
            None => None,
        },
        launching: true,
        recovering: true,
        ..s
    }
}

/// A supervisor tick: with no launch under way, an instance that exited
/// or answered unhealthy is replaced, and a record left without a live
/// instance (a failed restart, an exit seen elsewhere) is restarted,
/// unless it was stopped on request.
pub open spec fn tick_spec(s: SupervisorView, obs: Option<ObservationView>, now: u64) -> (
    SupervisorView,
    TickStep,
) {
    if s.launching {
        (s, TickStep::Idle)
    } else {
        match s.handle {
            None => if recoverable(s.record) {
                (restart_spec(s), TickStep::Restart { kill: None })
            } else {
                (s, TickStep::Idle)
            },
            Some(h) => if observes_handle(s, obs) {
                let (s1, healthy) = observe_spec(s, obs.unwrap(), now);
                if healthy {
                    (s1, TickStep::Healthy)
                } else {
                    (
                        restart_spec(SupervisorView { handle: None, ..s1 }),
                        TickStep::Restart { kill: s1.handle },
                    )
                }
            } else {
                (s, TickStep::Observe(h))
            },
        }
    }
}

/// A child was spawned at `now`: hold its handle and start a fresh record
/// that keeps the restart count.
pub open spec fn spawned_spec(s: SupervisorView, pid: u32, now: u64) -> SupervisorView {
    SupervisorView {
        handle: Some(pid),
        record: Some(fresh_record(pid, now, restarts_of(s.record))),
        ..s
    }
}

/// A launch ended: release the reservation. The cause of a failed
/// recovery is recorded; a failed start request leaves the record alone,
/// its error goes back to the caller.
pub open spec fn finish_launch_spec(s: SupervisorView, result: Result<(), ErrorView>) -> SupervisorView {
    SupervisorView {
        launching: false,
        recovering: false,
        record: match result {
            Err(e) => if s.recovering {
                with_status(s.record, StatusView::Error(recovery_failure_prefix() + error_reason(e)))
            } else {
                s.record
            },
            Ok(_) => s.record,
        },
        ..s
    }
}

/// The status of the record, `Stopped` without one.
pub open spec fn status_of(r: Option<RecordView>) -> StatusView {
    match r {
        Some(x) => x.status,
        None => StatusView::Stopped,
    }
}

/// A stop request: the held handle, if any, is given up to be terminated,
/// together with the status the record had, and the record is `Stopping`;
/// without a handle the record is `Stopped` at once.
pub open spec fn begin_stop_spec(s: SupervisorView) -> (SupervisorView, Option<(u32, StatusView)>) {
    match s.handle {
        Some(h) => (
            SupervisorView { handle: None, record: with_status(s.record, StatusView::Stopping), ..s },
            Some((h, status_of(s.record))),
        ),
        None => (SupervisorView { record: with_status(s.record, StatusView::Stopped), ..s }, None),
    }
}

/// The end of a stop, given the status the record had before it and
/// whether termination succeeded: a failed termination puts that status
/// back.
pub open spec fn finish_stop_spec(s: SupervisorView, prior: StatusView, kill: Result<(), Seq<char>>) -> (
    SupervisorView,
    Result<(), ErrorView>,
) {
    match kill {
        Ok(_) => (SupervisorView { record: with_status(s.record, StatusView::Stopped), ..s }, Ok(())),
        Err(m) => (
            SupervisorView { record: with_status(s.record, prior), ..s },
            Err(ErrorView::KillFailure(m)),
        ),
    }
}

/// A whole stop: begin it, and finish it with the termination result if a
/// handle was given up.
pub open spec fn stop_spec(s: SupervisorView, kill: Result<(), Seq<char>>) -> (
    SupervisorView,
    Result<(), ErrorView>,
) {
    let (s1, target) = begin_stop_spec(s);
    match target {
        Some((_, prior)) => finish_stop_spec(s1, prior, kill),
        None => (s1, Ok(())),
    }
}

/// Whether the record's pid still names the backend instance: a handle on
/// it is held, or its status is one of a live instance.
pub open spec fn pid_is_live(s: SupervisorView) -> bool {
    match s.record {
        Some(x) => s.handle is Some || x.status is Starting || x.status is Running
            || x.status is Stopping,
        None => false,
    }
}

/// A forced kill: the target is the record's pid, taken from the record
/// rather than the handle, unless that pid is stale; the handle is dropped
/// and the record is `Stopped`.
pub open spec fn force_kill_spec(s: SupervisorView) -> (SupervisorView, Option<u32>) {
    (
        SupervisorView { handle: None, record: with_status(s.record, StatusView::Stopped), ..s },
        if pid_is_live(s) {
            Some(s.record.unwrap().pid)
        } else {
            None
        },
    )
}

impl Supervisor {
    /// A supervisor that has never started anything.
    pub fn new() -> (r: Supervisor)
        ensures
            r@ == (SupervisorView { handle: None, record: None, launching: false, recovering: false }),
    {
        Supervisor { handle: None, record: None, launching: false, recovering: false }
    }

    /// Pid of the instance whose handle is held.
    pub fn handle_pid(&self) -> (r: Option<u32>)
        ensures
            r == self@.handle,
    {
        self.handle
    }

    /// Whether a launch is reserved and not yet finished.
    pub fn is_launching(&self) -> (r: bool)
        ensures
            r == self@.launching,
    {
        self.launching
    }

    /// Replaces the record.
    pub fn set_record(&mut self, info: ProcessInfo)
        requires
            well_formed(old(self)@),
        ensures
            final(self)@ == (SupervisorView { record: Some(info@), ..old(self)@ }),
            well_formed(final(self)@),
    {
        self.record = Some(info);
    }

    fn set_status(&mut self, st: ProcessStatus)
        ensures
            final(self)@ == (SupervisorView { record: with_status(old(self)@.record, st@), ..old(self)@ }),
    {
        match &mut self.record {
            Some(r) => {
                r.status = st;
            },
            None => {},
        }
    }

    /// Books an observation of the held instance; true when the instance
    /// is alive and answered healthy.
    pub fn observe(&mut self, obs: &Observation, now: u64) -> (running: bool)
        requires
            well_formed(old(self)@),
        ensures
            (final(self)@, running) == observe_spec(old(self)@, obs@, now),
            well_formed(final(self)@),
    {
        let pid = match obs {
            Observation::Exited(p) => *p,
            Observation::Probed(p, _) => *p,
        };
        if self.handle != Some(pid) {
            return false;
        }
        match obs {
            Observation::Exited(_) => {
                self.handle = None;
                false
            },
            Observation::Probed(_, outcome) => {
                match &mut self.record {
                    Some(r) => r.apply_probe(outcome, now),
                    None => outcome.is_healthy(),
                }
            },
        }
    }

    fn observes_handle(&self, obs: &Option<Observation>) -> (r: bool)
        ensures
            r == observes_handle(self@, view_of(*obs)),
    {
        match obs {
            Some(Observation::Exited(p)) => self.handle == Some(*p),
            Some(Observation::Probed(p, _)) => self.handle == Some(*p),
            None => false,
        }
    }

    fn restart(&mut self)
        ensures
            final(self)@ == restart_spec(old(self)@),
    {
        match &mut self.record {
            Some(r) => {
                r.restart_count = if r.restart_count < u32::MAX {
                    r.restart_count + 1
                } else {
                    r.restart_count
                };
                r.status = ProcessStatus::Starting;
            },
            None => {},
        }
        self.launching = true;
        self.recovering = true;
    }

    /// One step of a start request. `obs` is what the caller last saw of
    /// the held instance, if anything.
    pub fn start_step(&mut self, obs: &Option<Observation>, now: u64) -> (r: StartStep)
        requires
            well_formed(old(self)@),
        ensures
            (final(self)@, r) == start_spec(old(self)@, view_of(*obs), now),
            well_formed(final(self)@),
    {
        if self.launching {
            return StartStep::InProgress;
        }
        match self.handle {
            None => {
                self.launching = true;
                self.recovering = false;
                StartStep::Launch { kill: None }
            },
            Some(h) => {
                let o = match obs {
                    Some(o) => o,
                    None => {
                        return StartStep::Observe(h);
                    },
                };
                if !self.observes_handle(obs) {
                    return StartStep::Observe(h);
                }
                let healthy = self.observe(o, now);
                if healthy {
                    StartStep::AlreadyRunning
                } else {
                    let kill = self.handle;
                    self.handle = None;
                    self.launching = true;
                    self.recovering = false;
                    StartStep::Launch { kill }
                }
            },
        }
    }

    /// One step of the periodic health tick. `obs` is what the caller last
    /// saw of the held instance, if anything.
    pub fn tick(&mut self, obs: &Option<Observation>, now: u64) -> (r: TickStep)
        requires
            well_formed(old(self)@),
        ensures
            (final(self)@, r) == tick_spec(old(self)@, view_of(*obs), now),
            well_formed(final(self)@),
    {
        if self.launching {
            return TickStep::Idle;
        }
        match self.handle {
            None => {
                let recover = match &self.record {
                    Some(r) => match r.status {
                        ProcessStatus::Stopped => false,
                        ProcessStatus::Stopping => false,
                        _ => true,
                    },
                    None => false,
                };
                if recover {
                    self.restart();
                    TickStep::Restart { kill: None }
                } else {
                    TickStep::Idle
                }
            },
            Some(h) => {
                let o = match obs {
                    Some(o) => o,
                    None => {
                        return TickStep::Observe(h);
                    },
                };
                if !self.observes_handle(obs) {
                    return TickStep::Observe(h);
                }
                let healthy = self.observe(o, now);
                if healthy {
                    TickStep::Healthy
                } else {
                    let kill = self.handle;
                    self.handle = None;
                    self.restart();
                    TickStep::Restart { kill }
                }
            },
        }
    }

    /// A child with `pid` was spawned at `now` for the reserved launch.
    pub fn on_spawned(&mut self, pid: u32, now: u64)
        requires
            well_formed(old(self)@),
        ensures
            final(self)@ == spawned_spec(old(self)@, pid, now),
            well_formed(final(self)@),
    {
        let restarts = match &self.record {
            Some(r) => r.restart_count,
            None => 0,
        };
        let mut info = ProcessInfo::new_at(pid, now);
        info.restart_count = restarts;
        self.record = Some(info);
        self.handle = Some(pid);
    }

    /// Ends the reserved launch with its result, which is handed back. Only
    /// a failed recovery is recorded as an error.
    pub fn finish_launch(&mut self, result: Result<(), SupervisorError>) -> (r: Result<(), SupervisorError>)
        requires
            well_formed(old(self)@),
        ensures
            final(self)@ == finish_launch_spec(old(self)@, match result {
                Ok(_) => Ok::<(), ErrorView>(()),
                Err(e) => Err::<(), ErrorView>(e@),
            }),
            r == result,
            well_formed(final(self)@),
    {
        let recovering = self.recovering;
        self.launching = false;
        self.recovering = false;
        match &result {
            Ok(_) => {},
            Err(e) => {
                if recovering {
                    let mut cause = String::from_str("자동 복구 실패: ");
                    cause.append(e.reason().as_str());
                    self.set_status(ProcessStatus::Error(cause));
                }
            },
        }
        result
    }

    /// Begins a stop: gives up the held handle, if any, to be terminated,
    /// with the status the record had.
    pub fn begin_stop(&mut self) -> (r: Option<PendingStop>)
        requires
            well_formed(old(self)@),
        ensures
            (final(self)@, pending_view(r)) == begin_stop_spec(old(self)@),
            well_formed(final(self)@),
    {
        match self.handle {
            Some(h) => {
                let prior = match &self.record {
                    Some(info) => info.status.duplicate(),
                    None => ProcessStatus::Stopped,
                };
                self.handle = None;
                self.set_status(ProcessStatus::Stopping);
                Some(PendingStop { pid: h, prior })
            },
            None => {
                self.set_status(ProcessStatus::Stopped);
                None
            },
        }
    }

    /// Ends a stop with the result of terminating the process. On success
    /// the record is `Stopped`; on failure it gets back the status it had
    /// before the stop, and the cause goes to the caller.
    pub fn finish_stop(&mut self, pending: PendingStop, kill: Result<(), String>) -> (r: Result<(), SupervisorError>)
        requires
            well_formed(old(self)@),
        ensures
            (final(self)@, match r {
                Ok(_) => Ok::<(), ErrorView>(()),
                Err(e) => Err::<(), ErrorView>(e@),
            }) == finish_stop_spec(old(self)@, pending.prior_status(), match kill {
                Ok(_) => Ok::<(), Seq<char>>(()),
                Err(m) => Err::<(), Seq<char>>(m@),
            }),
            well_formed(final(self)@),
    {
        match kill {
            Ok(_) => {
                self.set_status(ProcessStatus::Stopped);
                Ok(())
            },
            Err(m) => {
                self.set_status(pending.prior);
                Err(SupervisorError::KillFailure(m))
            },
        }
    }

    /// A forced kill: drops the handle, marks the record `Stopped`, and
    /// returns the record's pid for the out-of-band kill unless it is
    /// stale.
    pub fn force_kill(&mut self) -> (r: Option<u32>)
        requires
            well_formed(old(self)@),
        ensures
            (final(self)@, r) == force_kill_spec(old(self)@),
            well_formed(final(self)@),
    {
        let held = self.handle.is_some();
        let target = match &self.record {
            Some(info) => match info.status {
                ProcessStatus::Starting => Some(info.pid),
                ProcessStatus::Running => Some(info.pid),
                ProcessStatus::Stopping => Some(info.pid),
                _ => if held {
                    Some(info.pid)
                } else {
                    None
                },
            },
            None => None,
        };
        self.handle = None;
        self.set_status(ProcessStatus::Stopped);
        target
    }
}

/// A copy of the current record, if there is one.
pub fn get_process_info(supervisor: &Supervisor) -> (r: Option<ProcessInfo>)
    ensures
        match r {
            Some(info) => supervisor@.record == Some(info@),
            None => supervisor@.record is None,
        },
{
    match &supervisor.record {
        Some(info) => Some(info.snapshot()),
        None => None,
    }
}

} // verus!

//! Properties of the supervisor that hold across calls, proved over the
//! step functions that the executable operations are specified by.
use vstd::prelude::*;
use crate::error::{ErrorView, error_reason};
use crate::launch::{Readiness, first_usable_index, readiness_after, resolution};
use crate::probe::{ProbeView, probe_healthy};
use crate::record::{RecordView, StatusView, record_after_probe};
use crate::supervisor::{
    ObservationView,
    StartStep,
    SupervisorView,
    TickStep,
    begin_stop_spec,
    finish_launch_spec,
    finish_stop_spec,
    force_kill_spec,
    next_count,
    observe_spec,
    observed_pid,
    pid_is_live,
    recovery_failure_prefix,
    restarts_of,
    spawned_spec,
    start_spec,
    stop_spec,
    tick_spec,
    well_formed,
    with_status,
};

verus! {

/// Stopping is idempotent: whatever the first stop met, a second stop
/// right after it succeeds, holds no handle, and leaves any record
/// `Stopped`.
pub proof fn stop_twice_succeeds(
    s: SupervisorView,
    first: Result<(), Seq<char>>,
    second: Result<(), Seq<char>>,
)
    requires
        well_formed(s),
    ensures
        stop_spec(stop_spec(s, first).0, second).1 == Ok::<(), ErrorView>(()),
        stop_spec(stop_spec(s, first).0, second).0.handle is None,
        stop_spec(stop_spec(s, first).0, second).0.record == with_status(
            stop_spec(s, first).0.record,
            StatusView::Stopped,
        ),
{
}

/// A stop whose termination fails reports the cause and leaves the record
/// as it was before the stop; the handle is given up either way.
pub proof fn failed_stop_keeps_record(s: SupervisorView, cause: Seq<char>)
    requires
        well_formed(s),
        s.handle is Some,
    ensures
        stop_spec(s, Err(cause)).1 == Err::<(), ErrorView>(ErrorView::KillFailure(cause)),
        stop_spec(s, Err(cause)).0.record == s.record,
        stop_spec(s, Err(cause)).0.handle is None,
{
    let x = s.record.unwrap();
    assert(RecordView { status: x.status, ..RecordView { status: StatusView::Stopping, ..x } }
        == x);
}

/// After a forced kill no handle is held, a record that existed is still
/// there and reads `Stopped`, and no observation whatever makes the
/// backend count as running, whether or not the kill itself worked. The
/// kill targets the record's pid only while that pid is live, so never
/// the stale pid of a stopped record.
pub proof fn force_kill_leaves_stopped(s: SupervisorView, o: ObservationView, now: u64)
    requires
        well_formed(s),
    ensures
        force_kill_spec(s).0.handle is None,
        force_kill_spec(s).0.record is Some <==> s.record is Some,
        force_kill_spec(s).0.record is Some ==> force_kill_spec(s).0.record.unwrap().status
            is Stopped,
        !observe_spec(force_kill_spec(s).0, o, now).1,
        force_kill_spec(s).1 is Some <==> pid_is_live(s),
        force_kill_spec(s).1 is Some ==> force_kill_spec(s).1 == Some(s.record.unwrap().pid),
        s.handle is None && s.record is Some && s.record.unwrap().status is Stopped
            ==> force_kill_spec(s).1 is None,
        force_kill_spec(force_kill_spec(s).0).1 is None,
{
}

/// The restart count never goes down: every step keeps it, except a tick
/// that takes the restart path, which adds exactly one (short of the
/// largest count, where it stays). A record, once there, stays.
pub proof fn restart_count_monotone(
    s: SupervisorView,
    o: ObservationView,
    obs: Option<ObservationView>,
    pid: u32,
    now: u64,
    launch: Result<(), ErrorView>,
    prior: StatusView,
    kill: Result<(), Seq<char>>,
)
    requires
        well_formed(s),
    ensures
        restarts_of(observe_spec(s, o, now).0.record) == restarts_of(s.record),
        restarts_of(start_spec(s, obs, now).0.record) == restarts_of(s.record),
        restarts_of(spawned_spec(s, pid, now).record) == restarts_of(s.record),
        restarts_of(finish_launch_spec(s, launch).record) == restarts_of(s.record),
        restarts_of(begin_stop_spec(s).0.record) == restarts_of(s.record),
        restarts_of(finish_stop_spec(s, prior, kill).0.record) == restarts_of(s.record),
        restarts_of(force_kill_spec(s).0.record) == restarts_of(s.record),
        tick_spec(s, obs, now).1 is Restart ==> restarts_of(tick_spec(s, obs, now).0.record)
            == next_count(restarts_of(s.record)),
        !(tick_spec(s, obs, now).1 is Restart) ==> restarts_of(tick_spec(s, obs, now).0.record)
            == restarts_of(s.record),
        s.record is Some ==> observe_spec(s, o, now).0.record is Some && start_spec(
            s,
            obs,
            now,
        ).0.record is Some && tick_spec(s, obs, now).0.record is Some && finish_launch_spec(
            s,
            launch,
        ).record is Some && begin_stop_spec(s).0.record is Some && finish_stop_spec(
            s,
            prior,
            kill,
        ).0.record is Some && force_kill_spec(s).0.record is Some,
{
}

/// A probe that is not a 2xx answer turns the status into an error, and a
/// healthy probe of an instance that was not stopped on request makes it
/// `Running`, whatever came before.
pub proof fn probe_sets_status(r: RecordView, o: ProbeView, now: u64)
    ensures
        !probe_healthy(o) ==> record_after_probe(r, o, now).status is Error,
        probe_healthy(o) && !(r.status is Stopping) && !(r.status is Stopped)
            ==> record_after_probe(r, o, now).status is Running,
        record_after_probe(r, o, now).last_health_check == now,
{
}

/// The state after booking the probes `ps` of the instance `pid`, in order.
pub open spec fn observe_probes(s: SupervisorView, pid: u32, ps: Seq<ProbeView>, now: u64) -> SupervisorView
    decreases ps.len(),
{
    if ps.len() == 0 {
        s
    } else {
        observe_spec(
            observe_probes(s, pid, ps.drop_last(), now),
            ObservationView::Probed(pid, ps.last()),
            now,
        ).0
    }
}

/// Booking probes of the held instance keeps the handle, the reservation
/// and the record's identity and count; after at least one probe the
/// status is `Running` if the last probe was healthy and an error if not.
pub proof fn lemma_observe_probes(s: SupervisorView, pid: u32, ps: Seq<ProbeView>, now: u64)
    requires
        s.handle == Some(pid),
        s.record is Some,
        !(s.record.unwrap().status is Stopping),
        !(s.record.unwrap().status is Stopped),
    ensures
        ({
            let t = observe_probes(s, pid, ps, now);
            &&& t.handle == s.handle
            &&& t.launching == s.launching
            &&& t.recovering == s.recovering
            &&& t.record is Some
            &&& t.record.unwrap().pid == s.record.unwrap().pid
            &&& t.record.unwrap().start_time == s.record.unwrap().start_time
            &&& t.record.unwrap().restart_count == s.record.unwrap().restart_count
            &&& !(t.record.unwrap().status is Stopping)
            &&& !(t.record.unwrap().status is Stopped)
            &&& ps.len() > 0 ==> (t.record.unwrap().status is Running <==> probe_healthy(
                ps.last(),
            ))
        }),
    decreases ps.len(),
{
    if ps.len() > 0 {
        lemma_observe_probes(s, pid, ps.drop_last(), now);
    }
}

/// A start against a state with nothing held: it reserves the launch; the
/// readiness wait continues past every unhealthy probe before its last
/// allowed one; when it ends, either the backend is `Running` and counts
/// as running as long as it answers healthy, or all `limit` probes failed
/// and the start fails with `ReadinessTimeout`.
pub proof fn start_ready_or_timed_out(
    s: SupervisorView,
    obs: Option<ObservationView>,
    now: u64,
    pid: u32,
    t1: u64,
    ps: Seq<ProbeView>,
    t2: u64,
    limit: nat,
    answer: ProbeView,
    t3: u64,
)
    requires
        well_formed(s),
        !s.launching,
        s.handle is None,
        1 <= ps.len() <= limit,
        forall|i: int| 0 <= i < ps.len() - 1 ==> !probe_healthy(#[trigger] ps[i]),
    ensures
        ({
            let (s1, step) = start_spec(s, obs, now);
            let s3 = observe_probes(spawned_spec(s1, pid, t1), pid, ps, t2);
            let verdict = readiness_after(ps.len(), limit, probe_healthy(ps.last()));
            let ready = finish_launch_spec(s3, Ok(()));
            &&& step == StartStep::Launch { kill: None }
            &&& forall|i: int|
                0 <= i < ps.len() - 1 ==> readiness_after(
                    (i + 1) as nat,
                    limit,
                    probe_healthy(#[trigger] ps[i]),
                ) == Readiness::Retry
            &&& verdict == Readiness::Retry ==> ps.len() < limit
            &&& verdict == Readiness::TimedOut ==> ps.len() == limit
            &&& verdict == Readiness::Ready ==> ready.record.unwrap().status is Running
                && ready.handle == Some(pid) && !ready.launching && observe_spec(
                ready,
                ObservationView::Probed(pid, answer),
                t3,
            ).1 == probe_healthy(answer)
        }),
{
    let (s1, step) = start_spec(s, obs, now);
    lemma_observe_probes(spawned_spec(s1, pid, t1), pid, ps, t2);
}

/// One crash-and-recover cycle: when the tick sees the held instance
/// exited or unhealthy, it restarts with the count up by one and status
/// `Starting`; once the replacement is spawned and its readiness probes
/// end with a healthy one, whatever failed before, it is `Running` and
/// counts as running, with the count still up by exactly one.
pub proof fn crash_and_recover(
    s: SupervisorView,
    seen: ObservationView,
    t0: u64,
    pid: u32,
    t1: u64,
    ps: Seq<ProbeView>,
    t2: u64,
)
    requires
        well_formed(s),
        !s.launching,
        s.handle == Some(observed_pid(seen)),
        match seen {
            ObservationView::Exited(_) => true,
            ObservationView::Probed(_, p) => !probe_healthy(p),
        },
        restarts_of(s.record) < u32::MAX,
        ps.len() > 0,
        probe_healthy(ps.last()),
    ensures
        ({
            let (s1, step) = tick_spec(s, Some(seen), t0);
            let s3 = observe_probes(spawned_spec(s1, pid, t1), pid, ps, t2);
            let s4 = finish_launch_spec(s3, Ok(()));
            &&& step is Restart
            &&& s1.launching
            &&& s1.handle is None
            &&& s1.record.unwrap().status is Starting
            &&& restarts_of(s1.record) == restarts_of(s.record) + 1
            &&& observe_spec(s3, ObservationView::Probed(pid, ps.last()), t2).1
            &&& s4.record.unwrap().status is Running
            &&& restarts_of(s4.record) == restarts_of(s.record) + 1
            &&& !s4.launching
            &&& s4.handle == Some(pid)
        }),
{
    let (s1, step) = tick_spec(s, Some(seen), t0);
    lemma_observe_probes(spawned_spec(s1, pid, t1), pid, ps, t2);
}

/// Two start requests against a clean state: the first reserves the
/// launch; until it finishes a second start spawns nothing and the tick
/// leaves the state alone, whatever they observed. When the first
/// launch's instance answers healthy, exactly that instance is held and
/// `Running`, and a later start finds it running.
pub proof fn concurrent_starts_spawn_once(
    s: SupervisorView,
    o1: Option<ObservationView>,
    n1: u64,
    o2: Option<ObservationView>,
    n2: u64,
    o3: Option<ObservationView>,
    n3: u64,
    pid: u32,
    t1: u64,
    ps: Seq<ProbeView>,
    t2: u64,
)
    requires
        well_formed(s),
        !s.launching,
        s.handle is None,
        ps.len() > 0,
        probe_healthy(ps.last()),
    ensures
        start_spec(s, o1, n1) == (
        SupervisorView { launching: true, recovering: false, ..s },
        StartStep::Launch { kill: None },
        ),
        start_spec(start_spec(s, o1, n1).0, o2, n2) == (
        start_spec(s, o1, n1).0,
        StartStep::InProgress,
        ),
        tick_spec(start_spec(s, o1, n1).0, o3, n3) == (start_spec(s, o1, n1).0, TickStep::Idle),
        ({
            let s3 = observe_probes(spawned_spec(start_spec(s, o1, n1).0, pid, t1), pid, ps, t2);
            let done = finish_launch_spec(s3, Ok(()));
            &&& done.handle == Some(pid)
            &&& done.record.unwrap().pid == pid
            &&& done.record.unwrap().status is Running
            &&& !done.launching
            &&& start_spec(done, Some(ObservationView::Probed(pid, ps.last())), t2).1
                == StartStep::AlreadyRunning
        }),
{
    let s1 = start_spec(s, o1, n1).0;
    lemma_observe_probes(spawned_spec(s1, pid, t1), pid, ps, t2);
}

/// A start that finds an interpreter but no backend directory fails with
/// `DirectoryNotFound`, spawns nothing, and leaves the state exactly as it
/// was: no record is created, and an existing one keeps its status.
pub proof fn missing_directory_changes_nothing(
    s: SupervisorView,
    obs: Option<ObservationView>,
    now: u64,
    script_exists: bool,
    candidates: Seq<Seq<char>>,
    usable: Seq<bool>,
)
    requires
        well_formed(s),
        !s.launching,
        s.handle is None,
        first_usable_index(usable, candidates.len() as int) is Some,
    ensures
        start_spec(s, obs, now).1 == (StartStep::Launch { kill: None }),
        resolution(false, script_exists, candidates, usable) == Err::<Seq<char>, ErrorView>(
            ErrorView::DirectoryNotFound,
        ),
        finish_launch_spec(start_spec(s, obs, now).0, Err(ErrorView::DirectoryNotFound)) == s,
{
}

/// Without a usable interpreter a launch fails with `ExecutableNotFound`,
/// whatever exists on disk.
pub proof fn missing_interpreter_reported_first(
    dir_exists: bool,
    script_exists: bool,
    candidates: Seq<Seq<char>>,
    usable: Seq<bool>,
)
    requires
        first_usable_index(usable, candidates.len() as int) is None,
    ensures
        resolution(dir_exists, script_exists, candidates, usable) == Err::<Seq<char>, ErrorView>(
            ErrorView::ExecutableNotFound,
        ),
{
}

/// While a launch is under way, a start request spawns nothing and
/// changes nothing, and the tick leaves the state alone, whatever either
/// observed.
pub proof fn launch_under_way_changes_nothing(
    s: SupervisorView,
    o1: Option<ObservationView>,
    n1: u64,
    o2: Option<ObservationView>,
    n2: u64,
)
    requires
        s.launching,
    ensures
        start_spec(s, o1, n1) == (s, StartStep::InProgress),
        tick_spec(s, o2, n2) == (s, TickStep::Idle),
{
}

/// Seeing the held instance exited drops its handle, leaves the record as
/// it was, and does not count as running.
pub proof fn exit_keeps_record(s: SupervisorView, pid: u32, now: u64)
    requires
        s.handle == Some(pid),
    ensures
        observe_spec(s, ObservationView::Exited(pid), now) == (
        SupervisorView { handle: None, ..s },
        false,
        ),
{
}

/// A recovery that fails records its cause after the recovery-failure
/// prefix, keeps the added restart, and leaves the record to be retried by
/// the next tick.
pub proof fn failed_recovery_recorded(
    s: SupervisorView,
    obs: Option<ObservationView>,
    now: u64,
    e: ErrorView,
    obs2: Option<ObservationView>,
    later: u64,
)
    requires
        well_formed(s),
        tick_spec(s, obs, now).1 is Restart,
    ensures
        ({
            let s1 = finish_launch_spec(tick_spec(s, obs, now).0, Err(e));
            &&& s1.record.unwrap().status == StatusView::Error(
                recovery_failure_prefix() + error_reason(e),
            )
            &&& restarts_of(s1.record) == next_count(restarts_of(s.record))
            &&& s1.handle is None
            &&& !s1.launching
            &&& tick_spec(s1, obs2, later).1 == (TickStep::Restart { kill: None })
        }),
{
}

/// A start request that fails before spawning, for whatever reason,
/// leaves the state as it was.
pub proof fn failed_start_keeps_record(
    s: SupervisorView,
    obs: Option<ObservationView>,
    now: u64,
    e: ErrorView,
)
    requires
        well_formed(s),
        !s.launching,
        s.handle is None,
    ensures
        finish_launch_spec(start_spec(s, obs, now).0, Err(e)) == s,
{
}

} // verus!

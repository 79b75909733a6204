use backend_supervisor::launch::{
    executable_candidates, resolve_launch, BACKEND_DIR_NAME, BACKEND_SCRIPT_NAME,
};
use backend_supervisor::probe::ProbeOutcome;
use backend_supervisor::record::{ProcessInfo, ProcessStatus};
use backend_supervisor::supervisor::{get_process_info, Observation, Supervisor};
use std::time::{Duration, SystemTime, UNIX_EPOCH};

#[test]
fn test_process_info_creation() {
    let pid = 12345;
    let process_info = ProcessInfo::new(pid);

    assert_eq!(process_info.pid, pid);
    assert_eq!(process_info.restart_count, 0);
    assert!(matches!(process_info.status, ProcessStatus::Starting));

    let now = SystemTime::now()
        .duration_since(UNIX_EPOCH)
        .unwrap()
        .as_secs();

    assert!(process_info.start_time <= now);
    assert!(process_info.last_health_check <= now);

    #[allow(unused_comparisons)]
    let non_negative = process_info.uptime() >= 0;
    assert!(non_negative);
}

#[test]
fn test_get_process_info() {
    let mut supervisor = Supervisor::new();
    let initial_info = get_process_info(&supervisor);
    assert!(initial_info.is_none());

    supervisor.set_record(ProcessInfo::new(12345));

    let info = get_process_info(&supervisor);
    assert!(info.is_some());

    let process_info = info.unwrap();
    assert_eq!(process_info.pid, 12345);
    assert_eq!(process_info.restart_count, 0);
}

#[test]
fn test_process_status_updates() {
    let mut process_info = ProcessInfo::new(12345);

    assert!(matches!(process_info.status, ProcessStatus::Starting));

    process_info.status = ProcessStatus::Running;
    assert!(matches!(process_info.status, ProcessStatus::Running));

    process_info.status = ProcessStatus::Error("Test error".to_string());
    if let ProcessStatus::Error(ref msg) = process_info.status {
        assert_eq!(msg, "Test error");
    } else {
        panic!("Expected Error status");
    }

    process_info.status = ProcessStatus::Stopped;
    assert!(matches!(process_info.status, ProcessStatus::Stopped));
}

#[test]
fn test_restart_count() {
    let mut process_info = ProcessInfo::new(12345);

    assert_eq!(process_info.restart_count, 0);

    process_info.restart_count += 1;
    assert_eq!(process_info.restart_count, 1);

    process_info.restart_count += 1;
    assert_eq!(process_info.restart_count, 2);
}

#[test]
fn test_health_check_time_update() {
    let mut process_info = ProcessInfo::new(12345);
    let initial_time = process_info.last_health_check;

    let new_time = SystemTime::now()
        .duration_since(UNIX_EPOCH)
        .unwrap()
        .as_secs();

    process_info.last_health_check = new_time;

    assert!(process_info.last_health_check >= initial_time);
}

#[test]
fn new_at_sets_both_times() {
    let info = ProcessInfo::new_at(7, 1_000);
    assert_eq!(info.pid, 7);
    assert_eq!(info.start_time, 1_000);
    assert_eq!(info.last_health_check, 1_000);
    assert_eq!(info.restart_count, 0);
    assert!(matches!(info.status, ProcessStatus::Starting));
}

#[test]
fn uptime_at_counts_seconds_and_floors_at_zero() {
    let info = ProcessInfo::new_at(7, 1_000);
    assert_eq!(info.uptime_at(1_100), 100);
    assert_eq!(info.uptime_at(1_000), 0);
    assert_eq!(info.uptime_at(900), 0);
}

#[test]
fn snapshot_copies_every_field() {
    let mut info = ProcessInfo::new_at(9, 50);
    info.restart_count = 4;
    info.status = ProcessStatus::Error("boom".to_string());
    let copy = info.snapshot();
    assert_eq!(copy.pid, 9);
    assert_eq!(copy.start_time, 50);
    assert_eq!(copy.restart_count, 4);
    match copy.status {
        ProcessStatus::Error(m) => assert_eq!(m, "boom"),
        other => panic!("unexpected status {:?}", other),
    }
}

#[test]
fn test_process_info_uptime() {
    let process_info = ProcessInfo::new(12345);
    let initial_uptime = process_info.uptime();

    let runtime = tokio::runtime::Runtime::new().unwrap();
    runtime.block_on(async { tokio::time::sleep(Duration::from_millis(100)).await });

    let later_uptime = process_info.uptime();

    assert!(later_uptime >= initial_uptime);
}

#[test]
fn test_is_backend_running_no_process() {
    let mut supervisor = Supervisor::new();
    assert!(supervisor.handle_pid().is_none());
    let is_running = supervisor.observe(
        &Observation::Probed(12345, ProbeOutcome::Responded(200)),
        0,
    );
    assert!(!is_running);
    assert!(!supervisor.observe(&Observation::Exited(12345), 0));
    assert!(get_process_info(&supervisor).is_none());
}

#[test]
fn test_find_python_executable() {
    for windows in [false, true] {
        let candidates = executable_candidates(windows);
        for usable in [vec![true, true, true], vec![false, true, true], vec![false, false, false]] {
            let result = resolve_launch(true, true, &candidates, &usable);
            match result {
                Ok(python_cmd) => {
                    assert!(!python_cmd.is_empty());
                    assert!(["python", "python3", "python.exe", "python3.exe", "py.exe"]
                        .contains(&python_cmd.as_str()));
                }
                Err(e) => {
                    assert!(e.reason().contains("Python 실행 파일을 찾을 수 없습니다"));
                }
            }
        }
    }
}

#[test]
fn test_backend_path_functions() {
    let candidates = executable_candidates(false);
    let usable = vec![true];

    let backend_path = format!("{}/{}", BACKEND_DIR_NAME, BACKEND_SCRIPT_NAME);
    assert!(backend_path.ends_with("main.py"));
    assert!(backend_path.contains("python-backend"));
    match resolve_launch(true, false, &candidates, &usable) {
        Ok(_) => panic!("a missing script must be reported"),
        Err(e) => assert!(e.reason().contains("백엔드 스크립트를 찾을 수 없습니다")),
    }

    assert!(BACKEND_DIR_NAME.ends_with("python-backend"));
    match resolve_launch(false, false, &candidates, &usable) {
        Ok(_) => panic!("a missing directory must be reported"),
        Err(e) => assert!(e.reason().contains("백엔드 디렉토리를 찾을 수 없습니다")),
    }
}

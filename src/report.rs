//! The status summary offered to the user interface.
use vstd::prelude::*;
use crate::probe::HEALTH_PORT;
use crate::record::{ProcessInfo, ProcessStatus, RecordView, StatusView, uptime_of};

verus! {

/// Whether the backend runs, where it listens, how long it has been up and
/// the cause of its last failure.
#[derive(Debug, Clone)]
pub struct BackendStatus {
    pub running: bool,
    pub port: u16,
    pub uptime: Option<u64>,
    pub last_error: Option<String>,
}

/// The cause carried by an error status.
pub open spec fn error_of(s: StatusView) -> Option<Seq<char>> {
    match s {
        StatusView::Error(m) => Some(m),
        _ => None,
    }
}

/// The summary of `record` at `now`, given the combined running verdict.
pub fn backend_status(running: bool, record: &Option<ProcessInfo>, now: u64) -> (r: BackendStatus)
    ensures
        r.running == running,
        r.port == HEALTH_PORT,
        match record {
            Some(info) => r.uptime == Some(uptime_of(info@, now)) && match r.last_error {
                Some(m) => error_of(info@.status) == Some(m@),
                None => error_of(info@.status) is None,
            },
            None => r.uptime is None && r.last_error is None,
        },
{
    match record {
        Some(info) => {
            let last_error = match &info.status {
                ProcessStatus::Error(m) => Some(m.clone()),
                _ => None,
            };
            BackendStatus { running, port: HEALTH_PORT, uptime: Some(info.uptime_at(now)), last_error }
        },
        None => BackendStatus { running, port: HEALTH_PORT, uptime: None, last_error: None },
    }
}

} // verus!

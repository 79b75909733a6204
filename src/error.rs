//! Failures that start and stop report to their caller.
use vstd::prelude::*;

verus! {

/// Why a start or a stop did not succeed.
#[derive(Debug, Clone)]
pub enum SupervisorError {
    /// None of the interpreter candidates could be invoked.
    ExecutableNotFound,
    /// The backend entry script is absent.
    ScriptNotFound,
    /// The backend working directory is absent.
    DirectoryNotFound,
    /// The operating system refused to spawn the child.
    SpawnFailure(String),
    /// The backend never answered its health endpoint during the wait.
    ReadinessTimeout,
    /// The termination signal could not be delivered.
    KillFailure(String),
}

pub enum ErrorView {
    ExecutableNotFound,
    ScriptNotFound,
    DirectoryNotFound,
    SpawnFailure(Seq<char>),
    ReadinessTimeout,
    KillFailure(Seq<char>),
}

impl View for SupervisorError {
    type V = ErrorView;

    open spec fn view(&self) -> ErrorView {
        match self {
            SupervisorError::ExecutableNotFound => ErrorView::ExecutableNotFound,
            SupervisorError::ScriptNotFound => ErrorView::ScriptNotFound,
            SupervisorError::DirectoryNotFound => ErrorView::DirectoryNotFound,
            SupervisorError::SpawnFailure(m) => ErrorView::SpawnFailure(m@),
            SupervisorError::ReadinessTimeout => ErrorView::ReadinessTimeout,
            SupervisorError::KillFailure(m) => ErrorView::KillFailure(m@),
        }
    }
}

/// The human-readable cause of each error.
pub open spec fn error_reason(e: ErrorView) -> Seq<char> {
    match e {
        ErrorView::ExecutableNotFound => "Python 실행 파일을 찾을 수 없습니다"@,
        ErrorView::ScriptNotFound => "백엔드 스크립트를 찾을 수 없습니다"@,
        ErrorView::DirectoryNotFound => "백엔드 디렉토리를 찾을 수 없습니다"@,
        ErrorView::SpawnFailure(m) => "Python 프로세스 시작 실패: "@ + m,
        ErrorView::ReadinessTimeout => "백엔드 준비 시간 초과 (30초)"@,
        ErrorView::KillFailure(m) => "프로세스 종료 실패: "@ + m,
    }
}

impl SupervisorError {
    /// The human-readable cause of this error.
    pub fn reason(&self) -> (r: String)
        ensures
            r@ == error_reason(self@),
    {
        match self {
            SupervisorError::ExecutableNotFound => String::from_str(
                "Python 실행 파일을 찾을 수 없습니다",
            ),
            SupervisorError::ScriptNotFound => String::from_str("백엔드 스크립트를 찾을 수 없습니다"),
            SupervisorError::DirectoryNotFound => String::from_str("백엔드 디렉토리를 찾을 수 없습니다"),
            SupervisorError::SpawnFailure(m) => {
                let mut r = String::from_str("Python 프로세스 시작 실패: ");
                r.append(m.as_str());
                r
            },
            SupervisorError::ReadinessTimeout => String::from_str(
                "백엔드 준비 시간 초과 (30초)",
            ),
            SupervisorError::KillFailure(m) => {
                let mut r = String::from_str("프로세스 종료 실패: ");
                r.append(m.as_str());
                r
            },
        }
    }
}

} // verus!

//! Outcomes of the health probe and what they mean.
use vstd::prelude::*;
use crate::text::{decimal_digits, decimal_text};

verus! {

/// Port of the backend's health endpoint on the local host.
pub const HEALTH_PORT: u16 = 8000;

/// What one health request to the backend came back with.
#[derive(Debug, Clone)]
pub enum ProbeOutcome {
    /// The endpoint answered with this HTTP status code.
    Responded(u16),
    /// No answer: timeout, refused connection or another transport error.
    Unreachable(String),
}

pub enum ProbeView {
    Responded(u16),
    Unreachable(Seq<char>),
}

impl View for ProbeOutcome {
    type V = ProbeView;

    open spec fn view(&self) -> ProbeView {
        match self {
            ProbeOutcome::Responded(code) => ProbeView::Responded(*code),
            ProbeOutcome::Unreachable(msg) => ProbeView::Unreachable(msg@),
        }
    }
}

/// An HTTP status code in the success class (200 to 299).
pub open spec fn success_status(code: u16) -> bool {
    200 <= code < 300
}

/// A probe is healthy when, and only when, the endpoint answered 2xx.
pub open spec fn probe_healthy(o: ProbeView) -> bool {
    match o {
        ProbeView::Responded(code) => success_status(code),
        ProbeView::Unreachable(_) => false,
    }
}

pub open spec fn status_reason_prefix() -> Seq<char> {
    "백엔드 헬스 체크 실패: HTTP "@
}

/// The cause recorded for an unhealthy probe.
pub open spec fn probe_failure_reason(o: ProbeView) -> Seq<char> {
    match o {
        ProbeView::Responded(code) => status_reason_prefix() + decimal_digits(code as nat),
        ProbeView::Unreachable(msg) => msg,
    }
}

/// Whether an HTTP status code is in the success class.
pub fn is_success_status(code: u16) -> (r: bool)
    ensures
        r == success_status(code),
{
    200 <= code && code < 300
}

impl ProbeOutcome {
    /// Whether this outcome counts as a healthy backend.
    pub fn is_healthy(&self) -> (r: bool)
        ensures
            r == probe_healthy(self@),
    {
        match self {
            ProbeOutcome::Responded(code) => is_success_status(*code),
            ProbeOutcome::Unreachable(_) => false,
        }
    }

    /// The human-readable cause recorded when this outcome is unhealthy.
    pub fn failure_reason(&self) -> (r: String)
        ensures
            r@ == probe_failure_reason(self@),
    {
        match self {
            ProbeOutcome::Responded(code) => {
                let mut r = String::from_str("백엔드 헬스 체크 실패: HTTP ");
                let digits = decimal_text(*code as u64);
                r.append(digits.as_str());
                r
            },
            ProbeOutcome::Unreachable(msg) => msg.clone(),
        }
    }
}

} // verus!

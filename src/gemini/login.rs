use vstd::prelude::*;
use vstd::string::StringExecFns;

use crate::gemini::generate::{generation_request, is_single_turn, is_success_status, status_is_success, GenerateContentRequest};

verus! {

broadcast use vstd::string::group_string_axioms;

/// The prompt of the request that probes whether a key is accepted.
pub const PROBE_PROMPT: &'static str = "Hello";

/// How a probe request ended.
#[derive(Debug, Clone, Copy, PartialEq, Eq)]
pub enum ProbeOutcome {
    /// No answer came: name resolution, TLS, timeout or a refused connection.
    Unreachable,
    /// The service answered with this status.
    Answered { status: u16 },
}

/// The request sent to probe a key.
pub fn probe_request() -> (r: GenerateContentRequest)
    ensures
        is_single_turn(r, PROBE_PROMPT@),
{
    generation_request(String::from_str(PROBE_PROMPT))
}

/// Whether a probe shows the key to be usable: only an answer of the 2xx
/// class does; a failure to reach the service counts as unusable.
pub fn probe_verdict(outcome: ProbeOutcome) -> (r: bool)
    ensures
        r == (outcome is Answered && is_success_status(outcome->Answered_status)),
{
    match outcome {
        ProbeOutcome::Unreachable => false,
        ProbeOutcome::Answered { status } => status_is_success(status),
    }
}

} // verus!

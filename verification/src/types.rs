//! Request and response shapes of the bridge's entry points.

use vstd::prelude::*;
use vstd::string::StringExecFns;

verus! {

/// One execution request: a prompt, an optional deadline in milliseconds and
/// an optional caller-chosen session identifier.
pub struct ExecRequest {
    pub prompt: String,
    pub timeout_ms: Option<u64>,
    pub session_id: Option<String>,
}

/// The deadline used when a request names none.
pub const DEFAULT_TIMEOUT_MS: u64 = 30000;

/// The deadline a request asks for, after defaulting.
pub open spec fn spec_effective_timeout(timeout_ms: Option<u64>) -> u64 {
    match timeout_ms {
        Some(t) => t,
        None => DEFAULT_TIMEOUT_MS,
    }
}

impl ExecRequest {
    /// A request is valid when its prompt is non-empty.
    pub open spec fn valid(&self) -> bool {
        self.prompt@.len() > 0
    }

    /// Whether the request is valid.
    pub fn is_valid(&self) -> (r: bool)
        ensures
            r == self.valid(),
    {
        self.prompt.as_str().unicode_len() > 0
    }

    /// The deadline this request asks for, after defaulting.
    pub fn effective_timeout(&self) -> (r: u64)
        ensures
            r == spec_effective_timeout(self.timeout_ms),
    {
        match self.timeout_ms {
            Some(t) => t,
            None => DEFAULT_TIMEOUT_MS,
        }
    }
}

/// The response of the retired entry point, which only redirects callers to
/// the streaming one.
pub struct ErrorResponse {
    pub error: String,
    pub recommended_endpoint: Option<String>,
    pub status: u16,
}

/// Builds the fixed redirect response of the retired entry point.
pub fn legacy_response() -> (r: ErrorResponse)
    ensures
        r.error@ == "Use /api/v1/exec/stream endpoint for real-time execution"@,
        r.recommended_endpoint matches Some(e) && e@ == "/api/v1/exec/stream"@,
        r.status == 422,
{
    ErrorResponse {
        error: String::from_str("Use /api/v1/exec/stream endpoint for real-time execution"),
        recommended_endpoint: Some(String::from_str("/api/v1/exec/stream")),
        status: 422,
    }
}

} // verus!

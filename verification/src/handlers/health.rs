//! The liveness probe.

use vstd::prelude::*;
use vstd::string::StringExecFns;

verus! {

/// The body of the answer to a liveness probe.
#[derive(Debug)]
pub struct HealthResponse {
    pub status: String,
}

/// Answers a liveness probe.
pub fn status() -> (response: HealthResponse)
    ensures
        response.status@ == "pong!"@,
{
    HealthResponse { status: String::from_str("pong!") }
}

} // verus!

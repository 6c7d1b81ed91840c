//! The liveness probe.

use vstd::prelude::*;

verus! {

/// What the liveness probe answers.
#[derive(Debug)]
pub struct HealthCheckResponse {
    is_healthy: bool,
}

impl HealthCheckResponse {
    pub closed spec fn healthy(self) -> bool {
        self.is_healthy
    }

    /// Whether the service reports itself as healthy.
    pub fn is_healthy(&self) -> (r: bool)
        ensures
            r == self.healthy(),
    {
        self.is_healthy
    }
}

/// The answer of a service that runs: healthy.
pub fn health_check() -> (response: HealthCheckResponse)
    ensures
        response.healthy(),
{
    HealthCheckResponse { is_healthy: true }
}

} // verus!

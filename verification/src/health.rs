//! The liveness endpoint's reply: static values plus a call-time stamp.
//! The upstream reachability hint is a hardcoded placeholder, not a live
//! probe.

use vstd::prelude::*;

use crate::upstream::now_rfc3339;

verus! {

/// The liveness reply: the gateway's own status, the time of the call,
/// and the per-service hints.
pub struct HealthStatus {
    pub status: String,
    pub timestamp: String,
    pub gateway: String,
    pub python_agents: String,
}

/// Answers a liveness query: always healthy, with the gateway up and the
/// upstream marked pending (a placeholder, not a probe).
pub fn health_check() -> (r: HealthStatus)
    ensures
        r.status@ == "healthy"@,
        r.gateway@ == "up"@,
        r.python_agents@ == "pending"@,
        r.timestamp@.len() > 0,
{
    HealthStatus {
        status: "healthy".to_owned(),
        timestamp: now_rfc3339(),
        gateway: "up".to_owned(),
        python_agents: "pending".to_owned(),
    }
}

} // verus!

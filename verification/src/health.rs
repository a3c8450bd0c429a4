//! GET /health.

use vstd::prelude::*;
use vstd::string::*;

verus! {

/// What the health check answers.
pub struct HealthStatus {
    pub status: String,
    pub service: String,
    pub version: String,
}

/// The health check: the service is up; `version` is the package version
/// the server was built as.
pub fn health_check(version: &str) -> (h: HealthStatus)
    ensures
        h.status@ == "ok"@,
        h.service@ == "preset-gg-api"@,
        h.version@ == version@,
{
    HealthStatus {
        status: String::from_str("ok"),
        service: String::from_str("preset-gg-api"),
        version: String::from_str(version),
    }
}

} // verus!

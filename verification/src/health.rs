use vstd::prelude::*;
use crate::text::str_eq;

verus! {

/// Status of one service that the detailed health check probes.
#[derive(Debug)]
pub struct ServiceStatus {
    pub status: &'static str,
    pub error: Option<String>,
}

impl ServiceStatus {
    /// A service that answered.
    pub fn ok() -> (s: Self)
        ensures
            s.status@ == "ok"@,
            s.error is None,
    {
        proof { reveal_strlit("ok"); }
        ServiceStatus { status: "ok", error: None }
    }

    /// A service that failed, with the failure's message.
    pub fn err(msg: String) -> (s: Self)
        ensures
            s.status@ == "error"@,
            s.error == Some(msg),
    {
        ServiceStatus { status: "error", error: Some(msg) }
    }
}

/// The status of a probe: "ok" where it succeeded, else "error" with the
/// failure's message.
pub fn service_status(outcome: Result<(), String>) -> (s: ServiceStatus)
    ensures
        match outcome {
            Ok(()) => s.status@ == "ok"@ && s.error is None,
            Err(m) => s.status@ == "error"@ && s.error == Some(m),
        },
{
    match outcome {
        Ok(()) => ServiceStatus::ok(),
        Err(m) => ServiceStatus::err(m),
    }
}

/// The detailed health report: the overall status and each service's.
#[derive(Debug)]
pub struct HealthResponse {
    pub status: &'static str,
    pub database: ServiceStatus,
    pub threads_api: ServiceStatus,
    pub mercury_api: ServiceStatus,
}

/// Whether a service reported "ok".
pub open spec fn is_ok(s: ServiceStatus) -> bool {
    s.status@ == "ok"@
}

/// The report over the three probes: "ok" when all three answered "ok",
/// else "degraded".
pub fn health_response(database: ServiceStatus, threads_api: ServiceStatus, mercury_api: ServiceStatus) -> (r: HealthResponse)
    ensures
        r.database == database,
        r.threads_api == threads_api,
        r.mercury_api == mercury_api,
        r.status@ == (if is_ok(database) && is_ok(threads_api) && is_ok(mercury_api) {
            "ok"@
        } else {
            "degraded"@
        }),
{
    let all_ok = str_eq(database.status, "ok") && str_eq(threads_api.status, "ok") && str_eq(mercury_api.status, "ok");
    let status: &'static str = if all_ok { "ok" } else { "degraded" };
    HealthResponse { status, database, threads_api, mercury_api }
}

} // verus!

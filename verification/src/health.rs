//! Health checks: how the database, the supervisor and the workers are
//! judged, and how the judgements combine.
use vstd::prelude::*;
use crate::decimal::{decimal_chars, push_decimal};

verus! {

/// Health check status.
#[derive(Debug, Clone, Copy, PartialEq, Eq, Structural)]
pub enum HealthStatus {
    Healthy,
    Degraded,
    Unhealthy,
}

impl HealthStatus {
    /// The name the status is reported under.
    pub fn as_str(&self) -> (s: &'static str)
        ensures
            s@ == match self {
                HealthStatus::Healthy => "healthy"@,
                HealthStatus::Degraded => "degraded"@,
                HealthStatus::Unhealthy => "unhealthy"@,
            },
    {
        match self {
            HealthStatus::Healthy => "healthy",
            HealthStatus::Degraded => "degraded",
            HealthStatus::Unhealthy => "unhealthy",
        }
    }

    /// The HTTP status a health report with this status is answered with:
    /// 200 unless unhealthy, 503 then.
    pub fn http_status(&self) -> (code: u16)
        ensures
            code == if *self == HealthStatus::Unhealthy {
                503u16
            } else {
                200u16
            },
    {
        match self {
            HealthStatus::Unhealthy => 503,
            _ => 200,
        }
    }
}

/// Result of an individual check.
#[derive(Debug, Clone)]
pub struct CheckResult {
    pub status: HealthStatus,
    pub message: Option<String>,
}

impl CheckResult {
    pub fn healthy() -> (r: CheckResult)
        ensures
            r.status == HealthStatus::Healthy,
            r.message is None,
    {
        CheckResult { status: HealthStatus::Healthy, message: None }
    }

    /// A failed check whose message is `prefix` followed by `detail`.
    fn failed(status: HealthStatus, prefix: &str, detail: &str) -> (r: CheckResult)
        ensures
            r.status == status,
            r.message matches Some(m) && m@ == prefix@ + detail@,
    {
        let mut m = prefix.to_owned();
        m.append(detail);
        CheckResult { status, message: Some(m) }
    }
}

/// Individual health checks.
#[derive(Debug, Clone)]
pub struct HealthChecks {
    pub database: CheckResult,
    pub supervisor: CheckResult,
    pub workers: CheckResult,
}

/// Liveness probe response: the process is running.
#[derive(Debug, Clone)]
pub struct LivenessResponse {
    pub status: String,
}

/// Readiness probe response.
#[derive(Debug, Clone)]
pub struct ReadinessResponse {
    pub ready: bool,
    pub message: Option<String>,
}

/// The counts of the workers the supervisor reports.
#[derive(Debug, Clone, Copy, PartialEq, Eq, Structural)]
pub struct WorkerCounts {
    pub current_worker_count: usize,
    pub factory_active_workers: usize,
    pub factory_queue_depth: usize,
}

/// How the database answered the health check.
pub enum DatabaseProbe {
    Answered,
    /// The query failed; the text of its error.
    QueryFailed(String),
    /// No connection could be had; the text of the pool's error.
    NoConnection(String),
}

/// The database check: healthy where a query was answered.
pub fn database_check(probe: &DatabaseProbe) -> (r: CheckResult)
    ensures
        match probe {
            DatabaseProbe::Answered => r.status == HealthStatus::Healthy && r.message is None,
            DatabaseProbe::QueryFailed(d) => r.status == HealthStatus::Unhealthy && (r.message matches Some(
                m,
            ) && m@ == "Database query failed: "@ + d@),
            DatabaseProbe::NoConnection(d) => r.status == HealthStatus::Unhealthy && (r.message matches Some(
                m,
            ) && m@ == "Failed to get database connection: "@ + d@),
        },
{
    match probe {
        DatabaseProbe::Answered => CheckResult::healthy(),
        DatabaseProbe::QueryFailed(d) => CheckResult::failed(
            HealthStatus::Unhealthy,
            "Database query failed: ",
            d.as_str(),
        ),
        DatabaseProbe::NoConnection(d) => CheckResult::failed(
            HealthStatus::Unhealthy,
            "Failed to get database connection: ",
            d.as_str(),
        ),
    }
}

/// How the supervisor answered the request for its statistics.
pub enum SupervisorProbe {
    Answered,
    /// The call went through but brought no statistics (timeout, closed port).
    NoAnswer,
    /// The call failed; the text of its error.
    CallFailed(String),
}

/// The supervisor check: healthy where it answered with statistics.
pub fn supervisor_check(probe: &SupervisorProbe) -> (r: CheckResult)
    ensures
        match probe {
            SupervisorProbe::Answered => r.status == HealthStatus::Healthy && r.message is None,
            SupervisorProbe::NoAnswer => r.status == HealthStatus::Unhealthy && (r.message matches Some(
                m,
            ) && m@ == "Supervisor not responding"@),
            SupervisorProbe::CallFailed(d) => r.status == HealthStatus::Unhealthy && (r.message matches Some(
                m,
            ) && m@ == "Failed to contact supervisor: "@ + d@),
        },
{
    match probe {
        SupervisorProbe::Answered => CheckResult::healthy(),
        SupervisorProbe::NoAnswer => CheckResult {
            status: HealthStatus::Unhealthy,
            message: Some("Supervisor not responding".to_owned()),
        },
        SupervisorProbe::CallFailed(d) => CheckResult::failed(
            HealthStatus::Unhealthy,
            "Failed to contact supervisor: ",
            d.as_str(),
        ),
    }
}

/// The workers check, from the supervisor's counts (`None` where it gave
/// none) and, where CPU or memory use is above 90%, the message that says so.
/// No workers is unhealthy; no active worker with more than 10 jobs queued is
/// degraded, and so is high resource use.
pub fn workers_check(counts: Option<WorkerCounts>, high_usage: Option<String>) -> (r: CheckResult)
    ensures
        match counts {
            None => r.status == HealthStatus::Unhealthy && (r.message matches Some(m) && m@
                == "Unable to get worker statistics"@),
            Some(c) => if c.current_worker_count == 0 {
                r.status == HealthStatus::Unhealthy && (r.message matches Some(m) && m@
                    == "No workers available"@)
            } else if c.factory_active_workers == 0 && c.factory_queue_depth > 10 {
                r.status == HealthStatus::Degraded && (r.message matches Some(m) && m@
                    == "No active workers with "@ + decimal_chars(c.factory_queue_depth as nat)
                    + " items in queue"@)
            } else {
                match high_usage {
                    Some(h) => r.status == HealthStatus::Degraded && r.message == Some(h),
                    None => r.status == HealthStatus::Healthy && r.message is None,
                }
            },
        },
{
    match counts {
        None => CheckResult {
            status: HealthStatus::Unhealthy,
            message: Some("Unable to get worker statistics".to_owned()),
        },
        Some(c) => {
            if c.current_worker_count == 0 {
                CheckResult {
                    status: HealthStatus::Unhealthy,
                    message: Some("No workers available".to_owned()),
                }
            } else if c.factory_active_workers == 0 && c.factory_queue_depth > 10 {
                let mut m = "No active workers with ".to_owned();
                push_decimal(&mut m, c.factory_queue_depth as u64);
                m.append(" items in queue");
                CheckResult { status: HealthStatus::Degraded, message: Some(m) }
            } else {
                match high_usage {
                    Some(h) => CheckResult { status: HealthStatus::Degraded, message: Some(h) },
                    None => CheckResult::healthy(),
                }
            }
        },
    }
}

pub open spec fn spec_overall(a: HealthStatus, b: HealthStatus, c: HealthStatus) -> HealthStatus {
    if a == HealthStatus::Unhealthy || b == HealthStatus::Unhealthy || c == HealthStatus::Unhealthy {
        HealthStatus::Unhealthy
    } else if a == HealthStatus::Degraded || b == HealthStatus::Degraded || c
        == HealthStatus::Degraded {
        HealthStatus::Degraded
    } else {
        HealthStatus::Healthy
    }
}

/// The overall status: unhealthy where any check is, else degraded where any
/// check is, else healthy.
pub fn overall_status(checks: &HealthChecks) -> (s: HealthStatus)
    ensures
        s == spec_overall(checks.database.status, checks.supervisor.status, checks.workers.status),
{
    let a = checks.database.status;
    let b = checks.supervisor.status;
    let c = checks.workers.status;
    if a == HealthStatus::Unhealthy || b == HealthStatus::Unhealthy || c == HealthStatus::Unhealthy {
        HealthStatus::Unhealthy
    } else if a == HealthStatus::Degraded || b == HealthStatus::Degraded || c
        == HealthStatus::Degraded {
        HealthStatus::Degraded
    } else {
        HealthStatus::Healthy
    }
}

pub open spec fn severity(s: HealthStatus) -> int {
    match s {
        HealthStatus::Healthy => 0,
        HealthStatus::Degraded => 1,
        HealthStatus::Unhealthy => 2,
    }
}

/// The overall status is the worst of the three checks: it is as severe as
/// each of them, and equal to one of them; so the order of the checks does
/// not matter.
pub proof fn lemma_overall_is_worst(a: HealthStatus, b: HealthStatus, c: HealthStatus)
    ensures
        severity(spec_overall(a, b, c)) >= severity(a),
        severity(spec_overall(a, b, c)) >= severity(b),
        severity(spec_overall(a, b, c)) >= severity(c),
        spec_overall(a, b, c) == a || spec_overall(a, b, c) == b || spec_overall(a, b, c) == c,
        spec_overall(a, b, c) == spec_overall(b, a, c),
        spec_overall(a, b, c) == spec_overall(a, c, b),
{
}

/// The liveness answer: "alive".
pub fn liveness_response() -> (r: LivenessResponse)
    ensures
        r.status@ == "alive"@,
{
    LivenessResponse { status: "alive".to_owned() }
}

fn ok_or_failed(b: bool) -> (s: &'static str)
    ensures
        s@ == if b {
            "OK"@
        } else {
            "Failed"@
        },
{
    if b {
        "OK"
    } else {
        "Failed"
    }
}

/// The readiness answer: ready where the database pool gave a connection and
/// the supervisor answered; otherwise a message naming which did not.
pub fn readiness_response(db_ready: bool, supervisor_ready: bool) -> (r: ReadinessResponse)
    ensures
        r.ready == (db_ready && supervisor_ready),
        r.ready ==> r.message is None,
        !r.ready ==> (r.message matches Some(m) && m@ == "Not ready - DB: "@ + (if db_ready {
            "OK"@
        } else {
            "Failed"@
        }) + ", Supervisor: "@ + (if supervisor_ready {
            "OK"@
        } else {
            "Failed"@
        })),
{
    let ready = db_ready && supervisor_ready;
    if ready {
        ReadinessResponse { ready, message: None }
    } else {
        let mut m = "Not ready - DB: ".to_owned();
        m.append(ok_or_failed(db_ready));
        m.append(", Supervisor: ");
        m.append(ok_or_failed(supervisor_ready));
        ReadinessResponse { ready, message: Some(m) }
    }
}

/// The HTTP status of a readiness answer: 200 when ready, 503 otherwise.
pub fn readiness_http_status(r: &ReadinessResponse) -> (code: u16)
    ensures
        code == if r.ready {
            200u16
        } else {
            503u16
        },
{
    if r.ready {
        200
    } else {
        503
    }
}

} // verus!

use github_stars_server::auth::{authorize, AuthDecision};
use github_stars_server::health::{
    database_check, liveness_response, overall_status, readiness_http_status, readiness_response,
    supervisor_check, workers_check, CheckResult, DatabaseProbe, HealthChecks, HealthStatus,
    SupervisorProbe, WorkerCounts,
};

fn counts(current: usize, active: usize, depth: usize) -> WorkerCounts {
    WorkerCounts { current_worker_count: current, factory_active_workers: active, factory_queue_depth: depth }
}

#[test]
fn the_workers_check() {
    let r = workers_check(None, None);
    assert_eq!(r.status, HealthStatus::Unhealthy);
    assert_eq!(r.message.as_deref(), Some("Unable to get worker statistics"));
    let r = workers_check(Some(counts(0, 0, 0)), None);
    assert_eq!(r.status, HealthStatus::Unhealthy);
    assert_eq!(r.message.as_deref(), Some("No workers available"));
    let r = workers_check(Some(counts(4, 0, 11)), Some("busy".to_string()));
    assert_eq!(r.status, HealthStatus::Degraded);
    assert_eq!(r.message.as_deref(), Some("No active workers with 11 items in queue"));
    let r = workers_check(Some(counts(4, 0, 10)), None);
    assert_eq!(r.status, HealthStatus::Healthy);
    assert!(r.message.is_none());
    let r = workers_check(Some(counts(4, 1, 50)), Some("High resource usage".to_string()));
    assert_eq!(r.status, HealthStatus::Degraded);
    assert_eq!(r.message.as_deref(), Some("High resource usage"));
}

#[test]
fn the_database_and_supervisor_checks() {
    assert_eq!(database_check(&DatabaseProbe::Answered).status, HealthStatus::Healthy);
    let r = database_check(&DatabaseProbe::QueryFailed("boom".to_string()));
    assert_eq!(r.status, HealthStatus::Unhealthy);
    assert_eq!(r.message.as_deref(), Some("Database query failed: boom"));
    let r = database_check(&DatabaseProbe::NoConnection("closed".to_string()));
    assert_eq!(r.message.as_deref(), Some("Failed to get database connection: closed"));
    assert_eq!(supervisor_check(&SupervisorProbe::Answered).status, HealthStatus::Healthy);
    let r = supervisor_check(&SupervisorProbe::NoAnswer);
    assert_eq!(r.message.as_deref(), Some("Supervisor not responding"));
    let r = supervisor_check(&SupervisorProbe::CallFailed("gone".to_string()));
    assert_eq!(r.message.as_deref(), Some("Failed to contact supervisor: gone"));
}

fn check(status: HealthStatus) -> CheckResult {
    CheckResult { status, message: None }
}

#[test]
fn the_overall_status_is_the_worst_check() {
    let (healthy, degraded, unhealthy) = (HealthStatus::Healthy, HealthStatus::Degraded, HealthStatus::Unhealthy);
    let all = [healthy, degraded, unhealthy];
    for a in all {
        for b in all {
            for c in all {
                let s = overall_status(&HealthChecks { database: check(a), supervisor: check(b), workers: check(c) });
                let expected = if [a, b, c].contains(&unhealthy) {
                    unhealthy
                } else if [a, b, c].contains(&degraded) {
                    degraded
                } else {
                    healthy
                };
                assert_eq!(s, expected);
            }
        }
    }
    assert_eq!(unhealthy.http_status(), 503);
    assert_eq!(degraded.http_status(), 200);
    assert_eq!(healthy.as_str(), "healthy");
}

#[test]
fn liveness_and_readiness() {
    assert_eq!(liveness_response().status, "alive");
    let r = readiness_response(true, true);
    assert!(r.ready);
    assert!(r.message.is_none());
    assert_eq!(readiness_http_status(&r), 200);
    let r = readiness_response(false, true);
    assert_eq!(r.message.as_deref(), Some("Not ready - DB: Failed, Supervisor: OK"));
    assert_eq!(readiness_http_status(&r), 503);
    let r = readiness_response(true, false);
    assert_eq!(r.message.as_deref(), Some("Not ready - DB: OK, Supervisor: Failed"));
}

#[test]
fn api_key_authentication() {
    assert_eq!(authorize(Some("Bearer k3y"), "k3y"), AuthDecision::Allow);
    assert_eq!(authorize(Some("k3y"), "k3y"), AuthDecision::Allow);
    assert_eq!(authorize(Some("Bearer other"), "k3y"), AuthDecision::InvalidApiKey);
    assert_eq!(authorize(Some("Basic k3y"), "k3y"), AuthDecision::MissingOrInvalidHeader);
    assert_eq!(authorize(None, "k3y"), AuthDecision::MissingOrInvalidHeader);
    // a key that itself starts with "Bearer " is only accepted after "Bearer "
    assert_eq!(authorize(Some("Bearer x"), "Bearer x"), AuthDecision::InvalidApiKey);
    assert_eq!(authorize(Some("Bearer Bearer x"), "Bearer x"), AuthDecision::Allow);
    assert_eq!(AuthDecision::InvalidApiKey.error_message(), Some("Invalid API key"));
    assert_eq!(
        AuthDecision::MissingOrInvalidHeader.error_message(),
        Some("Missing or invalid Authorization header")
    );
    assert_eq!(AuthDecision::Allow.error_message(), None);
}

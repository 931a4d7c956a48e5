use github_stars_server::actors::github_worker::{GitHubWorker, WorkerJobState};
use github_stars_server::actors::repo_run::{RepoRun, RepoRunAction, RepoRunEvent};
use github_stars_server::error::GitHubStarsError;
use github_stars_server::models::RateLimitState;

fn rl(remaining: u32) -> RateLimitState {
    RateLimitState { remaining, limit: 5000, reset_time_ms: 77_000, is_limited: remaining == 0 }
}

fn step(run: RepoRun, e: RepoRunEvent) -> (RepoRun, RepoRunAction) {
    assert!(run.can_take(&e));
    run.step(e)
}

fn claimed_run() -> RepoRun {
    let (run, a) = RepoRun::start(rl(4000));
    assert!(matches!(a, RepoRunAction::Connect));
    let (run, a) = step(run, RepoRunEvent::Connected);
    assert!(matches!(a, RepoRunAction::Claim));
    let (run, a) = step(run, RepoRunEvent::Claimed(true));
    assert!(matches!(a, RepoRunAction::CreateClient));
    let (run, a) = step(run, RepoRunEvent::ClientReady);
    assert!(matches!(a, RepoRunAction::FetchPage { page: 1, pause_ms: 0 }));
    run
}

#[test]
fn a_run_over_two_pages_records_their_sum() {
    let run = claimed_run();
    let (run, a) = step(run, RepoRunEvent::PageFetched { count: 100, has_more: true, rate_limit: rl(50) });
    assert!(matches!(a, RepoRunAction::StoreBatch));
    let (run, a) = step(run, RepoRunEvent::BatchStored);
    assert!(matches!(a, RepoRunAction::RecordProgress { page: 1, count: 100 }));
    let (run, a) = step(run, RepoRunEvent::ProgressRecorded);
    // few requests left: pause before the next page
    assert!(matches!(a, RepoRunAction::FetchPage { page: 2, pause_ms: 500 }));
    let (run, a) = step(run, RepoRunEvent::PageFetched { count: 5, has_more: false, rate_limit: rl(4000) });
    assert!(matches!(a, RepoRunAction::StoreBatch));
    let (run, a) = step(run, RepoRunEvent::BatchStored);
    assert!(matches!(a, RepoRunAction::RecordProgress { page: 2, count: 5 }));
    let (run, a) = step(run, RepoRunEvent::ProgressRecorded);
    assert!(matches!(a, RepoRunAction::RecordComplete { total: 105 }));
    assert_eq!(run.total_stargazers(), 105);
    assert_eq!(run.rate_limit(), rl(4000));
    let (run, a) = step(run, RepoRunEvent::CompletionRecorded);
    assert!(matches!(a, RepoRunAction::Finish(Ok(()))));
    assert!(!run.can_take(&RepoRunEvent::Connected));
}

#[test]
fn an_empty_page_is_not_stored() {
    let run = claimed_run();
    let (run, a) = step(run, RepoRunEvent::PageFetched { count: 0, has_more: false, rate_limit: rl(4000) });
    assert!(matches!(a, RepoRunAction::RecordComplete { total: 0 }));
    let (_, a) = step(run, RepoRunEvent::CompletionFailed("db down".to_string()));
    match a {
        RepoRunAction::Finish(Err(e)) => {
            assert_eq!(e.message(), "GitHub API error: Failed to mark repo complete: db down")
        }
        _ => panic!("expected failure"),
    }
}

#[test]
fn a_repository_claimed_elsewhere_is_skipped() {
    let (run, _) = RepoRun::start(rl(4000));
    let (run, _) = step(run, RepoRunEvent::Connected);
    let (_, a) = step(run, RepoRunEvent::Claimed(false));
    assert!(matches!(a, RepoRunAction::Finish(Ok(()))));
}

#[test]
fn exceeding_the_rate_limit_marks_the_repository() {
    let run = claimed_run();
    let (run, a) = step(run, RepoRunEvent::PageFailed(GitHubStarsError::RateLimitExceeded("soon".to_string())));
    assert!(matches!(a, RepoRunAction::RecordRateLimited { retry_at_ms: 77_000 }));
    let (_, a) = step(run, RepoRunEvent::RateLimitRecorded);
    match a {
        RepoRunAction::Finish(Err(GitHubStarsError::RateLimitExceeded(m))) => assert_eq!(m, "soon"),
        _ => panic!("expected rate limit error"),
    }
}

#[test]
fn another_fetch_error_marks_the_repository_failed() {
    let run = claimed_run();
    let (run, a) = step(run, RepoRunEvent::PageFailed(GitHubStarsError::NotFound("gone".to_string())));
    match a {
        RepoRunAction::RecordFailure { message } => assert_eq!(message, "Resource not found: gone"),
        _ => panic!("expected failure record"),
    }
    let (_, a) = step(run, RepoRunEvent::FailureRecorded);
    assert!(matches!(a, RepoRunAction::Finish(Err(GitHubStarsError::NotFound(_)))));
}

#[test]
fn failures_of_the_database_end_the_run() {
    let (run, _) = RepoRun::start(rl(1));
    let (_, a) = step(run, RepoRunEvent::ConnectionFailed("pool closed".to_string()));
    match a {
        RepoRunAction::Finish(Err(e)) => assert_eq!(e.message(), "GitHub API error: Failed to get DB connection: pool closed"),
        _ => panic!(),
    }
    let (run, _) = RepoRun::start(rl(1));
    let (run, _) = step(run, RepoRunEvent::Connected);
    let (_, a) = step(run, RepoRunEvent::ClaimFailed("locked".to_string()));
    match a {
        RepoRunAction::Finish(Err(e)) => assert_eq!(e.message(), "GitHub API error: Failed to claim repo: locked"),
        _ => panic!(),
    }
    let run = claimed_run();
    let (run, _) = step(run, RepoRunEvent::PageFetched { count: 3, has_more: false, rate_limit: rl(9) });
    let (_, a) = step(run, RepoRunEvent::StoreFailed("bad".to_string()));
    match a {
        RepoRunAction::Finish(Err(e)) => assert_eq!(e.message(), "GitHub API error: Failed to insert stargazers: bad"),
        _ => panic!(),
    }
    let run = claimed_run();
    let (run, _) = step(run, RepoRunEvent::PageFailed(GitHubStarsError::ApiError("x".to_string())));
    let (_, a) = step(run, RepoRunEvent::FailureRecordFailed("y".to_string()));
    match a {
        RepoRunAction::Finish(Err(e)) => assert_eq!(e.message(), "GitHub API error: Failed to mark repo as failed: y"),
        _ => panic!(),
    }
}

#[test]
fn events_out_of_turn_are_refused() {
    let (run, _) = RepoRun::start(rl(1));
    assert!(!run.can_take(&RepoRunEvent::BatchStored));
    assert!(run.can_take(&RepoRunEvent::Connected));
}

#[test]
fn a_worker_waits_out_its_rate_limit_before_a_job() {
    let _worker = GitHubWorker::new();
    let mut w = WorkerJobState::new(1_000);
    assert_eq!(w.jobs_processed, 0);
    assert_eq!(w.wait_before_job(2_000), None);
    w.rate_limit_state = RateLimitState { remaining: 0, limit: 5000, reset_time_ms: 10_000, is_limited: true };
    assert_eq!(w.wait_before_job(4_000), Some(6_000));
    assert!(!w.rate_limit_state.is_limited);
    w.rate_limit_state.is_limited = true;
    // the reset has passed: no wait, and the flag stays
    assert_eq!(w.wait_before_job(20_000), None);
    assert!(w.rate_limit_state.is_limited);
    w.finish_job(rl(12));
    assert_eq!(w.jobs_processed, 1);
    assert_eq!(w.rate_limit_state, rl(12));
}

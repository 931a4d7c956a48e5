//! The worker that processes GitHub repositories: its jobs, and the state it
//! keeps between them.
use vstd::prelude::*;
use crate::clock::in_clock_range;
use crate::models::{RateLimitState, RecordRef};

verus! {

/// Identifies one unit of work: a repository processed for a user.
#[derive(Debug, Clone, PartialEq, Eq, Hash)]
pub struct GitHubJobKey {
    pub user_id: RecordRef,
    pub repo_id: RecordRef,
}

/// The work to do.
#[derive(Debug, Clone)]
pub enum GitHubJobPayload {
    ProcessRepo { repo_full_name: String, access_token: String },
}

/// Worker that processes GitHub repository stargazers.
#[derive(Debug)]
pub struct GitHubWorker;

impl GitHubWorker {
    pub fn new() -> (w: Self)
        ensures
            w == GitHubWorker,
    {
        GitHubWorker
    }
}

/// What a worker keeps from one job to the next.
#[derive(Debug, Clone, Copy)]
pub struct WorkerJobState {
    pub jobs_processed: u64,
    pub rate_limit_state: RateLimitState,
}

impl WorkerJobState {
    /// A worker that has processed no job, with the default rate limit state
    /// for the clock reading `now_ms`.
    pub fn new(now_ms: i64) -> (s: WorkerJobState)
        requires
            in_clock_range(now_ms),
        ensures
            s.jobs_processed == 0,
            s.rate_limit_state == RateLimitState::default_at_spec(now_ms),
    {
        WorkerJobState { jobs_processed: 0, rate_limit_state: RateLimitState::default_at(now_ms) }
    }

    /// Before a job, when the clock reads `now_ms`: where the worker is rate
    /// limited and the reset lies ahead, it waits until the reset (the wait in
    /// milliseconds is returned) and is no longer limited. Otherwise nothing
    /// changes, a limit whose reset has passed included.
    pub fn wait_before_job(&mut self, now_ms: i64) -> (wait_ms: Option<u64>)
        requires
            in_clock_range(now_ms),
            in_clock_range(old(self).rate_limit_state.reset_time_ms),
        ensures
            final(self).jobs_processed == old(self).jobs_processed,
            if old(self).rate_limit_state.is_limited && now_ms < old(
                self,
            ).rate_limit_state.reset_time_ms {
                &&& wait_ms == Some((old(self).rate_limit_state.reset_time_ms - now_ms) as u64)
                &&& final(self).rate_limit_state == (RateLimitState {
                    is_limited: false,
                    ..old(self).rate_limit_state
                })
            } else {
                wait_ms is None && final(self).rate_limit_state == old(self).rate_limit_state
            },
    {
        if self.rate_limit_state.is_limited && now_ms < self.rate_limit_state.reset_time_ms {
            let wait = (self.rate_limit_state.reset_time_ms - now_ms) as u64;
            self.rate_limit_state.is_limited = false;
            Some(wait)
        } else {
            None
        }
    }

    /// After a job, whatever its result: one more job processed, and the rate
    /// limit state the job's run ended with.
    pub fn finish_job(&mut self, rate_limit: RateLimitState)
        requires
            old(self).jobs_processed < u64::MAX,
        ensures
            final(self).jobs_processed == old(self).jobs_processed + 1,
            final(self).rate_limit_state == rate_limit,
    {
        self.jobs_processed = self.jobs_processed + 1;
        self.rate_limit_state = rate_limit;
    }
}

} // verus!

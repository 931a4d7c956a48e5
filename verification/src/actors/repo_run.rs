//! Processing one repository: claim it, fetch its stargazers page by page,
//! store each page, and record how the run ended. The decisions stand here as
//! a state machine; the worker performs each action and reports its outcome.
use vstd::prelude::*;
use crate::error::GitHubStarsError;
use crate::models::RateLimitState;

verus! {

/// Below this many remaining requests, the next page is fetched after a pause.
pub const LOW_REMAINING_FOR_PAGES: u32 = 100;

/// The pause before the next page when few requests remain, in milliseconds.
pub const PAGE_PAUSE_MS: u64 = 500;

pub open spec fn seq_sum(s: Seq<nat>) -> nat
    decreases s.len(),
{
    if s.len() == 0 {
        0
    } else {
        seq_sum(s.drop_last()) + s.last()
    }
}

proof fn lemma_seq_sum_push(s: Seq<nat>, x: nat)
    ensures
        seq_sum(s.push(x)) == seq_sum(s) + x,
{
    assert(s.push(x).drop_last() =~= s);
}

/// Where a run stands: which outcome it waits for.
#[derive(Debug)]
pub enum RepoRunPhase {
    Connecting,
    Claiming,
    CreatingClient,
    Fetching,
    Storing,
    RecordingProgress,
    /// The rate limit was exceeded with this message; recording it.
    RecordingRateLimit(String),
    /// Fetching failed with this error; recording the failure.
    RecordingFailure(GitHubStarsError),
    Completing,
    Finished,
}

/// The outcome of an action, as the worker reports it.
#[derive(Debug)]
pub enum RepoRunEvent {
    Connected,
    /// The pool gave no connection; the text of its error.
    ConnectionFailed(String),
    /// The claim query answered: `true` where the repository is now ours.
    Claimed(bool),
    ClaimFailed(String),
    ClientReady,
    ClientFailed(GitHubStarsError),
    /// A page came back with `count` users.
    PageFetched { count: usize, has_more: bool, rate_limit: RateLimitState },
    PageFailed(GitHubStarsError),
    BatchStored,
    StoreFailed(String),
    ProgressRecorded,
    ProgressFailed(String),
    RateLimitRecorded,
    RateLimitRecordFailed(String),
    FailureRecorded,
    FailureRecordFailed(String),
    CompletionRecorded,
    CompletionFailed(String),
}

/// What the worker is to do next.
#[derive(Debug)]
pub enum RepoRunAction {
    /// Take a database connection from the pool.
    Connect,
    /// Claim the repository for this user.
    Claim,
    /// Create the GitHub client with the job's access token.
    CreateClient,
    /// Pause `pause_ms` milliseconds, then fetch stargazers page `page`.
    FetchPage { page: u32, pause_ms: u64 },
    /// Store the users of the page just fetched.
    StoreBatch,
    /// Record that page `page` was processed with `count` users.
    RecordProgress { page: u32, count: usize },
    /// Mark the repository rate limited until `retry_at_ms`.
    RecordRateLimited { retry_at_ms: i64 },
    /// Mark the repository failed with this message.
    RecordFailure { message: String },
    /// Mark the repository complete with `total` stargazers.
    RecordComplete { total: u32 },
    /// The run is over, with this result.
    Finish(Result<(), GitHubStarsError>),
}

/// The state of one repository run.
pub struct RepoRun {
    phase: RepoRunPhase,
    /// The page being fetched, or last fetched.
    page: u32,
    /// Stargazers fetched so far.
    total_stargazers: u64,
    /// The rate limit state the last response reported.
    rate_limit: RateLimitState,
    /// Users on the page last fetched, and whether more pages follow it.
    last_count: usize,
    last_has_more: bool,
    /// The number of users on each page fetched so far, in order.
    pages: Ghost<Seq<nat>>,
}

pub open spec fn api_error_with(e: GitHubStarsError, context: Seq<char>, detail: Seq<char>) -> bool {
    e matches GitHubStarsError::ApiError(m) && m@ == context + ": "@ + detail
}

pub open spec fn finishes_with_api_error(a: RepoRunAction, context: Seq<char>, detail: Seq<char>) -> bool {
    a matches RepoRunAction::Finish(Err(e)) && api_error_with(e, context, detail)
}

impl RepoRun {
    /// The run's invariant: the total is the sum of the page sizes, and the
    /// pages fetched are numbered consecutively from 1.
    #[verifier::type_invariant]
    pub closed spec fn wf(&self) -> bool {
        &&& self.total_stargazers == seq_sum(self.pages@)
        &&& match self.phase {
            RepoRunPhase::Connecting | RepoRunPhase::Claiming | RepoRunPhase::CreatingClient => {
                self.pages@.len() == 0 && self.page == 1
            },
            RepoRunPhase::Fetching | RepoRunPhase::RecordingRateLimit(_)
            | RepoRunPhase::RecordingFailure(_) => self.pages@.len() + 1 == self.page,
            RepoRunPhase::Storing | RepoRunPhase::RecordingProgress => {
                &&& self.pages@.len() == self.page
                &&& self.pages@.len() > 0
                &&& self.pages@.last() == self.last_count
                &&& self.last_count > 0
            },
            RepoRunPhase::Completing => self.pages@.len() == self.page && self.page >= 1,
            RepoRunPhase::Finished => true,
        }
    }

    /// The phase the run is in.
    pub closed spec fn spec_phase(&self) -> RepoRunPhase {
        self.phase
    }

    /// The page being fetched, or last fetched.
    pub closed spec fn spec_page(&self) -> u32 {
        self.page
    }

    /// Stargazers fetched so far.
    pub closed spec fn spec_total_stargazers(&self) -> u64 {
        self.total_stargazers
    }

    /// The rate limit state the last response reported.
    pub closed spec fn spec_rate_limit(&self) -> RateLimitState {
        self.rate_limit
    }

    /// Users on the page last fetched.
    pub closed spec fn spec_last_count(&self) -> usize {
        self.last_count
    }

    /// Whether more pages follow the page last fetched.
    pub closed spec fn spec_last_has_more(&self) -> bool {
        self.last_has_more
    }

    /// The number of users on each page fetched so far, in order.
    pub closed spec fn spec_pages(&self) -> Seq<nat> {
        self.pages@
    }

    /// The events the run waits for in its present phase, and that it can
    /// take without overflowing its counters.
    pub closed spec fn accepts(&self, e: RepoRunEvent) -> bool {
        match self.phase {
            RepoRunPhase::Connecting => e is Connected || e is ConnectionFailed,
            RepoRunPhase::Claiming => e is Claimed || e is ClaimFailed,
            RepoRunPhase::CreatingClient => e is ClientReady || e is ClientFailed,
            RepoRunPhase::Fetching => match e {
                RepoRunEvent::PageFetched { count, has_more, rate_limit } => {
                    &&& self.total_stargazers + count <= u64::MAX
                    &&& (has_more && count == 0 ==> self.page < u32::MAX)
                },
                RepoRunEvent::PageFailed(_) => true,
                _ => false,
            },
            RepoRunPhase::Storing => e is BatchStored || e is StoreFailed,
            RepoRunPhase::RecordingProgress => {
                &&& (e is ProgressRecorded || e is ProgressFailed)
                &&& (e is ProgressRecorded && self.last_has_more ==> self.page < u32::MAX)
            },
            RepoRunPhase::RecordingRateLimit(_) => e is RateLimitRecorded || e is RateLimitRecordFailed,
            RepoRunPhase::RecordingFailure(_) => e is FailureRecorded || e is FailureRecordFailed,
            RepoRunPhase::Completing => e is CompletionRecorded || e is CompletionFailed,
            RepoRunPhase::Finished => false,
        }
    }

    /// Starts a run with the worker's rate limit state: first, connect.
    pub fn start(rate_limit: RateLimitState) -> (r: (RepoRun, RepoRunAction))
        ensures
            r.0.wf(),
            r.0.spec_phase() is Connecting,
            r.0.spec_page() == 1,
            r.0.spec_total_stargazers() == 0,
            r.0.spec_rate_limit() == rate_limit,
            r.0.spec_pages() == Seq::<nat>::empty(),
            r.1 is Connect,
    {
        (
            RepoRun {
                phase: RepoRunPhase::Connecting,
                page: 1,
                total_stargazers: 0,
                rate_limit,
                last_count: 0,
                last_has_more: false,
                pages: Ghost(Seq::empty()),
            },
            RepoRunAction::Connect,
        )
    }

    /// Whether `e` is an event the run takes now (the exec form of `accepts`).
    pub fn can_take(&self, e: &RepoRunEvent) -> (b: bool)
        ensures
            b == self.accepts(*e),
    {
        match self.phase {
            RepoRunPhase::Connecting => matches!(e, RepoRunEvent::Connected | RepoRunEvent::ConnectionFailed(_)),
            RepoRunPhase::Claiming => matches!(e, RepoRunEvent::Claimed(_) | RepoRunEvent::ClaimFailed(_)),
            RepoRunPhase::CreatingClient => matches!(e, RepoRunEvent::ClientReady | RepoRunEvent::ClientFailed(_)),
            RepoRunPhase::Fetching => match e {
                RepoRunEvent::PageFetched { count, has_more, rate_limit: _ } => {
                    *count as u64 <= u64::MAX - self.total_stargazers && (!*has_more || *count != 0
                        || self.page < u32::MAX)
                },
                RepoRunEvent::PageFailed(_) => true,
                _ => false,
            },
            RepoRunPhase::Storing => matches!(e, RepoRunEvent::BatchStored | RepoRunEvent::StoreFailed(_)),
            RepoRunPhase::RecordingProgress => match e {
                RepoRunEvent::ProgressRecorded => !self.last_has_more || self.page < u32::MAX,
                RepoRunEvent::ProgressFailed(_) => true,
                _ => false,
            },
            RepoRunPhase::RecordingRateLimit(_) => matches!(e, RepoRunEvent::RateLimitRecorded | RepoRunEvent::RateLimitRecordFailed(_)),
            RepoRunPhase::RecordingFailure(_) => matches!(e, RepoRunEvent::FailureRecorded | RepoRunEvent::FailureRecordFailed(_)),
            RepoRunPhase::Completing => matches!(e, RepoRunEvent::CompletionRecorded | RepoRunEvent::CompletionFailed(_)),
            RepoRunPhase::Finished => false,
        }
    }

    /// The page being fetched, or last fetched.
    pub fn page(&self) -> (p: u32)
        ensures
            p == self.spec_page(),
    {
        self.page
    }

    /// Stargazers fetched so far.
    pub fn total_stargazers(&self) -> (n: u64)
        ensures
            n == self.spec_total_stargazers(),
    {
        self.total_stargazers
    }

    /// The rate limit state the last response reported.
    pub fn rate_limit(&self) -> (s: RateLimitState)
        ensures
            s == self.spec_rate_limit(),
    {
        self.rate_limit
    }

    /// After a page's users are counted (and stored where there were any):
    /// fetch the next page, or record completion after the last one.
    fn after_page(self) -> (r: (RepoRun, RepoRunAction))
        requires
            self.pages@.len() == self.page,
            self.page >= 1,
            self.total_stargazers == seq_sum(self.pages@),
            self.last_has_more ==> self.page < u32::MAX,
        ensures
            r.0.wf(),
            r.0.total_stargazers == self.total_stargazers,
            r.0.pages@ == self.pages@,
            r.0.rate_limit == self.rate_limit,
            r.0.last_count == self.last_count,
            r.0.last_has_more == self.last_has_more,
            self.last_has_more ==> {
                &&& r.0.phase is Fetching
                &&& r.0.page == self.page + 1
                &&& r.1 == (RepoRunAction::FetchPage {
                    page: (self.page + 1) as u32,
                    pause_ms: if self.rate_limit.remaining < LOW_REMAINING_FOR_PAGES {
                        PAGE_PAUSE_MS
                    } else {
                        0
                    },
                })
            },
            !self.last_has_more ==> {
                &&& r.0.phase is Completing
                &&& r.0.page == self.page
                &&& r.1 == (RepoRunAction::RecordComplete { total: self.total_stargazers as u32 })
            },
    {
        if self.last_has_more {
            let page = self.page + 1;
            let pause_ms = if self.rate_limit.remaining < LOW_REMAINING_FOR_PAGES {
                PAGE_PAUSE_MS
            } else {
                0
            };
            (
                RepoRun { phase: RepoRunPhase::Fetching, page, ..self },
                RepoRunAction::FetchPage { page, pause_ms },
            )
        } else {
            let total = self.total_stargazers as u32;
            (RepoRun { phase: RepoRunPhase::Completing, ..self }, RepoRunAction::RecordComplete { total })
        }
    }

    /// Takes the outcome of the last action and decides the next one.
    pub fn step(self, event: RepoRunEvent) -> (r: (RepoRun, RepoRunAction))
        requires
            self.accepts(event),
        ensures
            self.wf(),
            r.0.wf(),
            Self::step_post(self, event, r.0, r.1),
    {
        proof {
            use_type_invariant(&self);
        }
        match (self.phase, event) {
            (RepoRunPhase::Connecting, RepoRunEvent::Connected) => {
                (RepoRun { phase: RepoRunPhase::Claiming, ..self }, RepoRunAction::Claim)
            },
            (RepoRunPhase::Connecting, RepoRunEvent::ConnectionFailed(d)) => {
                let e = GitHubStarsError::api_with_detail("Failed to get DB connection", d.as_str());
                (RepoRun { phase: RepoRunPhase::Finished, ..self }, RepoRunAction::Finish(Err(e)))
            },
            (RepoRunPhase::Claiming, RepoRunEvent::Claimed(claimed)) => {
                if claimed {
                    (RepoRun { phase: RepoRunPhase::CreatingClient, ..self }, RepoRunAction::CreateClient)
                } else {
                    (RepoRun { phase: RepoRunPhase::Finished, ..self }, RepoRunAction::Finish(Ok(())))
                }
            },
            (RepoRunPhase::Claiming, RepoRunEvent::ClaimFailed(d)) => {
                let e = GitHubStarsError::api_with_detail("Failed to claim repo", d.as_str());
                (RepoRun { phase: RepoRunPhase::Finished, ..self }, RepoRunAction::Finish(Err(e)))
            },
            (RepoRunPhase::CreatingClient, RepoRunEvent::ClientReady) => {
                (
                    RepoRun { phase: RepoRunPhase::Fetching, ..self },
                    RepoRunAction::FetchPage { page: 1, pause_ms: 0 },
                )
            },
            (RepoRunPhase::CreatingClient, RepoRunEvent::ClientFailed(e)) => {
                (RepoRun { phase: RepoRunPhase::Finished, ..self }, RepoRunAction::Finish(Err(e)))
            },
            (RepoRunPhase::Fetching, RepoRunEvent::PageFetched { count, has_more, rate_limit }) => {
                let ghost pages = self.pages@.push(count as nat);
                proof {
                    lemma_seq_sum_push(self.pages@, count as nat);
                }
                let total = self.total_stargazers + count as u64;
                if count > 0 {
                    let run = RepoRun {
                        phase: RepoRunPhase::Storing,
                        total_stargazers: total,
                        rate_limit,
                        last_count: count,
                        last_has_more: has_more,
                        pages: Ghost(pages),
                        ..self
                    };
                    (run, RepoRunAction::StoreBatch)
                } else {
                    let run = RepoRun {
                        phase: RepoRunPhase::Completing,
                        total_stargazers: total,
                        rate_limit,
                        last_count: count,
                        last_has_more: has_more,
                        pages: Ghost(pages),
                        ..self
                    };
                    run.after_page()
                }
            },
            (RepoRunPhase::Fetching, RepoRunEvent::PageFailed(e)) => {
                match e {
                    GitHubStarsError::RateLimitExceeded(msg) => {
                        let retry_at_ms = self.rate_limit.reset_time_ms;
                        (
                            RepoRun { phase: RepoRunPhase::RecordingRateLimit(msg), ..self },
                            RepoRunAction::RecordRateLimited { retry_at_ms },
                        )
                    },
                    other => {
                        let message = other.message();
                        (
                            RepoRun { phase: RepoRunPhase::RecordingFailure(other), ..self },
                            RepoRunAction::RecordFailure { message },
                        )
                    },
                }
            },
            (RepoRunPhase::Storing, RepoRunEvent::BatchStored) => {
                let page = self.page;
                let count = self.last_count;
                (
                    RepoRun { phase: RepoRunPhase::RecordingProgress, ..self },
                    RepoRunAction::RecordProgress { page, count },
                )
            },
            (RepoRunPhase::Storing, RepoRunEvent::StoreFailed(d)) => {
                let e = GitHubStarsError::api_with_detail("Failed to insert stargazers", d.as_str());
                (RepoRun { phase: RepoRunPhase::Finished, ..self }, RepoRunAction::Finish(Err(e)))
            },
            (RepoRunPhase::RecordingProgress, RepoRunEvent::ProgressRecorded) => {
                RepoRun { phase: RepoRunPhase::RecordingProgress, ..self }.after_page()
            },
            (RepoRunPhase::RecordingProgress, RepoRunEvent::ProgressFailed(d)) => {
                let e = GitHubStarsError::api_with_detail("Failed to update progress", d.as_str());
                (RepoRun { phase: RepoRunPhase::Finished, ..self }, RepoRunAction::Finish(Err(e)))
            },
            (RepoRunPhase::RecordingRateLimit(msg), RepoRunEvent::RateLimitRecorded) => {
                (
                    RepoRun { phase: RepoRunPhase::Finished, ..self },
                    RepoRunAction::Finish(Err(GitHubStarsError::RateLimitExceeded(msg))),
                )
            },
            (RepoRunPhase::RecordingRateLimit(_), RepoRunEvent::RateLimitRecordFailed(d)) => {
                let e = GitHubStarsError::api_with_detail(
                    "Failed to update rate limit status",
                    d.as_str(),
                );
                (RepoRun { phase: RepoRunPhase::Finished, ..self }, RepoRunAction::Finish(Err(e)))
            },
            (RepoRunPhase::RecordingFailure(err), RepoRunEvent::FailureRecorded) => {
                (RepoRun { phase: RepoRunPhase::Finished, ..self }, RepoRunAction::Finish(Err(err)))
            },
            (RepoRunPhase::RecordingFailure(_), RepoRunEvent::FailureRecordFailed(d)) => {
                let e = GitHubStarsError::api_with_detail("Failed to mark repo as failed", d.as_str());
                (RepoRun { phase: RepoRunPhase::Finished, ..self }, RepoRunAction::Finish(Err(e)))
            },
            (RepoRunPhase::Completing, RepoRunEvent::CompletionRecorded) => {
                (RepoRun { phase: RepoRunPhase::Finished, ..self }, RepoRunAction::Finish(Ok(())))
            },
            (RepoRunPhase::Completing, RepoRunEvent::CompletionFailed(d)) => {
                let e = GitHubStarsError::api_with_detail("Failed to mark repo complete", d.as_str());
                (RepoRun { phase: RepoRunPhase::Finished, ..self }, RepoRunAction::Finish(Err(e)))
            },
            _ => {
                proof {
                    assert(false);
                }
                (RepoRun { phase: RepoRunPhase::Finished, ..self }, RepoRunAction::Finish(Ok(())))
            },
        }
    }

    /// What one step does, phase by phase.
    pub closed spec fn step_post(
        old: RepoRun,
        event: RepoRunEvent,
        new: RepoRun,
        action: RepoRunAction,
    ) -> bool {
        &&& !(event is PageFetched) ==> new.pages@ == old.pages@ && new.total_stargazers
            == old.total_stargazers
        &&& !(event is PageFetched) ==> new.last_count == old.last_count && new.last_has_more
            == old.last_has_more
        &&& !(action is FetchPage) ==> new.page == old.page
        &&& (action matches RepoRunAction::FetchPage { page, pause_ms: _ } ==> page == new.page
            && new.phase is Fetching)
        &&& new.rate_limit == match event {
            RepoRunEvent::PageFetched { count: _, has_more: _, rate_limit } => rate_limit,
            _ => old.rate_limit,
        }
        &&& match (old.phase, event) {
            (RepoRunPhase::Connecting, RepoRunEvent::Connected) => new.phase is Claiming
                && action is Claim,
            (RepoRunPhase::Connecting, RepoRunEvent::ConnectionFailed(d)) => new.phase is Finished
                && finishes_with_api_error(action, "Failed to get DB connection"@, d@),
            (RepoRunPhase::Claiming, RepoRunEvent::Claimed(claimed)) => if claimed {
                new.phase is CreatingClient && action is CreateClient
            } else {
                new.phase is Finished && action == RepoRunAction::Finish(Ok(()))
            },
            (RepoRunPhase::Claiming, RepoRunEvent::ClaimFailed(d)) => new.phase is Finished
                && finishes_with_api_error(action, "Failed to claim repo"@, d@),
            (RepoRunPhase::CreatingClient, RepoRunEvent::ClientReady) => new.phase is Fetching
                && action == (RepoRunAction::FetchPage { page: 1, pause_ms: 0 }),
            (RepoRunPhase::CreatingClient, RepoRunEvent::ClientFailed(e)) => new.phase is Finished
                && action == RepoRunAction::Finish(Err(e)),
            (RepoRunPhase::Fetching, RepoRunEvent::PageFetched { count, has_more, rate_limit }) => {
                &&& new.pages@ == old.pages@.push(count as nat)
                &&& new.total_stargazers == old.total_stargazers + count
                &&& if count > 0 {
                    new.phase is Storing && action is StoreBatch && new.last_count == count
                        && new.last_has_more == has_more
                } else if has_more {
                    &&& new.phase is Fetching
                    &&& new.page == old.page + 1
                    &&& action == (RepoRunAction::FetchPage {
                        page: (old.page + 1) as u32,
                        pause_ms: if rate_limit.remaining < LOW_REMAINING_FOR_PAGES {
                            PAGE_PAUSE_MS
                        } else {
                            0
                        },
                    })
                } else {
                    new.phase is Completing && action == (RepoRunAction::RecordComplete {
                        total: new.total_stargazers as u32,
                    })
                }
            },
            (RepoRunPhase::Fetching, RepoRunEvent::PageFailed(e)) => match e {
                GitHubStarsError::RateLimitExceeded(msg) => new.phase
                    == RepoRunPhase::RecordingRateLimit(msg) && action
                    == (RepoRunAction::RecordRateLimited { retry_at_ms: old.rate_limit.reset_time_ms }),
                _ => new.phase == RepoRunPhase::RecordingFailure(e) && (action matches RepoRunAction::RecordFailure { message } && e.message_matches(message@)),
            },
            (RepoRunPhase::Storing, RepoRunEvent::BatchStored) => new.phase is RecordingProgress
                && action == (RepoRunAction::RecordProgress { page: old.page, count: old.last_count }),
            (RepoRunPhase::Storing, RepoRunEvent::StoreFailed(d)) => new.phase is Finished
                && finishes_with_api_error(action, "Failed to insert stargazers"@, d@),
            (RepoRunPhase::RecordingProgress, RepoRunEvent::ProgressRecorded) => if old.last_has_more {
                &&& new.phase is Fetching
                &&& new.page == old.page + 1
                &&& action == (RepoRunAction::FetchPage {
                    page: (old.page + 1) as u32,
                    pause_ms: if old.rate_limit.remaining < LOW_REMAINING_FOR_PAGES {
                        PAGE_PAUSE_MS
                    } else {
                        0
                    },
                })
            } else {
                new.phase is Completing && action == (RepoRunAction::RecordComplete {
                    total: old.total_stargazers as u32,
                })
            },
            (RepoRunPhase::RecordingProgress, RepoRunEvent::ProgressFailed(d)) => new.phase
                is Finished && finishes_with_api_error(action, "Failed to update progress"@, d@),
            (RepoRunPhase::RecordingRateLimit(msg), RepoRunEvent::RateLimitRecorded) => new.phase
                is Finished && action == RepoRunAction::Finish(
                Err(GitHubStarsError::RateLimitExceeded(msg)),
            ),
            (RepoRunPhase::RecordingRateLimit(_), RepoRunEvent::RateLimitRecordFailed(d)) => new.phase
                is Finished && finishes_with_api_error(
                action,
                "Failed to update rate limit status"@,
                d@,
            ),
            (RepoRunPhase::RecordingFailure(err), RepoRunEvent::FailureRecorded) => new.phase
                is Finished && action == RepoRunAction::Finish(Err(err)),
            (RepoRunPhase::RecordingFailure(_), RepoRunEvent::FailureRecordFailed(d)) => new.phase
                is Finished && finishes_with_api_error(action, "Failed to mark repo as failed"@, d@),
            (RepoRunPhase::Completing, RepoRunEvent::CompletionRecorded) => new.phase is Finished
                && action == RepoRunAction::Finish(Ok(())),
            (RepoRunPhase::Completing, RepoRunEvent::CompletionFailed(d)) => new.phase is Finished
                && finishes_with_api_error(action, "Failed to mark repo complete"@, d@),
            _ => false,
        }
    }
}

/// A run records as its stargazer total the number of users on all the pages
/// it fetched (counted in 32 bits).
pub proof fn lemma_completion_reports_page_sum(
    old: RepoRun,
    event: RepoRunEvent,
    new: RepoRun,
    action: RepoRunAction,
)
    requires
        old.wf(),
        new.wf(),
        RepoRun::step_post(old, event, new, action),
    ensures
        action matches RepoRunAction::RecordComplete { total } ==> total == seq_sum(
            new.spec_pages(),
        ) as u32,
{
}

/// The pages of a repository are fetched in order: each page fetched is the
/// one after the pages fetched before it, starting at page 1.
pub proof fn lemma_pages_fetched_in_order(
    old: RepoRun,
    event: RepoRunEvent,
    new: RepoRun,
    action: RepoRunAction,
)
    requires
        old.wf(),
        new.wf(),
        RepoRun::step_post(old, event, new, action),
    ensures
        action matches RepoRunAction::FetchPage { page, pause_ms: _ } ==> page == new.spec_pages().len()
            + 1,
{
}

/// Once a page with users is stored and its progress recorded, the run goes
/// on: it fetches the next page where more pages follow that one, and
/// otherwise records completion with the number of users on all its pages.
pub proof fn lemma_stored_page_leads_on(
    r0: RepoRun,
    r1: RepoRun,
    a1: RepoRunAction,
    r2: RepoRun,
    a2: RepoRunAction,
)
    requires
        r0.wf(),
        r0.spec_phase() is Storing,
        RepoRun::step_post(r0, RepoRunEvent::BatchStored, r1, a1),
        r1.wf(),
        RepoRun::step_post(r1, RepoRunEvent::ProgressRecorded, r2, a2),
        r2.wf(),
    ensures
        a1 == (RepoRunAction::RecordProgress { page: r0.spec_page(), count: r0.spec_last_count() }),
        r0.spec_last_has_more() ==> (a2 matches RepoRunAction::FetchPage { page, pause_ms: _ } && page
            == r0.spec_page() + 1 && page == r0.spec_pages().len() + 1),
        !r0.spec_last_has_more() ==> a2 == (RepoRunAction::RecordComplete {
            total: seq_sum(r0.spec_pages()) as u32,
        }),
{
}

/// A failed database step ends the run with an error and records nothing
/// more: whatever the phase, a failure to connect, claim, store a page, record
/// progress, record the rate limit, record a failure or record completion
/// finishes the run with an `ApiError` that names the step and gives the
/// failure's text, and the run is over.
pub proof fn lemma_database_failures_end_the_run(
    old: RepoRun,
    event: RepoRunEvent,
    new: RepoRun,
    action: RepoRunAction,
)
    requires
        old.wf(),
        RepoRun::step_post(old, event, new, action),
    ensures
        event matches RepoRunEvent::ConnectionFailed(d) ==> new.spec_phase() is Finished
            && finishes_with_api_error(action, "Failed to get DB connection"@, d@),
        event matches RepoRunEvent::ClaimFailed(d) ==> new.spec_phase() is Finished
            && finishes_with_api_error(action, "Failed to claim repo"@, d@),
        event matches RepoRunEvent::StoreFailed(d) ==> new.spec_phase() is Finished
            && finishes_with_api_error(action, "Failed to insert stargazers"@, d@),
        event matches RepoRunEvent::ProgressFailed(d) ==> new.spec_phase() is Finished
            && finishes_with_api_error(action, "Failed to update progress"@, d@),
        event matches RepoRunEvent::RateLimitRecordFailed(d) ==> new.spec_phase() is Finished
            && finishes_with_api_error(action, "Failed to update rate limit status"@, d@),
        event matches RepoRunEvent::FailureRecordFailed(d) ==> new.spec_phase() is Finished
            && finishes_with_api_error(action, "Failed to mark repo as failed"@, d@),
        event matches RepoRunEvent::CompletionFailed(d) ==> new.spec_phase() is Finished
            && finishes_with_api_error(action, "Failed to mark repo complete"@, d@),
{
}

/// A run records completion only after its last page: the action to mark the
/// repository complete comes only from fetching a page after which no more
/// follow, or from recording the progress of such a page.
pub proof fn lemma_completion_only_after_the_last_page(
    old: RepoRun,
    event: RepoRunEvent,
    new: RepoRun,
    action: RepoRunAction,
)
    requires
        old.wf(),
        RepoRun::step_post(old, event, new, action),
    ensures
        action is RecordComplete ==> {
            ||| event matches RepoRunEvent::PageFetched { count, has_more, rate_limit: _ } && count
                == 0 && !has_more
            ||| (event is ProgressRecorded && old.spec_phase() is RecordingProgress
                && !old.spec_last_has_more())
        },
{
}

/// How the fetches and the claim turn out. A repository claimed elsewhere is
/// skipped: the run finishes successfully without fetching. A client that
/// cannot be created ends the run with its error. A page with users is stored,
/// and then its progress is recorded under its page number with its count. An
/// exceeded rate limit marks the repository rate limited until the reset last
/// reported; any other fetch error marks it failed with the error's text.
pub proof fn lemma_fetch_outcomes(
    old: RepoRun,
    event: RepoRunEvent,
    new: RepoRun,
    action: RepoRunAction,
)
    requires
        old.wf(),
        RepoRun::step_post(old, event, new, action),
    ensures
        event == RepoRunEvent::Claimed(false) ==> new.spec_phase() is Finished && action
            == RepoRunAction::Finish(Ok(())),
        event == RepoRunEvent::Claimed(true) ==> action is CreateClient,
        event matches RepoRunEvent::ClientFailed(e) ==> action == RepoRunAction::Finish(Err(e)),
        event matches RepoRunEvent::PageFetched { count, has_more: _, rate_limit } ==> (count > 0
            ==> action is StoreBatch && new.spec_last_count() == count) && new.spec_rate_limit()
            == rate_limit,
        event is BatchStored ==> action == (RepoRunAction::RecordProgress {
            page: old.spec_page(),
            count: old.spec_last_count(),
        }),
        event matches RepoRunEvent::PageFailed(e) ==> (e is RateLimitExceeded ==> action == (
        RepoRunAction::RecordRateLimited { retry_at_ms: old.spec_rate_limit().reset_time_ms })),
        event matches RepoRunEvent::PageFailed(e) ==> (!(e is RateLimitExceeded) ==> (
        action matches RepoRunAction::RecordFailure { message } && e.message_matches(message@))),
        event matches RepoRunEvent::PageFailed(e) ==> (e matches GitHubStarsError::RateLimitExceeded(
            m,
        ) ==> new.spec_phase() == RepoRunPhase::RecordingRateLimit(m)),
        event == RepoRunEvent::RateLimitRecorded ==> (old.spec_phase() matches RepoRunPhase::RecordingRateLimit(
            m,
        ) ==> action == RepoRunAction::Finish(Err(GitHubStarsError::RateLimitExceeded(m)))),
        event == RepoRunEvent::FailureRecorded ==> (old.spec_phase() matches RepoRunPhase::RecordingFailure(
            e,
        ) ==> action == RepoRunAction::Finish(Err(e))),
{
}

} // verus!

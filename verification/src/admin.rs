//! The admin API: its requests and answers, and what it computes from them.
use vstd::prelude::*;
use crate::decimal::{decimal_chars, push_decimal};
use crate::health::WorkerCounts;

verus! {

/// Response for successful operations.
#[derive(Debug, Clone)]
pub struct SuccessResponse {
    pub success: bool,
    pub message: String,
}

/// Response for errors.
#[derive(Debug, Clone)]
pub struct ErrorResponse {
    pub error: String,
}

/// Query parameters for filtering.
#[derive(Debug, Clone)]
pub struct FilterParams {
    pub status: Option<String>,
    pub limit: Option<usize>,
    pub offset: Option<usize>,
}

/// Repository status information.
#[derive(Debug, Clone)]
pub struct RepoStatus {
    pub repo_id: String,
    pub status: String,
    pub last_page_processed: u32,
    pub processed_stargazers: u32,
    pub total_stargazers: Option<u32>,
    pub claimed_by: Option<String>,
    pub last_error: Option<String>,
    pub error_count: u32,
    pub started_at: Option<String>,
    pub completed_at: Option<String>,
}

#[derive(Debug, Clone, Copy, PartialEq, Eq, Structural)]
pub struct DatabaseStats {
    pub total_repos: u64,
    pub completed_repos: u64,
    pub failed_repos: u64,
    pub processing_repos: u64,
    pub pending_repos: u64,
    pub rate_limited_repos: u64,
    pub pagination_limited_repos: u64,
    pub total_stargazers: u64,
    pub total_github_users: u64,
}

#[derive(Debug, Clone, Copy, PartialEq, Eq, Structural)]
pub struct QueueStats {
    pub depth: usize,
    pub active_workers: usize,
    pub total_workers: usize,
}

/// Worker scaling request.
#[derive(Debug, Clone, Copy)]
pub struct ScaleRequest {
    pub workers: usize,
}

/// Reprocess request.
#[derive(Debug, Clone, Copy)]
pub struct ReprocessRequest {
    pub force: Option<bool>,
}

impl ReprocessRequest {
    /// A reprocess is forced only where the request says so.
    pub fn is_forced(&self) -> (b: bool)
        ensures
            b == (self.force == Some(true)),
    {
        match self.force {
            Some(f) => f,
            None => false,
        }
    }
}

/// Most repositories one listing returns.
pub const MAX_LIST_LIMIT: usize = 1000;

/// Repositories a listing returns where no limit is given.
pub const DEFAULT_LIST_LIMIT: usize = 100;

impl FilterParams {
    pub open spec fn spec_limit(&self) -> usize {
        match self.limit {
            Some(l) => if l < 1000 {
                l
            } else {
                1000
            },
            None => 100,
        }
    }

    pub open spec fn spec_offset(&self) -> usize {
        match self.offset {
            Some(o) => o,
            None => 0,
        }
    }

    /// The number of repositories to list: the limit asked for (100 where
    /// none), at most 1000.
    pub fn effective_limit(&self) -> (n: usize)
        ensures
            n == self.spec_limit(),
            self.limit matches Some(l) ==> (l <= MAX_LIST_LIMIT ==> n == l),
            self.limit matches Some(l) ==> (l > MAX_LIST_LIMIT ==> n == MAX_LIST_LIMIT),
            self.limit is None ==> n == DEFAULT_LIST_LIMIT,
    {
        proof {
            lemma_listing_limit(*self);
        }
        let l = match self.limit {
            Some(l) => l,
            None => DEFAULT_LIST_LIMIT,
        };
        if l < MAX_LIST_LIMIT {
            l
        } else {
            MAX_LIST_LIMIT
        }
    }

    /// Where the listing starts: the offset asked for, or 0.
    pub fn effective_offset(&self) -> (n: usize)
        ensures
            n == self.spec_offset(),
    {
        match self.offset {
            Some(o) => o,
            None => 0,
        }
    }
}

/// The listing limit: a limit asked for is used as given up to 1000, and
/// larger ones are cut to 1000; only where no limit is asked for are 100
/// repositories listed. The offset is used as given, 0 where absent.
pub proof fn lemma_listing_limit(params: FilterParams)
    ensures
        params.limit matches Some(l) ==> (l <= 1000 ==> params.spec_limit() == l),
        params.limit matches Some(l) ==> (l > 1000 ==> params.spec_limit() == 1000),
        params.limit is None ==> params.spec_limit() == 100,
        params.spec_limit() <= 1000,
        params.offset matches Some(o) ==> params.spec_offset() == o,
        params.offset is None ==> params.spec_offset() == 0,
{
}

pub open spec fn spec_list_repos_query(status: Option<Seq<char>>, limit: usize, offset: usize) -> Seq<
    char,
> {
    match status {
        Some(s) => "\n            SELECT * FROM repo_processing_status \n            WHERE status = '"@
            + s + "' \n            ORDER BY started_at DESC\n            LIMIT "@ + decimal_chars(
            limit as nat,
        ) + " START "@ + decimal_chars(offset as nat) + "\n            "@,
        None => "\n            SELECT * FROM repo_processing_status \n            ORDER BY started_at DESC\n            LIMIT "@
            + decimal_chars(limit as nat) + " START "@ + decimal_chars(offset as nat)
            + "\n            "@,
    }
}

/// The query that lists processing statuses for the given filter, newest
/// start first. The status is placed in the query as given.
pub fn list_repos_query(params: &FilterParams) -> (q: String)
    ensures
        q@ == spec_list_repos_query(
            match params.status {
                Some(s) => Some(s@),
                None => None,
            },
            params.spec_limit(),
            params.spec_offset(),
        ),
{
    let limit = params.effective_limit();
    let offset = params.effective_offset();
    let mut q = match &params.status {
        Some(s) => {
            let mut q = "\n            SELECT * FROM repo_processing_status \n            WHERE status = '".to_owned();
            q.append(s.as_str());
            q.append("' \n            ORDER BY started_at DESC\n            LIMIT ");
            q
        },
        None => "\n            SELECT * FROM repo_processing_status \n            ORDER BY started_at DESC\n            LIMIT ".to_owned(),
    };
    push_decimal(&mut q, limit as u64);
    q.append(" START ");
    push_decimal(&mut q, offset as u64);
    q.append("\n            ");
    q
}

/// The queue statistics that the supervisor's counts give.
pub fn queue_stats(counts: WorkerCounts) -> (q: QueueStats)
    ensures
        q == (QueueStats {
            depth: counts.factory_queue_depth,
            active_workers: counts.factory_active_workers,
            total_workers: counts.current_worker_count,
        }),
{
    QueueStats {
        depth: counts.factory_queue_depth,
        active_workers: counts.factory_active_workers,
        total_workers: counts.current_worker_count,
    }
}

/// Workers not busy: all workers less the active ones.
pub fn idle_workers(counts: WorkerCounts) -> (n: usize)
    requires
        counts.factory_active_workers <= counts.current_worker_count,
    ensures
        n == counts.current_worker_count - counts.factory_active_workers,
{
    counts.current_worker_count - counts.factory_active_workers
}

/// The counts the repository statistics query returned, each as found in its
/// answer (`None` where absent or not a non-negative integer).
#[derive(Debug, Clone, Copy)]
pub struct RepoCountFields {
    pub total_repos: Option<u64>,
    pub completed_repos: Option<u64>,
    pub failed_repos: Option<u64>,
    pub processing_repos: Option<u64>,
    pub pending_repos: Option<u64>,
    pub rate_limited_repos: Option<u64>,
    pub pagination_limited_repos: Option<u64>,
}

pub open spec fn or_zero(o: Option<u64>) -> u64 {
    match o {
        Some(v) => v,
        None => 0,
    }
}

fn zero_if_none(o: Option<u64>) -> (v: u64)
    ensures
        v == or_zero(o),
{
    match o {
        Some(v) => v,
        None => 0,
    }
}

impl DatabaseStats {
    /// The statistics from the three queries' answers: the repository counts
    /// (`None` where that query returned no row), the sum of processed
    /// stargazers and the number of GitHub users. A count that is missing
    /// reads as 0; without the repository row every figure is 0, the two
    /// totals included.
    pub fn from_answers(
        repo_counts: Option<RepoCountFields>,
        total_stargazers: Option<u64>,
        total_github_users: Option<u64>,
    ) -> (s: DatabaseStats)
        ensures
            match repo_counts {
                Some(c) => s == (DatabaseStats {
                    total_repos: or_zero(c.total_repos),
                    completed_repos: or_zero(c.completed_repos),
                    failed_repos: or_zero(c.failed_repos),
                    processing_repos: or_zero(c.processing_repos),
                    pending_repos: or_zero(c.pending_repos),
                    rate_limited_repos: or_zero(c.rate_limited_repos),
                    pagination_limited_repos: or_zero(c.pagination_limited_repos),
                    total_stargazers: or_zero(total_stargazers),
                    total_github_users: or_zero(total_github_users),
                }),
                None => s == (DatabaseStats {
                    total_repos: 0,
                    completed_repos: 0,
                    failed_repos: 0,
                    processing_repos: 0,
                    pending_repos: 0,
                    rate_limited_repos: 0,
                    pagination_limited_repos: 0,
                    total_stargazers: 0,
                    total_github_users: 0,
                }),
            },
    {
        match repo_counts {
            Some(c) => DatabaseStats {
                total_repos: zero_if_none(c.total_repos),
                completed_repos: zero_if_none(c.completed_repos),
                failed_repos: zero_if_none(c.failed_repos),
                processing_repos: zero_if_none(c.processing_repos),
                pending_repos: zero_if_none(c.pending_repos),
                rate_limited_repos: zero_if_none(c.rate_limited_repos),
                pagination_limited_repos: zero_if_none(c.pagination_limited_repos),
                total_stargazers: zero_if_none(total_stargazers),
                total_github_users: zero_if_none(total_github_users),
            },
            None => DatabaseStats {
                total_repos: 0,
                completed_repos: 0,
                failed_repos: 0,
                processing_repos: 0,
                pending_repos: 0,
                rate_limited_repos: 0,
                pagination_limited_repos: 0,
                total_stargazers: 0,
                total_github_users: 0,
            },
        }
    }
}

fn text3(a: &str, b: &str, c: &str) -> (s: String)
    ensures
        s@ == a@ + b@ + c@,
{
    let mut s = a.to_owned();
    s.append(b);
    s.append(c);
    s
}

/// The reset of a forced reprocess: the repository's status goes back to
/// pending and its progress, totals, completion and error are cleared.
pub const FORCED_REPROCESS_QUERY: &'static str = "\n                UPDATE $repo_id SET \n                    status = 'pending',\n                    claimed_by = NULL,\n                    claimed_at = NULL,\n                    last_page_processed = 0,\n                    processed_stargazers = 0,\n                    total_stargazers = NULL,\n                    completed_at = NULL,\n                    last_error = NULL,\n                    notes = 'Manually reprocessed via admin API'\n                WHERE repo = $repo_id\n                ";

/// The reset of an ordinary reprocess: only a repository that failed,
/// completed or hit the pagination limit goes back to pending.
pub const REPROCESS_QUERY: &'static str = "\n                UPDATE $repo_id SET \n                    status = 'pending',\n                    claimed_by = NULL,\n                    claimed_at = NULL,\n                    notes = 'Manually reprocessed via admin API'\n                WHERE repo = $repo_id \n                AND status IN ('failed', 'completed', 'pagination_limited')\n                ";

/// The reset query of a reprocess request: forced, or only where eligible.
pub fn reprocess_reset_query(force: bool) -> (q: &'static str)
    ensures
        q@ == if force {
            FORCED_REPROCESS_QUERY@
        } else {
            REPROCESS_QUERY@
        },
{
    if force {
        FORCED_REPROCESS_QUERY
    } else {
        REPROCESS_QUERY
    }
}

/// The answer to a reprocess request for repository `repo_id` after the reset
/// changed `updated` records: queued where any changed, refused (status 400)
/// where none did.
pub fn reprocess_outcome(repo_id: &str, updated: usize) -> (r: Result<SuccessResponse, ErrorResponse>)
    ensures
        updated > 0 ==> (r matches Ok(s) && s.success && s.message@ == "Repository "@ + repo_id@
            + " queued for reprocessing"@),
        updated == 0 ==> (r matches Err(e) && e.error@
            == "Repository not found or not eligible for reprocessing"@),
{
    if updated == 0 {
        Err(ErrorResponse { error: "Repository not found or not eligible for reprocessing".to_owned() })
    } else {
        Ok(
            SuccessResponse {
                success: true,
                message: text3("Repository ", repo_id, " queued for reprocessing"),
            },
        )
    }
}

/// The answer to a reset of repository `repo_id`.
pub fn reset_done(repo_id: &str) -> (r: SuccessResponse)
    ensures
        r.success,
        r.message@ == "Repository "@ + repo_id@ + " processing status reset"@,
{
    SuccessResponse { success: true, message: text3("Repository ", repo_id, " processing status reset") }
}

/// The answer where repository `repo_id` has no processing status (404).
pub fn repo_not_found(repo_id: &str) -> (r: ErrorResponse)
    ensures
        r.error@ == "Repository "@ + repo_id@ + " not found"@,
{
    ErrorResponse { error: text3("Repository ", repo_id, " not found") }
}

/// The answer to a reprocess request for user `user_id`: queued where the
/// user has a GitHub account, 404 where not.
pub fn reprocess_user_outcome(user_id: &str, has_account: bool) -> (r: Result<
    SuccessResponse,
    ErrorResponse,
>)
    ensures
        has_account ==> (r matches Ok(s) && s.success && s.message@ == "All repositories for user "@
            + user_id@ + " queued for reprocessing"@),
        !has_account ==> (r matches Err(e) && e.error@ == "No GitHub account found for user "@
            + user_id@),
{
    if has_account {
        Ok(
            SuccessResponse {
                success: true,
                message: text3("All repositories for user ", user_id, " queued for reprocessing"),
            },
        )
    } else {
        let mut m = "No GitHub account found for user ".to_owned();
        m.append(user_id);
        Err(ErrorResponse { error: m })
    }
}

} // verus!

//! The records the server reads from and writes to the database. Record ids
//! are held as a table and a key; instants as milliseconds since the epoch.
use vstd::prelude::*;
use crate::clock::{now_millis, in_clock_range};

verus! {

/// A database record id, such as `user:123` (table `user`, key `123`).
#[derive(Debug, PartialEq, Eq, Hash)]
pub struct RecordRef {
    pub table: String,
    pub key: String,
}

impl Clone for RecordRef {
    fn clone(&self) -> (r: RecordRef)
        ensures
            r == *self,
    {
        RecordRef { table: self.table.clone(), key: self.key.clone() }
    }
}

impl RecordRef {
    pub fn new(table: &str, key: &str) -> (r: RecordRef)
        ensures
            r.table@ == table@,
            r.key@ == key@,
    {
        RecordRef { table: table.to_owned(), key: key.to_owned() }
    }

    /// The id written as `table:key`.
    pub fn to_text(&self) -> (s: String)
        ensures
            s@ == self.table@ + ":"@ + self.key@,
    {
        let mut s = self.table.clone();
        s.append(":");
        s.append(self.key.as_str());
        s
    }
}

/// GitHub account information from the database.
#[derive(Debug, Clone)]
pub struct Account {
    pub id: RecordRef,
    pub access_token: String,
    pub user_id: RecordRef,
    pub provider_id: String,
    pub provider_account_id: String,
    pub scope: Option<String>,
    pub created_at_ms: i64,
    pub updated_at_ms: i64,
}

/// User information from the database.
#[derive(Debug, Clone)]
pub struct User {
    pub id: RecordRef,
    pub name: Option<String>,
    pub email: String,
    pub email_verified: bool,
    pub image: Option<String>,
    pub created_at_ms: i64,
    pub updated_at_ms: i64,
}

/// A GitHub user stored in the database.
#[derive(Debug, Clone)]
pub struct GithubUser {
    pub id: RecordRef,
    pub github_id: i64,
    pub username: String,
    pub avatar_url: String,
    pub profile_url: String,
    pub synced_at_ms: i64,
}

/// A `starred` relation between a GitHub user and a repository.
#[derive(Debug, Clone)]
pub struct StarredRelation {
    pub id: RecordRef,
    pub from: RecordRef,
    pub to: RecordRef,
    pub starred_at_ms: i64,
    pub source: String,
}

/// Repository information.
#[derive(Debug, Clone)]
pub struct Repo {
    pub id: RecordRef,
    pub github_id: i64,
    pub name: String,
    pub full_name: String,
    pub description: Option<String>,
    pub url: String,
    pub stars: u32,
    pub language: Option<String>,
    pub owner: RepoOwner,
    pub is_private: bool,
    pub created_at_ms: i64,
    pub updated_at_ms: i64,
}

#[derive(Debug, Clone)]
pub struct RepoOwner {
    pub login: String,
    pub avatar_url: String,
}

/// Processing status of a repository.
#[derive(Debug, Clone)]
pub struct RepoProcessingStatus {
    pub id: RecordRef,
    pub repo: RecordRef,
    pub status: ProcessingStatus,
    pub last_page_processed: u32,
    pub total_pages: Option<u32>,
    pub total_stargazers: Option<u32>,
    pub processed_stargazers: u32,
    pub claimed_by: Option<RecordRef>,
    pub claimed_at_ms: Option<i64>,
    pub started_at_ms: Option<i64>,
    pub completed_at_ms: Option<i64>,
    pub last_error: Option<String>,
    pub error_count: u32,
    pub next_retry_after_ms: Option<i64>,
}

#[derive(Debug, Clone, Copy, PartialEq, Eq, Structural)]
pub enum ProcessingStatus {
    Pending,
    Processing,
    Completed,
    Failed,
    RateLimited,
    PaginationLimited,
}

impl ProcessingStatus {
    /// The name the database stores for the status.
    pub fn as_str(&self) -> (s: &'static str)
        ensures
            s@ == match self {
                ProcessingStatus::Pending => "pending"@,
                ProcessingStatus::Processing => "processing"@,
                ProcessingStatus::Completed => "completed"@,
                ProcessingStatus::Failed => "failed"@,
                ProcessingStatus::RateLimited => "rate_limited"@,
                ProcessingStatus::PaginationLimited => "pagination_limited"@,
            },
    {
        match self {
            ProcessingStatus::Pending => "pending",
            ProcessingStatus::Processing => "processing",
            ProcessingStatus::Completed => "completed",
            ProcessingStatus::Failed => "failed",
            ProcessingStatus::RateLimited => "rate_limited",
            ProcessingStatus::PaginationLimited => "pagination_limited",
        }
    }
}

/// A GitHub user found as a stargazer.
#[derive(Debug, Clone)]
pub struct GitHubUser {
    pub id: RecordRef,
    pub github_id: i64,
    pub username: String,
    pub avatar_url: String,
    pub profile_url: String,
    pub synced_at_ms: i64,
}

/// A GitHub account newly created in the database, with its user.
#[derive(Debug, Clone)]
pub struct NewAccountEvent {
    pub account: Account,
    pub user: User,
}

/// Processing state of one access token.
#[derive(Debug, Clone)]
pub struct TokenProcessingState {
    pub id: RecordRef,
    pub user: RecordRef,
    pub rate_limit_remaining: u32,
    pub rate_limit_reset_ms: i64,
    pub active_repos: Vec<RecordRef>,
    pub last_active_at_ms: i64,
    pub status: TokenStatus,
}

#[derive(Debug, Clone, Copy, PartialEq, Eq, Structural)]
pub enum TokenStatus {
    Active,
    RateLimited,
    Idle,
    Error,
}

impl TokenStatus {
    /// The name the status is stored and sent under.
    pub fn as_str(&self) -> (s: &'static str)
        ensures
            s@ == match self {
                TokenStatus::Active => "active"@,
                TokenStatus::RateLimited => "rate_limited"@,
                TokenStatus::Idle => "idle"@,
                TokenStatus::Error => "error"@,
            },
    {
        match self {
            TokenStatus::Active => "active",
            TokenStatus::RateLimited => "rate_limited",
            TokenStatus::Idle => "idle",
            TokenStatus::Error => "error",
        }
    }
}

/// One hour, in milliseconds.
pub const ONE_HOUR_MS: i64 = 3_600_000;

/// The GitHub API allowance the server assumes before it has seen a response.
pub const DEFAULT_RATE_LIMIT: u32 = 5000;

/// Rate limit state of a worker.
#[derive(Debug, Clone, Copy, PartialEq, Eq, Structural)]
pub struct RateLimitState {
    pub remaining: u32,
    pub limit: u32,
    pub reset_time_ms: i64,
    pub is_limited: bool,
}

impl RateLimitState {
    pub open spec fn default_at_spec(now_ms: i64) -> RateLimitState {
        RateLimitState {
            remaining: 5000,
            limit: 5000,
            reset_time_ms: (now_ms + ONE_HOUR_MS) as i64,
            is_limited: false,
        }
    }

    /// The default state when the clock reads `now_ms`: a full allowance of
    /// 5000 requests, not limited, resetting one hour later.
    pub fn default_at(now_ms: i64) -> (s: RateLimitState)
        requires
            in_clock_range(now_ms),
        ensures
            s == RateLimitState::default_at_spec(now_ms),
    {
        RateLimitState {
            remaining: DEFAULT_RATE_LIMIT,
            limit: DEFAULT_RATE_LIMIT,
            reset_time_ms: now_ms + ONE_HOUR_MS,
            is_limited: false,
        }
    }
}

impl Default for RateLimitState {
    /// The default state: a full allowance, not limited, resetting one hour
    /// after the clock's present reading.
    fn default() -> (s: RateLimitState)
        ensures
            s.remaining == 5000,
            s.limit == 5000,
            !s.is_limited,
            exists|now: i64| in_clock_range(now) && s.reset_time_ms == now + ONE_HOUR_MS,
    {
        let now = now_millis();
        RateLimitState::default_at(now)
    }
}

/// Status of a token actor.
#[derive(Debug, Clone)]
pub struct TokenActorStatus {
    pub user_id: String,
    pub rate_limit: RateLimitState,
    pub current_repo: Option<String>,
    pub repos_in_queue: usize,
    pub repos_processed: usize,
    pub last_activity_ms: i64,
    pub status: TokenStatus,
}

} // verus!

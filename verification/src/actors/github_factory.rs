//! Configuration of the pool of GitHub workers, and the jobs it is given.
use vstd::prelude::*;
use crate::actors::github_worker::{GitHubJobKey, GitHubJobPayload};
use crate::models::{RecordRef, Repo};

verus! {

/// Configuration for the GitHub processing factory.
#[derive(Debug, Clone, Copy, PartialEq, Eq, Structural)]
pub struct GitHubFactoryConfig {
    /// Number of workers to start initially.
    pub num_initial_workers: usize,
    /// Most workers the pool may grow to.
    pub max_workers: usize,
    /// Maximum queue capacity.
    pub queue_capacity: usize,
    /// Time in seconds before a worker is considered stuck.
    pub dead_mans_switch_timeout_seconds: u64,
}

impl Default for GitHubFactoryConfig {
    fn default() -> (c: GitHubFactoryConfig)
        ensures
            c == (GitHubFactoryConfig {
                num_initial_workers: 5,
                max_workers: 1000,
                queue_capacity: 1000,
                dead_mans_switch_timeout_seconds: 100000,
            }),
    {
        GitHubFactoryConfig {
            num_initial_workers: 5,
            max_workers: 1000,
            queue_capacity: 1000,
            dead_mans_switch_timeout_seconds: 100000,
        }
    }
}

impl GitHubFactoryConfig {
    /// The configuration the server runs with: `num_workers` initial workers,
    /// at most 1000 workers and 1000 queued jobs, and six hours before a
    /// worker is considered stuck (large repositories take long).
    pub fn for_server(num_workers: usize) -> (c: GitHubFactoryConfig)
        ensures
            c == (GitHubFactoryConfig {
                num_initial_workers: num_workers,
                max_workers: 1000,
                queue_capacity: 1000,
                dead_mans_switch_timeout_seconds: 21600,
            }),
    {
        GitHubFactoryConfig {
            num_initial_workers: num_workers,
            max_workers: 1000,
            queue_capacity: 1000,
            dead_mans_switch_timeout_seconds: 21600,
        }
    }
}

/// The number of workers to start with when `num_accounts` accounts were
/// found: one per account, and at least one.
pub fn initial_worker_count(num_accounts: usize) -> (n: usize)
    ensures
        n == if num_accounts > 1 {
            num_accounts
        } else {
            1
        },
{
    if num_accounts > 1 {
        num_accounts
    } else {
        1
    }
}

/// Handles jobs that the factory drops.
#[derive(Debug, Clone, Copy)]
pub struct GitHubJobDiscardHandler;

/// The job that processes `repo` for a user with this access token.
pub open spec fn is_repo_job(
    job: (GitHubJobKey, GitHubJobPayload),
    user_id: RecordRef,
    access_token: Seq<char>,
    repo: Repo,
) -> bool {
    &&& job.0.user_id == user_id
    &&& job.0.repo_id == repo.id
    &&& job.1 matches GitHubJobPayload::ProcessRepo { repo_full_name, access_token: t } && {
        &&& repo_full_name@ == repo.full_name@
        &&& t@ == access_token
    }
}

/// The jobs that process an account: one per repository the user starred, in
/// order, each keyed by the user and the repository.
pub fn jobs_for_account(user_id: &RecordRef, access_token: &str, repos: &Vec<Repo>) -> (jobs: Vec<
    (GitHubJobKey, GitHubJobPayload),
>)
    ensures
        jobs@.len() == repos@.len(),
        forall|i: int|
            0 <= i < repos@.len() ==> is_repo_job(
                #[trigger] jobs@[i],
                *user_id,
                access_token@,
                repos@[i],
            ),
{
    let mut jobs: Vec<(GitHubJobKey, GitHubJobPayload)> = Vec::new();
    let mut i: usize = 0;
    while i < repos.len()
        invariant
            i <= repos@.len(),
            jobs@.len() == i,
            forall|j: int|
                0 <= j < i ==> is_repo_job(#[trigger] jobs@[j], *user_id, access_token@, repos@[j]),
        decreases repos@.len() - i,
    {
        let repo = &repos[i];
        let key = GitHubJobKey { user_id: user_id.clone(), repo_id: repo.id.clone() };
        let payload = GitHubJobPayload::ProcessRepo {
            repo_full_name: repo.full_name.clone(),
            access_token: access_token.to_owned(),
        };
        jobs.push((key, payload));
        i = i + 1;
    }
    jobs
}

} // verus!

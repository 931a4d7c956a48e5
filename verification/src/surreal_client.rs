//! What the database client computes from the rows its queries return.
use vstd::prelude::*;
use crate::clock::{parse_rfc3339_millis, rfc3339_millis};
use crate::models::{Account, RecordRef, Repo, RepoOwner};

verus! {

/// A repository row of the starred-repositories query. The owner is `None`
/// where the row's owner value could not be read as an owner.
#[derive(Debug)]
pub struct StarredRepoRow {
    pub id: RecordRef,
    pub github_id: i64,
    pub name: String,
    pub full_name: String,
    pub description: Option<String>,
    pub url: String,
    pub stars: i64,
    pub language: Option<String>,
    pub owner: Option<RepoOwner>,
    pub is_private: bool,
    pub created_at: String,
    pub updated_at: String,
}

pub open spec fn instant_or(text: Seq<char>, now_ms: i64) -> i64 {
    match rfc3339_millis(text) {
        Some(ms) => ms,
        None => now_ms,
    }
}

/// The repository a row describes: `None` where its owner is unreadable;
/// the star count is truncated to 32 bits, and a time that is not RFC 3339
/// reads as `now_ms`.
pub open spec fn spec_repo_from_row(row: StarredRepoRow, now_ms: i64) -> Option<Repo> {
    match row.owner {
        Some(owner) => Some(
            Repo {
                id: row.id,
                github_id: row.github_id,
                name: row.name,
                full_name: row.full_name,
                description: row.description,
                url: row.url,
                stars: row.stars as u32,
                language: row.language,
                owner,
                is_private: row.is_private,
                created_at_ms: instant_or(row.created_at@, now_ms),
                updated_at_ms: instant_or(row.updated_at@, now_ms),
            },
        ),
        None => None,
    }
}

/// The repositories that a sequence of rows describes, in order, rows with an
/// unreadable owner left out.
pub open spec fn spec_repos_from_rows(rows: Seq<StarredRepoRow>, now_ms: i64) -> Seq<Repo>
    decreases rows.len(),
{
    if rows.len() == 0 {
        Seq::empty()
    } else {
        let prev = spec_repos_from_rows(rows.drop_last(), now_ms);
        match spec_repo_from_row(rows.last(), now_ms) {
            Some(r) => prev.push(r),
            None => prev,
        }
    }
}

/// `repo` holds the values of `row`, each in the field of the same name: the
/// owner the row holds, the star count truncated to 32 bits, and each time
/// as the instant its RFC 3339 text denotes (where it denotes one).
pub open spec fn repo_carries_row(repo: Repo, row: StarredRepoRow) -> bool {
    &&& repo.id == row.id
    &&& repo.github_id == row.github_id
    &&& repo.name == row.name
    &&& repo.full_name == row.full_name
    &&& repo.description == row.description
    &&& repo.url == row.url
    &&& repo.stars == row.stars as u32
    &&& repo.language == row.language
    &&& row.owner == Some(repo.owner)
    &&& repo.is_private == row.is_private
    &&& (rfc3339_millis(row.created_at@) matches Some(ms) ==> repo.created_at_ms == ms)
    &&& (rfc3339_millis(row.updated_at@) matches Some(ms) ==> repo.updated_at_ms == ms)
}

/// A row with a readable owner gives a repository, and that repository
/// carries the row's values field by field (its full name is the row's full
/// name, not its short name); a row whose owner is unreadable gives none.
pub proof fn lemma_repo_carries_its_row(row: StarredRepoRow, now_ms: i64)
    ensures
        spec_repo_from_row(row, now_ms) is Some <==> row.owner is Some,
        spec_repo_from_row(row, now_ms) matches Some(repo) ==> repo_carries_row(repo, row),
{
}

/// The starred repositories keep the rows' order and carry their values: where
/// every row's owner is readable, there is one repository per row, and the
/// repository at each position carries the row at that position.
pub proof fn lemma_repos_carry_their_rows(rows: Seq<StarredRepoRow>, now_ms: i64)
    requires
        forall|i: int| 0 <= i < rows.len() ==> (#[trigger] rows[i]).owner is Some,
    ensures
        spec_repos_from_rows(rows, now_ms).len() == rows.len(),
        forall|i: int|
            0 <= i < rows.len() ==> repo_carries_row(
                #[trigger] spec_repos_from_rows(rows, now_ms)[i],
                rows[i],
            ),
    decreases rows.len(),
{
    if rows.len() > 0 {
        let prev = rows.drop_last();
        assert forall|i: int| 0 <= i < prev.len() implies (#[trigger] prev[i]).owner is Some by {
            assert(prev[i] == rows[i]);
        }
        lemma_repos_carry_their_rows(prev, now_ms);
        lemma_repo_carries_its_row(rows.last(), now_ms);
        assert forall|i: int| 0 <= i < rows.len() implies repo_carries_row(
            #[trigger] spec_repos_from_rows(rows, now_ms)[i],
            rows[i],
        ) by {
            if i < rows.len() - 1 {
                assert(prev[i] == rows[i]);
            }
        }
    }
}

fn instant_or_now(text: &str, now_ms: i64) -> (ms: i64)
    ensures
        ms == instant_or(text@, now_ms),
{
    match parse_rfc3339_millis(text) {
        Some(ms) => ms,
        None => now_ms,
    }
}

/// The repository a row describes (see `spec_repo_from_row`).
pub fn repo_from_row(row: StarredRepoRow, now_ms: i64) -> (r: Option<Repo>)
    ensures
        r == spec_repo_from_row(row, now_ms),
        r is Some <==> row.owner is Some,
        r matches Some(repo) ==> repo_carries_row(repo, row),
{
    proof {
        lemma_repo_carries_its_row(row, now_ms);
    }
    match row.owner {
        Some(owner) => {
            let created_at_ms = instant_or_now(row.created_at.as_str(), now_ms);
            let updated_at_ms = instant_or_now(row.updated_at.as_str(), now_ms);
            Some(
                Repo {
                    id: row.id,
                    github_id: row.github_id,
                    name: row.name,
                    full_name: row.full_name,
                    description: row.description,
                    url: row.url,
                    stars: row.stars as u32,
                    language: row.language,
                    owner,
                    is_private: row.is_private,
                    created_at_ms,
                    updated_at_ms,
                },
            )
        },
        None => None,
    }
}

/// The starred repositories of a user, from the query's rows (see
/// `spec_repos_from_rows`); times that are not RFC 3339 read as `now_ms`.
pub fn repos_from_rows(rows: Vec<StarredRepoRow>, now_ms: i64) -> (repos: Vec<Repo>)
    ensures
        repos@ == spec_repos_from_rows(rows@, now_ms),
        (forall|i: int| 0 <= i < rows@.len() ==> (#[trigger] rows@[i]).owner is Some) ==> {
            &&& repos@.len() == rows@.len()
            &&& forall|i: int|
                0 <= i < rows@.len() ==> repo_carries_row(#[trigger] repos@[i], rows@[i])
        },
{
    proof {
        if forall|i: int| 0 <= i < rows@.len() ==> (#[trigger] rows@[i]).owner is Some {
            lemma_repos_carry_their_rows(rows@, now_ms);
        }
    }
    let ghost all = rows@;
    let mut rows = rows;
    let mut repos: Vec<Repo> = Vec::new();
    let mut i: usize = 0;
    let n = rows.len();
    while rows.len() > 0
        invariant
            n == all.len(),
            i + rows@.len() == n,
            rows@ == all.subrange(i as int, n as int),
            repos@ == spec_repos_from_rows(all.subrange(0, i as int), now_ms),
        decreases rows@.len(),
    {
        let row = rows.remove(0);
        proof {
            let next = all.subrange(0, i + 1);
            assert(next.drop_last() =~= all.subrange(0, i as int));
            assert(next.last() == row);
        }
        match repo_from_row(row, now_ms) {
            Some(r) => repos.push(r),
            None => {},
        }
        i = i + 1;
    }
    proof {
        assert(all.subrange(0, n as int) =~= all);
    }
    repos
}

/// The github user linked to a user, from the rows of the lookup query: the
/// first row's link, where there is a row and it has one.
pub fn linked_github_user(rows: &Vec<Option<RecordRef>>) -> (r: Option<RecordRef>)
    ensures
        r == if rows@.len() == 0 {
            None::<RecordRef>
        } else {
            rows@[0]
        },
{
    if rows.len() == 0 {
        return None;
    }
    match &rows[0] {
        Some(id) => Some(id.clone()),
        None => None,
    }
}

/// Whether a change of the account table announces a new GitHub account:
/// the change creates the record and its provider is "github".
pub fn is_new_github_account(is_create: bool, account: &Account) -> (b: bool)
    ensures
        b == (is_create && account.provider_id@ == "github"@),
{
    is_create && account.provider_id == "github".to_owned()
}

/// The record of the GitHub user with this login (`github_user:login`).
pub fn github_user_record(login: &str) -> (r: RecordRef)
    ensures
        r.table@ == "github_user"@,
        r.key@ == login@,
{
    RecordRef::new("github_user", login)
}

/// The repository records for repository names ("owner/name" each).
pub fn repo_records(ids: &Vec<String>) -> (r: Vec<RecordRef>)
    ensures
        r@.len() == ids@.len(),
        forall|i: int|
            0 <= i < ids@.len() ==> (#[trigger] r@[i]).table@ == "repo"@ && r@[i].key@ == ids@[i]@,
{
    let mut out: Vec<RecordRef> = Vec::new();
    let mut i: usize = 0;
    while i < ids.len()
        invariant
            i <= ids@.len(),
            out@.len() == i,
            forall|j: int|
                0 <= j < i ==> (#[trigger] out@[j]).table@ == "repo"@ && out@[j].key@ == ids@[j]@,
        decreases ids@.len() - i,
    {
        out.push(RecordRef::new("repo", ids[i].as_str()));
        i = i + 1;
    }
    out
}

/// How many stale claims a reset cleared, from the records it returned
/// (counted as `u32`, wrapping).
pub fn reset_count(updated: usize) -> (n: u32)
    ensures
        n == updated as u32,
{
    updated as u32
}

} // verus!

use github_stars_server::models::{Account, RecordRef, RepoOwner};
use github_stars_server::surreal_client::{
    github_user_record, is_new_github_account, linked_github_user, repo_records, repos_from_rows,
    reset_count, StarredRepoRow,
};

fn row(name: &str, owner: bool, created: &str) -> StarredRepoRow {
    StarredRepoRow {
        id: RecordRef::new("repo", name),
        github_id: 9,
        name: name.to_string(),
        full_name: format!("o/{}", name),
        description: None,
        url: String::new(),
        stars: 5_000_000_000,
        language: Some("Rust".to_string()),
        owner: if owner { Some(RepoOwner { login: "o".to_string(), avatar_url: String::new() }) } else { None },
        is_private: false,
        created_at: created.to_string(),
        updated_at: "not a date".to_string(),
    }
}

#[test]
fn starred_rows_become_repositories() {
    let now = 123;
    let repos = repos_from_rows(
        vec![row("a", true, "2024-01-01T00:00:00Z"), row("b", false, ""), row("c", true, "2024-01-01T01:00:00+01:00")],
        now,
    );
    assert_eq!(repos.len(), 2);
    assert_eq!(repos[0].name, "a");
    assert_eq!(repos[0].created_at_ms, 1_704_067_200_000);
    assert_eq!(repos[0].updated_at_ms, now);
    assert_eq!(repos[0].stars, 5_000_000_000i64 as u32);
    assert_eq!(repos[1].name, "c");
    assert_eq!(repos[1].created_at_ms, 1_704_067_200_000);
}

#[test]
fn account_changes_and_records() {
    let account = |provider: &str| Account {
        id: RecordRef::new("account", "1"),
        access_token: "t".to_string(),
        user_id: RecordRef::new("user", "1"),
        provider_id: provider.to_string(),
        provider_account_id: "1".to_string(),
        scope: None,
        created_at_ms: 0,
        updated_at_ms: 0,
    };
    assert!(is_new_github_account(true, &account("github")));
    assert!(!is_new_github_account(false, &account("github")));
    assert!(!is_new_github_account(true, &account("google")));
    assert_eq!(github_user_record("octocat").to_text(), "github_user:octocat");
    let recs = repo_records(&vec!["a/b".to_string(), "c/d".to_string()]);
    assert_eq!(recs[1].to_text(), "repo:c/d");
    assert_eq!(linked_github_user(&vec![]), None);
    assert_eq!(linked_github_user(&vec![None, Some(RecordRef::new("github_user", "x"))]), None);
    assert_eq!(
        linked_github_user(&vec![Some(RecordRef::new("github_user", "x"))]),
        Some(RecordRef::new("github_user", "x"))
    );
    assert_eq!(reset_count(3), 3);
}

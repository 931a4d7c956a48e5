use chrono::Utc;
use github_stars_server::models::{
    Account, RateLimitState, RecordRef, Repo, RepoOwner, TokenActorStatus, TokenStatus, User,
};

fn now_ms() -> i64 {
    Utc::now().timestamp_millis()
}

#[test]
fn test_account_creation() {
    let now = now_ms();
    let account = Account {
        id: RecordRef::new("account", "123"),
        user_id: RecordRef::new("user", "456"),
        access_token: "token123".to_string(),
        provider_id: "github".to_string(),
        provider_account_id: "gh789".to_string(),
        scope: Some("repo,user".to_string()),
        created_at_ms: now,
        updated_at_ms: now,
    };

    assert_eq!(account.access_token, "token123");
    assert_eq!(account.provider_id, "github");
    assert_eq!(account.provider_account_id, "gh789");
}

#[test]
fn test_user_creation() {
    let now = now_ms();
    let user = User {
        id: RecordRef::new("user", "123"),
        name: Some("Test User".to_string()),
        email: "test@example.com".to_string(),
        email_verified: true,
        image: Some("https://example.com/avatar.jpg".to_string()),
        created_at_ms: now,
        updated_at_ms: now,
    };

    assert_eq!(user.email, "test@example.com");
    assert_eq!(user.name.unwrap(), "Test User");
    assert_eq!(user.image.unwrap(), "https://example.com/avatar.jpg");
    assert!(user.email_verified);
}

#[test]
fn test_repo_creation() {
    let now = now_ms();
    let repo = Repo {
        id: RecordRef::new("repo", "owner/test-repo"),
        github_id: 12345,
        name: "test-repo".to_string(),
        full_name: "owner/test-repo".to_string(),
        description: Some("Test repository".to_string()),
        url: "https://github.com/owner/test-repo".to_string(),
        stars: 100,
        language: Some("Rust".to_string()),
        owner: RepoOwner {
            login: "owner".to_string(),
            avatar_url: "https://github.com/owner.png".to_string(),
        },
        is_private: false,
        created_at_ms: now,
        updated_at_ms: now,
    };

    assert_eq!(repo.name, "test-repo");
    assert_eq!(repo.full_name, "owner/test-repo");
    assert_eq!(repo.stars, 100);
    assert_eq!(repo.owner.login, "owner");
    assert!(!repo.is_private);
}

#[test]
fn test_rate_limit_state() {
    let now = now_ms();
    let rate_limit = RateLimitState {
        remaining: 100,
        limit: 5000,
        reset_time_ms: now,
        is_limited: false,
    };

    assert_eq!(rate_limit.remaining, 100);
    assert_eq!(rate_limit.limit, 5000);
    assert_eq!(rate_limit.reset_time_ms, now);
    assert!(!rate_limit.is_limited);

    let limited = RateLimitState {
        remaining: 0,
        limit: 5000,
        reset_time_ms: now,
        is_limited: true,
    };

    assert_eq!(limited.remaining, 0);
    assert!(limited.is_limited);
}

#[test]
fn test_token_actor_status() {
    let now = now_ms();
    let status = TokenActorStatus {
        user_id: "user:123".to_string(),
        rate_limit: RateLimitState {
            remaining: 4500,
            limit: 5000,
            reset_time_ms: now,
            is_limited: false,
        },
        current_repo: Some("repo:owner/name".to_string()),
        repos_in_queue: 10,
        repos_processed: 5,
        last_activity_ms: now,
        status: TokenStatus::Active,
    };

    assert_eq!(status.user_id, "user:123");
    assert_eq!(status.repos_processed, 5);
    assert_eq!(status.repos_in_queue, 10);
    assert_eq!(status.rate_limit.remaining, 4500);
    assert!(!status.rate_limit.is_limited);
    assert_eq!(status.status, TokenStatus::Active);
}

#[test]
fn test_rate_limit_default() {
    let default_rate_limit = RateLimitState::default();

    assert_eq!(default_rate_limit.remaining, 5000);
    assert_eq!(default_rate_limit.limit, 5000);
    assert!(!default_rate_limit.is_limited);
    // Reset time should be approximately 1 hour from now
    let diff_minutes = (default_rate_limit.reset_time_ms - now_ms()) / 60_000;
    assert!(diff_minutes >= 59 && diff_minutes <= 61);
}

#[test]
fn test_token_status_enum() {
    assert_eq!(TokenStatus::Active, TokenStatus::Active);
    assert_ne!(TokenStatus::Active, TokenStatus::RateLimited);

    // The names the statuses are stored under
    let json = format!("\"{}\"", TokenStatus::Active.as_str());
    assert_eq!(json, "\"active\"");

    let json = format!("\"{}\"", TokenStatus::RateLimited.as_str());
    assert_eq!(json, "\"rate_limited\"");
}

#[test]
fn record_ref_text_joins_table_and_key() {
    assert_eq!(RecordRef::new("user", "123").to_text(), "user:123");
    let r = RecordRef::new("repo", "owner/name");
    assert_eq!(r.clone(), r);
}

#[test]
fn rate_limit_default_at_is_one_hour_later() {
    let s = RateLimitState::default_at(1_000);
    assert_eq!(s, RateLimitState { remaining: 5000, limit: 5000, reset_time_ms: 3_601_000, is_limited: false });
}

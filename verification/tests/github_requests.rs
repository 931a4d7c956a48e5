use github_stars_server::decimal::{decimal_string, parse_i64, parse_u32, parse_u64};
use github_stars_server::error::GitHubStarsError;
use github_stars_server::github::{
    accept_header, forbidden_error, has_more_pages, header_u32, not_found_error,
    rate_limit_exceeded_error, rate_limit_state_from_headers, repository_url,
    request_failed_error, split_repo_full_name, stargazers_page, stargazers_page_url,
    stargazers_url, RequestAttempts, ResponseStep,
};
use github_stars_server::models::RateLimitState;
use github_stars_server::types::GitHubUser;

#[test]
fn parses_integers_like_str_parse() {
    assert_eq!(parse_u32("42"), Some(42));
    assert_eq!(parse_u32("+7"), Some(7));
    assert_eq!(parse_u32("007"), Some(7));
    assert_eq!(parse_u32(""), None);
    assert_eq!(parse_u32("+"), None);
    assert_eq!(parse_u32("-1"), None);
    assert_eq!(parse_u32(" 1"), None);
    assert_eq!(parse_u32("4294967295"), Some(u32::MAX));
    assert_eq!(parse_u32("4294967296"), None);
    assert_eq!(parse_u64("18446744073709551615"), Some(u64::MAX));
    assert_eq!(parse_u64("18446744073709551616"), None);
    assert_eq!(parse_i64("-9223372036854775808"), Some(i64::MIN));
    assert_eq!(parse_i64("9223372036854775807"), Some(i64::MAX));
    assert_eq!(parse_i64("9223372036854775808"), None);
    assert_eq!(parse_i64("-"), None);
    assert_eq!(parse_i64("-12"), Some(-12));
    for text in ["12a", "١٢", "0x10", "1e3"] {
        assert_eq!(parse_u64(text), text.parse::<u64>().ok());
    }
}

#[test]
fn decimal_rendering_round_trips() {
    assert_eq!(decimal_string(0), "0");
    assert_eq!(decimal_string(1_234_567_890_123), "1234567890123");
    for n in [0u64, 9, 10, 99, 100, 65_535, u64::MAX] {
        assert_eq!(parse_u64(&decimal_string(n)), Some(n));
        assert_eq!(decimal_string(n), n.to_string());
    }
}

#[test]
fn request_addresses() {
    assert_eq!(repository_url("rust-lang", "rust"), "https://api.github.com/repos/rust-lang/rust");
    assert_eq!(
        stargazers_url("octocat", "Hello-World", 2),
        "https://api.github.com/repos/octocat/Hello-World/stargazers?per_page=100&page=2"
    );
    assert_eq!(
        stargazers_page_url("facebook/react", 3).unwrap(),
        "https://api.github.com/repos/facebook/react/stargazers?per_page=100&page=3"
    );
    assert_eq!(accept_header(), "application/vnd.github.v3+json");
}

#[test]
fn repository_names_split_at_their_one_slash() {
    assert_eq!(split_repo_full_name("a/b").unwrap(), ("a".to_string(), "b".to_string()));
    assert_eq!(split_repo_full_name("/x").unwrap(), ("".to_string(), "x".to_string()));
    match split_repo_full_name("a/b/c") {
        Err(GitHubStarsError::InvalidRepoUrl(m)) => {
            assert_eq!(m, "Invalid repository name format: a/b/c")
        }
        other => panic!("unexpected {:?}", other),
    }
    assert!(split_repo_full_name("").is_err());
}

#[test]
fn more_pages_follow_a_full_page() {
    assert!(has_more_pages(100));
    assert!(!has_more_pages(99));
    assert!(!has_more_pages(101));
    let rl = RateLimitState { remaining: 1, limit: 2, reset_time_ms: 3, is_limited: false };
    let users: Vec<GitHubUser> = (0..100)
        .map(|i| GitHubUser { login: format!("u{}", i), id: i, avatar_url: None, html_url: String::new() })
        .collect();
    let (u, more, r) = stargazers_page(users, rl);
    assert_eq!(u.len(), 100);
    assert!(more);
    assert_eq!(r, rl);
}

#[test]
fn rate_limit_state_from_response_headers() {
    let now = 1_000_000;
    let s = rate_limit_state_from_headers(Some("42"), Some("6000"), Some("1700000000"), now);
    assert_eq!(s, RateLimitState { remaining: 42, limit: 6000, reset_time_ms: 1_700_000_000_000, is_limited: false });

    let s = rate_limit_state_from_headers(None, None, None, now);
    assert_eq!(s, RateLimitState { remaining: 0, limit: 5000, reset_time_ms: now + 3_600_000, is_limited: true });

    let s = rate_limit_state_from_headers(Some("x"), Some("-1"), Some("abc"), now);
    assert_eq!(s.remaining, 0);
    assert_eq!(s.limit, 5000);
    assert_eq!(s.reset_time_ms, now + 3_600_000);

    // chrono has no date this far out: the reset reads as the present
    let s = rate_limit_state_from_headers(Some("1"), None, Some("9223372036854775807"), now);
    assert_eq!(s.reset_time_ms, now);
    assert!(!s.is_limited);
    assert_eq!(header_u32(Some("77")), Some(77));
}

#[test]
fn what_is_done_with_each_response() {
    let secs = 1_700_000_000u64;
    let now = secs as u128 * 1_000_000_000;
    let mut a = RequestAttempts::new();
    assert_eq!(a.on_response(200, 5000, 0, now), ResponseStep::Accept { pause_secs: 0 });
    assert_eq!(a.on_response(200, 9, 0, now), ResponseStep::Accept { pause_secs: 1 });
    assert_eq!(a.on_response(404, 10, 0, now), ResponseStep::NotFound);
    assert_eq!(a.on_response(403, 3, 0, now), ResponseStep::Forbidden);
    assert_eq!(
        a.on_response(403, 0, secs + 3600, now),
        ResponseStep::RateLimitExceeded { reset_secs: secs + 3600 }
    );
    assert_eq!(
        a.on_response(403, 0, secs + 30, now),
        ResponseStep::WaitAndRetry { wait_nanos: 31_000_000_000 }
    );
    assert_eq!(
        a.on_response(403, 0, secs + 60, now),
        ResponseStep::WaitAndRetry { wait_nanos: 61_000_000_000 }
    );
    assert_eq!(a.on_response(403, 0, secs - 5, now), ResponseStep::WaitAndRetry { wait_nanos: 1_000_000_000 });
    assert_eq!(a.retries, 0);
    for _ in 0..3 {
        assert_eq!(a.on_response(503, 10, 0, now), ResponseStep::RetryServerError { pause_secs: 2 });
    }
    assert_eq!(a.retries, 3);
    assert_eq!(a.on_response(503, 10, 0, now), ResponseStep::Failed);
    assert_eq!(a.retries, 3);
    assert_eq!(a.on_response(418, 10, 0, now), ResponseStep::Failed);
}

#[test]
fn errors_of_failed_requests() {
    assert_eq!(
        not_found_error("https://x/y").message(),
        "Resource not found: Resource not found: https://x/y"
    );
    assert_eq!(forbidden_error("nope").message(), "GitHub API error: Forbidden: nope");
    assert_eq!(
        request_failed_error(500, "oops").message(),
        "GitHub API error: API request failed with status 500 Internal Server Error: oops"
    );
    assert_eq!(
        request_failed_error(418, "").message(),
        "GitHub API error: API request failed with status 418 I'm a teapot: "
    );
    match rate_limit_exceeded_error(60) {
        GitHubStarsError::RateLimitExceeded(m) => {
            assert!(m.starts_with("API rate limit exceeded. Reset at: "));
            assert_eq!(
                m,
                format!(
                    "API rate limit exceeded. Reset at: {:?}",
                    std::time::UNIX_EPOCH + std::time::Duration::from_secs(60)
                )
            );
        }
        other => panic!("unexpected {:?}", other),
    }
}

#[test]
fn reset_instants_at_the_ends_of_chronos_range() {
    let now = 5_000;
    let last = 8_210_266_876_799i64;
    let first = -8_334_601_228_800i64;
    let s = rate_limit_state_from_headers(Some("1"), None, Some(&last.to_string()), now);
    assert_eq!(s.reset_time_ms, last * 1000);
    let s = rate_limit_state_from_headers(Some("1"), None, Some(&(last + 1).to_string()), now);
    assert_eq!(s.reset_time_ms, now);
    let s = rate_limit_state_from_headers(Some("1"), None, Some(&first.to_string()), now);
    assert_eq!(s.reset_time_ms, first * 1000);
    let s = rate_limit_state_from_headers(Some("1"), None, Some(&(first - 1).to_string()), now);
    assert_eq!(s.reset_time_ms, now);
}

#[test]
fn a_reset_the_system_clock_cannot_hold_is_shown_in_seconds() {
    match rate_limit_exceeded_error(u64::MAX) {
        GitHubStarsError::RateLimitExceeded(m) => assert_eq!(
            m,
            "API rate limit exceeded. Reset at: 18446744073709551615 seconds after the Unix epoch"
        ),
        other => panic!("unexpected {:?}", other),
    }
}

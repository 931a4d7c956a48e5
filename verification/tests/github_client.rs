use github_stars_server::error::GitHubStarsError;
use github_stars_server::github::{stargazers_page_url, GitHubClient};

#[test]
fn test_github_client_creation() {
    let client = GitHubClient::new("test_token".to_string());
    assert!(client.is_ok());
}

#[test]
fn test_invalid_repo_format() {
    let result = stargazers_page_url("invalid-format", 1);

    assert!(result.is_err());
    match result.unwrap_err() {
        GitHubStarsError::InvalidRepoUrl(_) => {} // Expected
        other => panic!("Expected InvalidRepoUrl error, got: {:?}", other),
    }
}

#[test]
fn client_authorization_uses_the_token() {
    let client = GitHubClient::new("abc".to_string()).expect("client");
    assert_eq!(client.authorization(), "token abc");
}

#[test]
fn client_identifies_itself_and_times_out_after_thirty_seconds() {
    let client = GitHubClient::new("abc".to_string()).expect("client");
    assert_eq!(client.user_agent(), "GitHub Stars Server/0.1.0");
    assert_eq!(client.timeout_secs(), 30);
}

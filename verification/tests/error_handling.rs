use github_stars_server::error::{GitHubStarsError, Result};

#[test]
fn test_error_display() {
    let error = GitHubStarsError::RateLimitExceeded("Rate limit hit".to_string());
    assert_eq!(error.message(), "Rate limit exceeded: Rate limit hit");

    let error = GitHubStarsError::NotFound("User not found".to_string());
    assert_eq!(error.message(), "Resource not found: User not found");

    let error = GitHubStarsError::ApiError("API failed".to_string());
    assert_eq!(error.message(), "GitHub API error: API failed");

    let error = GitHubStarsError::InvalidRepoUrl("Bad URL".to_string());
    assert_eq!(error.message(), "Invalid repository URL: Bad URL");
}

#[test]
fn test_error_conversion() {
    // Test that we can convert from other error types
    let io_error = std::io::Error::new(std::io::ErrorKind::NotFound, "file not found");
    let error: GitHubStarsError = io_error.into();
    assert!(matches!(error, GitHubStarsError::IoError(_)));
}

#[test]
fn test_result_type() {
    fn returns_result() -> Result<String> {
        Ok("success".to_string())
    }

    let result = returns_result();
    assert!(result.is_ok());
    assert_eq!(result.unwrap(), "success");

    fn returns_error() -> Result<String> {
        Err(GitHubStarsError::NotFound("Not found".to_string()))
    }

    let result = returns_error();
    assert!(result.is_err());
}

#[test]
fn error_messages_of_the_other_variants() {
    assert_eq!(GitHubStarsError::EnvError("x".to_string()).message(), "Environment error: x");
    assert_eq!(GitHubStarsError::AuthError("y".to_string()).message(), "Authentication error: y");
    let io: GitHubStarsError = std::io::Error::new(std::io::ErrorKind::Other, "disk").into();
    assert_eq!(io.message(), "IO error: disk");
    let json_err = serde_json::from_str::<u32>("x").unwrap_err();
    let text = json_err.to_string();
    let e: GitHubStarsError = json_err.into();
    assert_eq!(e.message(), format!("JSON parsing error: {}", text));
}

#[test]
fn api_error_with_detail_joins_context_and_detail() {
    let e = GitHubStarsError::api_with_detail("Failed to claim repo", "timeout");
    assert_eq!(e.message(), "GitHub API error: Failed to claim repo: timeout");
}

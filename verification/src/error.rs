//! The server's error type.
use vstd::prelude::*;
use vstd::std_specs::convert::FromSpecImpl;
use vstd::string::to_string_from_display_ensures;

verus! {

#[verifier::external_type_specification]
#[verifier::external_body]
pub struct ExReqwestError(reqwest::Error);

#[verifier::external_type_specification]
#[verifier::external_body]
pub struct ExJsonError(serde_json::Error);

#[verifier::external_type_specification]
#[verifier::external_body]
pub struct ExIoError(std::io::Error);

/// Everything that can go wrong while talking to GitHub or the database.
#[derive(Debug)]
pub enum GitHubStarsError {
    ApiError(String),
    RateLimitExceeded(String),
    InvalidRepoUrl(String),
    NetworkError(reqwest::Error),
    JsonError(serde_json::Error),
    IoError(std::io::Error),
    EnvError(String),
    AuthError(String),
    NotFound(String),
}

pub type Result<T> = std::result::Result<T, GitHubStarsError>;

impl GitHubStarsError {
    /// `t` is the text of this error as the server displays it: its
    /// variant's prefix followed by its message (for the variants that wrap
    /// another crate's error, by that error's `to_string`).
    pub open spec fn message_matches(&self, t: Seq<char>) -> bool {
        match self {
            GitHubStarsError::ApiError(m) => t == "GitHub API error: "@ + m@,
            GitHubStarsError::RateLimitExceeded(m) => t == "Rate limit exceeded: "@ + m@,
            GitHubStarsError::InvalidRepoUrl(m) => t == "Invalid repository URL: "@ + m@,
            GitHubStarsError::NetworkError(e) => exists|s: String|
                to_string_from_display_ensures::<reqwest::Error>(e, s) && t == "Network error: "@
                    + s@,
            GitHubStarsError::JsonError(e) => exists|s: String|
                to_string_from_display_ensures::<serde_json::Error>(e, s) && t
                    == "JSON parsing error: "@ + s@,
            GitHubStarsError::IoError(e) => exists|s: String|
                to_string_from_display_ensures::<std::io::Error>(e, s) && t == "IO error: "@
                    + s@,
            GitHubStarsError::EnvError(m) => t == "Environment error: "@ + m@,
            GitHubStarsError::AuthError(m) => t == "Authentication error: "@ + m@,
            GitHubStarsError::NotFound(m) => t == "Resource not found: "@ + m@,
        }
    }

    /// The text of the error, as the server displays it.
    pub fn message(&self) -> (r: String)
        ensures
            self.message_matches(r@),
    {
        let (prefix, detail): (&str, String) = match self {
            GitHubStarsError::ApiError(m) => ("GitHub API error: ", m.clone()),
            GitHubStarsError::RateLimitExceeded(m) => ("Rate limit exceeded: ", m.clone()),
            GitHubStarsError::InvalidRepoUrl(m) => ("Invalid repository URL: ", m.clone()),
            GitHubStarsError::NetworkError(e) => ("Network error: ", e.to_string()),
            GitHubStarsError::JsonError(e) => ("JSON parsing error: ", e.to_string()),
            GitHubStarsError::IoError(e) => ("IO error: ", e.to_string()),
            GitHubStarsError::EnvError(m) => ("Environment error: ", m.clone()),
            GitHubStarsError::AuthError(m) => ("Authentication error: ", m.clone()),
            GitHubStarsError::NotFound(m) => ("Resource not found: ", m.clone()),
        };
        let mut r = prefix.to_owned();
        r.append(detail.as_str());
        r
    }

    /// An `ApiError` whose text is `context`, a colon, a space and `detail`.
    pub fn api_with_detail(context: &str, detail: &str) -> (e: GitHubStarsError)
        ensures
            e matches GitHubStarsError::ApiError(m) && m@ == context@ + ": "@ + detail@,
    {
        let mut m = context.to_owned();
        m.append(": ");
        m.append(detail);
        GitHubStarsError::ApiError(m)
    }
}

impl From<reqwest::Error> for GitHubStarsError {
    fn from(e: reqwest::Error) -> (r: Self) {
        GitHubStarsError::NetworkError(e)
    }
}

impl FromSpecImpl<reqwest::Error> for GitHubStarsError {
    open spec fn obeys_from_spec() -> bool {
        true
    }

    open spec fn from_spec(v: reqwest::Error) -> Self {
        GitHubStarsError::NetworkError(v)
    }
}

impl From<serde_json::Error> for GitHubStarsError {
    fn from(e: serde_json::Error) -> (r: Self) {
        GitHubStarsError::JsonError(e)
    }
}

impl FromSpecImpl<serde_json::Error> for GitHubStarsError {
    open spec fn obeys_from_spec() -> bool {
        true
    }

    open spec fn from_spec(v: serde_json::Error) -> Self {
        GitHubStarsError::JsonError(v)
    }
}

impl From<std::io::Error> for GitHubStarsError {
    fn from(e: std::io::Error) -> (r: Self) {
        GitHubStarsError::IoError(e)
    }
}

impl FromSpecImpl<std::io::Error> for GitHubStarsError {
    open spec fn obeys_from_spec() -> bool {
        true
    }

    open spec fn from_spec(v: std::io::Error) -> Self {
        GitHubStarsError::IoError(v)
    }
}

} // verus!

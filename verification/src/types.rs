//! Shapes of the GitHub API's responses.
use vstd::prelude::*;

verus! {

/// A repository as the GitHub API describes it.
#[derive(Debug, Clone)]
pub struct GitHubRepo {
    pub name: String,
    pub full_name: String,
    pub html_url: String,
    pub stargazers_count: u32,
}

/// A user as the GitHub API lists it among a repository's stargazers.
#[derive(Debug, Clone)]
pub struct GitHubUser {
    pub login: String,
    pub id: u64,
    pub avatar_url: Option<String>,
    pub html_url: String,
}

/// A repository as the GitHub API lists it among a user's starred repositories.
#[derive(Debug, Clone)]
pub struct GitHubStarredRepo {
    pub name: String,
    pub full_name: String,
    pub html_url: String,
    pub stargazers_count: u32,
}

} // verus!

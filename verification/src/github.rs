//! The GitHub API client: request addresses, what to do with each response,
//! and the rate limit state that the response headers report.
use vstd::prelude::*;
use crate::clock::{
    utc_from_unix_secs, utc_millis_from_unix_secs, in_clock_range, CHRONO_MAX_UNIX_SECS,
    CHRONO_MIN_UNIX_SECS,
};
use crate::decimal::{
    lemma_parse_u32_of_decimal,
    decimal_chars, decimal_string, parse_i64, parse_u32, parse_u64, push_decimal, spec_parse_i64,
    spec_parse_u32, spec_parse_u64,
};
use crate::error::GitHubStarsError;
use crate::models::{RateLimitState, ONE_HOUR_MS, DEFAULT_RATE_LIMIT};
use crate::types::GitHubUser;

verus! {

#[verifier::external_type_specification]
#[verifier::external_body]
pub struct ExHttpClient(reqwest::Client);

/// Stargazers are fetched this many to a page.
pub const PER_PAGE: u32 = 100;

/// A server error is retried at most this many times per request.
pub const MAX_RETRIES: u32 = 3;

/// Below this many remaining requests, a successful response is followed by a pause.
pub const LOW_RATE_LIMIT: u32 = 10;

/// A rate limit reset further away than this (in nanoseconds) is not waited for.
pub const MAX_RATE_LIMIT_WAIT_NANOS: u128 = 60_000_000_000;

pub const NANOS_PER_SEC: u128 = 1_000_000_000;

/// The settings an HTTP client is built with.
struct HttpClientSettings {
    /// The `User-Agent` header sent with every request.
    user_agent: String,
    /// The time after which a request is given up, in seconds.
    timeout_secs: u64,
}

/// `s` is a valid HTTP header value: each byte of its UTF-8 encoding is a tab
/// or at least 32 and not 127 (http's `HeaderValue::from_str`). Every byte of
/// a non-ASCII character is at least 128.
pub open spec fn is_header_value(s: Seq<char>) -> bool {
    forall|i: int|
        0 <= i < s.len() ==> s[i] == '\t' || (32 <= (#[trigger] s[i]) as u32 && s[i] as u32 != 127)
}

/// `reqwest::Client::builder().user_agent(..).timeout(..).build()`, handing the
/// settings back with the client. Claims: with a valid header value as user
/// agent, the build succeeds. With this crate's reqwest features (no TLS
/// backend, no alternative resolver) `build` fails only on an error that a
/// builder method stored, and of the two methods called only `user_agent`
/// stores one, for a value `HeaderValue` refuses; `timeout` only records the
/// duration. That the client uses these settings is not stated: the client is
/// opaque.
#[verifier::external_body]
fn build_http_client(settings: HttpClientSettings) -> (r: Result<(reqwest::Client, HttpClientSettings), reqwest::Error>)
    requires
        is_header_value(settings.user_agent@),
    ensures
        r is Ok,
        r->Ok_0.1 == settings,
{
    let built = reqwest::Client::builder()
        .user_agent(settings.user_agent.as_str())
        .timeout(std::time::Duration::from_secs(settings.timeout_secs))
        .build();
    match built {
        Ok(client) => Ok((client, settings)),
        Err(e) => Err(e),
    }
}

/// A client of the GitHub REST API that sends requests with one access token.
pub struct GitHubClient {
    client: reqwest::Client,
    token: String,
    /// The settings `client` was built with.
    settings: HttpClientSettings,
}

impl GitHubClient {
    pub closed spec fn spec_token(&self) -> Seq<char> {
        self.token@
    }

    /// The `User-Agent` the HTTP client was built with.
    pub closed spec fn spec_user_agent(&self) -> Seq<char> {
        self.settings.user_agent@
    }

    /// The request timeout the HTTP client was built with, in seconds.
    pub closed spec fn spec_timeout_secs(&self) -> u64 {
        self.settings.timeout_secs
    }

    /// A client that identifies itself as "GitHub Stars Server/0.1.0" and gives
    /// up on a request after 30 seconds. Creating it succeeds for every token.
    pub fn new(token: String) -> (r: crate::error::Result<GitHubClient>)
        ensures
            r matches Ok(c) && {
                &&& c.spec_token() == token@
                &&& c.spec_user_agent() == "GitHub Stars Server/0.1.0"@
                &&& c.spec_timeout_secs() == 30
            },
    {
        let settings = HttpClientSettings {
            user_agent: "GitHub Stars Server/0.1.0".to_owned(),
            timeout_secs: 30,
        };
        proof {
            reveal_strlit("GitHub Stars Server/0.1.0");
        }
        match build_http_client(settings) {
            Ok((client, settings)) => Ok(GitHubClient { client, token, settings }),
            Err(e) => Err(GitHubStarsError::NetworkError(e)),
        }
    }

    /// The `User-Agent` the client sends.
    pub fn user_agent(&self) -> (s: &str)
        ensures
            s@ == self.spec_user_agent(),
    {
        self.settings.user_agent.as_str()
    }

    /// The time after which the client gives up on a request, in seconds.
    pub fn timeout_secs(&self) -> (t: u64)
        ensures
            t == self.spec_timeout_secs(),
    {
        self.settings.timeout_secs
    }

    pub closed spec fn spec_http(&self) -> reqwest::Client {
        self.client
    }

    /// The HTTP client this client sends its requests with.
    pub fn http(&self) -> (c: &reqwest::Client)
        ensures
            *c == self.spec_http(),
    {
        &self.client
    }

    /// The value of the `Authorization` header: "token " and the access token.
    pub fn authorization(&self) -> (s: String)
        ensures
            s@ == "token "@ + self.spec_token(),
    {
        let mut s = "token ".to_owned();
        s.append(self.token.as_str());
        s
    }
}

/// The `Accept` header the client sends.
pub fn accept_header() -> (s: &'static str)
    ensures
        s@ == "application/vnd.github.v3+json"@,
{
    "application/vnd.github.v3+json"
}

pub open spec fn spec_repository_url(owner: Seq<char>, repo: Seq<char>) -> Seq<char> {
    "https://api.github.com"@ + "/repos/"@ + owner + "/"@ + repo
}

/// The address of a repository's information.
pub fn repository_url(owner: &str, repo: &str) -> (s: String)
    ensures
        s@ == spec_repository_url(owner@, repo@),
{
    let mut s = "https://api.github.com".to_owned();
    s.append("/repos/");
    s.append(owner);
    s.append("/");
    s.append(repo);
    s
}

pub open spec fn spec_stargazers_url(owner: Seq<char>, repo: Seq<char>, page: u32) -> Seq<char> {
    spec_repository_url(owner, repo) + "/stargazers?per_page="@ + decimal_chars(PER_PAGE as nat)
        + "&page="@ + decimal_chars(page as nat)
}

/// A stargazers address names the repository and asks for page `page` with
/// 100 users to a page: the page number it ends with reads back as `page`.
pub proof fn lemma_stargazers_url_names_the_page(owner: Seq<char>, repo: Seq<char>, page: u32)
    ensures
        ({
            let digits = decimal_chars(page as nat);
            &&& spec_stargazers_url(owner, repo, page) == "https://api.github.com/repos/"@ + owner
                + "/"@ + repo + "/stargazers?per_page=100&page="@ + digits
            &&& spec_parse_u32(digits) == Some(page)
        }),
{
    lemma_parse_u32_of_decimal(page);
    lemma_parse_u32_of_decimal(100);
    reveal_strlit("https://api.github.com");
    reveal_strlit("/repos/");
    reveal_strlit("/");
    reveal_strlit("/stargazers?per_page=");
    reveal_strlit("&page=");
    reveal_strlit("https://api.github.com/repos/");
    reveal_strlit("/stargazers?per_page=100&page=");
    assert(decimal_chars(100) =~= seq!['1', '0', '0']) by {
        reveal_with_fuel(decimal_chars, 4);
    }
    assert(spec_stargazers_url(owner, repo, page) =~= "https://api.github.com/repos/"@ + owner
        + "/"@ + repo + "/stargazers?per_page=100&page="@ + decimal_chars(page as nat));
}

/// The address of one page of a repository's stargazers.
pub fn stargazers_url(owner: &str, repo: &str, page: u32) -> (s: String)
    ensures
        s@ == spec_stargazers_url(owner@, repo@, page),
{
    let mut s = repository_url(owner, repo);
    s.append("/stargazers?per_page=");
    push_decimal(&mut s, PER_PAGE as u64);
    s.append("&page=");
    push_decimal(&mut s, page as u64);
    s
}

/// `s` holds a `/` at position `k` and nowhere else.
pub open spec fn single_slash_at(s: Seq<char>, k: int) -> bool {
    &&& 0 <= k < s.len()
    &&& s[k] == '/'
    &&& forall|i: int| 0 <= i < s.len() && i != k ==> s[i] != '/'
}

pub open spec fn has_single_slash(s: Seq<char>) -> bool {
    exists|k: int| single_slash_at(s, k)
}

/// Splits "owner/name" at its one `/`. Fails with `InvalidRepoUrl` unless the
/// name holds exactly one `/` (either side may be empty).
pub fn split_repo_full_name(name: &str) -> (r: crate::error::Result<(String, String)>)
    ensures
        r is Ok <==> has_single_slash(name@),
        r matches Ok(parts) ==> ({
            let k = parts.0@.len() as int;
            &&& single_slash_at(name@, k)
            &&& parts.0@ == name@.subrange(0, k)
            &&& parts.1@ == name@.subrange(k + 1, name@.len() as int)
            &&& parts.0@ + seq!['/'] + parts.1@ == name@
        }),
        r matches Err(e) ==> (e matches GitHubStarsError::InvalidRepoUrl(m) && m@
            == "Invalid repository name format: "@ + name@),
{
    let len = name.unicode_len();
    let mut count: usize = 0;
    let mut first: usize = 0;
    let mut i: usize = 0;
    while i < len
        invariant
            len == name@.len(),
            i <= len,
            count <= i,
            count == 0 ==> forall|j: int| 0 <= j < i ==> name@[j] != '/',
            count >= 1 ==> first < i && name@[first as int] == '/' && forall|j: int|
                0 <= j < first ==> name@[j] != '/',
            count == 1 ==> forall|j: int| 0 <= j < i && j != first ==> name@[j] != '/',
            count >= 2 ==> exists|j: int| 0 <= j < i && j != first && name@[j] == '/',
        decreases len - i,
    {
        if name.get_char(i) == '/' {
            if count == 0 {
                first = i;
            }
            count = count + 1;
        }
        i = i + 1;
    }
    if count != 1 {
        proof {
            if count == 0 {
                assert(!has_single_slash(name@));
            } else {
                assert forall|k: int| !single_slash_at(name@, k) by {
                    if single_slash_at(name@, k) {
                        let j = choose|j: int| 0 <= j < i && j != first && name@[j] == '/';
                        assert(k == first);
                        assert(k == j);
                    }
                }
            }
        }
        let mut m = "Invalid repository name format: ".to_owned();
        m.append(name);
        return Err(GitHubStarsError::InvalidRepoUrl(m));
    }
    let owner = name.substring_char(0, first).to_owned();
    let repo = name.substring_char(first + 1, len).to_owned();
    proof {
        assert(single_slash_at(name@, first as int));
        assert(owner@ + seq!['/'] + repo@ =~= name@);
    }
    Ok((owner, repo))
}

/// Whether another page of stargazers may follow one that held `count` users.
pub fn has_more_pages(count: usize) -> (b: bool)
    ensures
        b == (count == PER_PAGE),
{
    count == PER_PAGE as usize
}

/// The request for page `page` of a repository's stargazers: the address to
/// fetch, or `InvalidRepoUrl` where the name is not "owner/name".
pub fn stargazers_page_url(repo_full_name: &str, page: u32) -> (r: crate::error::Result<String>)
    ensures
        r is Ok <==> has_single_slash(repo_full_name@),
        r matches Ok(url) ==> exists|k: int|
            single_slash_at(repo_full_name@, k) && url@ == spec_stargazers_url(
                repo_full_name@.subrange(0, k),
                repo_full_name@.subrange(k + 1, repo_full_name@.len() as int),
                page,
            ),
        r matches Err(e) ==> (e matches GitHubStarsError::InvalidRepoUrl(m) && m@
            == "Invalid repository name format: "@ + repo_full_name@),
{
    match split_repo_full_name(repo_full_name) {
        Ok((owner, repo)) => Ok(stargazers_url(owner.as_str(), repo.as_str(), page)),
        Err(e) => Err(e),
    }
}

/// One page of stargazers as the client hands it back: the users, whether
/// more may follow, and the rate limit state the response reported.
pub fn stargazers_page(users: Vec<GitHubUser>, rate_limit: RateLimitState) -> (r: (
    Vec<GitHubUser>,
    bool,
    RateLimitState,
))
    ensures
        r.0@ == users@,
        r.1 == (users@.len() == PER_PAGE),
        r.2 == rate_limit,
{
    let more = has_more_pages(users.len());
    (users, more, rate_limit)
}

/// The number a header holds, read as `u32`; `None` where the header is
/// absent or does not hold one.
pub fn header_u32(value: Option<&str>) -> (r: Option<u32>)
    ensures
        r == match value {
            Some(v) => spec_parse_u32(v@),
            None => None,
        },
{
    match value {
        Some(v) => parse_u32(v),
        None => None,
    }
}

/// The number a header holds, read as `u64`.
pub fn header_u64(value: Option<&str>) -> (r: Option<u64>)
    ensures
        r == match value {
            Some(v) => spec_parse_u64(v@),
            None => None,
        },
{
    match value {
        Some(v) => parse_u64(v),
        None => None,
    }
}

/// The number a header holds, read as `i64`.
pub fn header_i64(value: Option<&str>) -> (r: Option<i64>)
    ensures
        r == match value {
            Some(v) => spec_parse_i64(v@),
            None => None,
        },
{
    match value {
        Some(v) => parse_i64(v),
        None => None,
    }
}

pub open spec fn opt_or<T>(o: Option<T>, d: T) -> T {
    match o {
        Some(v) => v,
        None => d,
    }
}

pub open spec fn header_text(value: Option<&str>) -> Option<Seq<char>> {
    match value {
        Some(v) => Some(v@),
        None => None,
    }
}

pub open spec fn parsed_u32(value: Option<Seq<char>>) -> Option<u32> {
    match value {
        Some(v) => spec_parse_u32(v),
        None => None,
    }
}

pub open spec fn parsed_i64(value: Option<Seq<char>>) -> Option<i64> {
    match value {
        Some(v) => spec_parse_i64(v),
        None => None,
    }
}

/// The rate limit state that `X-RateLimit-Remaining`, `X-RateLimit-Limit`
/// and `X-RateLimit-Reset` report, read when the clock shows `now_ms`.
pub open spec fn spec_rate_limit_state(
    remaining: Option<Seq<char>>,
    limit: Option<Seq<char>>,
    reset: Option<Seq<char>>,
    now_ms: i64,
) -> RateLimitState {
    let rem = opt_or(parsed_u32(remaining), 0u32);
    RateLimitState {
        remaining: rem,
        limit: opt_or(parsed_u32(limit), 5000u32),
        reset_time_ms: match parsed_i64(reset) {
            Some(ts) => opt_or(utc_millis_from_unix_secs(ts), now_ms),
            None => (now_ms + ONE_HOUR_MS) as i64,
        },
        is_limited: rem == 0,
    }
}

/// What the rate limit headers report: the remaining requests and the
/// allowance are the numbers their headers hold (0 and 5000 where a header is
/// absent), the worker is limited exactly when no requests remain, and the
/// reset is the header's Unix seconds (an hour from `now_ms` where absent).
pub proof fn lemma_rate_limit_headers(
    remaining: Option<Seq<char>>,
    limit: Option<Seq<char>>,
    reset: Option<Seq<char>>,
    now_ms: i64,
)
    requires
        in_clock_range(now_ms),
    ensures
        ({
            let s = spec_rate_limit_state(remaining, limit, reset, now_ms);
            &&& remaining matches Some(t) ==> (spec_parse_u32(t) matches Some(n) ==> s.remaining
                == n)
            &&& remaining is None ==> s.remaining == 0
            &&& s.is_limited <==> s.remaining == 0
            &&& limit matches Some(t) ==> (spec_parse_u32(t) matches Some(n) ==> s.limit == n)
            &&& limit is None ==> s.limit == 5000
            &&& reset matches Some(t) ==> (spec_parse_i64(t) matches Some(secs) ==> (
            CHRONO_MIN_UNIX_SECS <= secs <= CHRONO_MAX_UNIX_SECS ==> s.reset_time_ms == secs
                * 1000))
            &&& reset is None ==> s.reset_time_ms == now_ms + ONE_HOUR_MS
        }),
{
}

/// The rate limit state a response reports in its headers (each given as its
/// text, or `None` where it is absent or not visible ASCII): remaining
/// requests (0 when unreadable), the allowance (5000 when unreadable), and
/// the reset instant (the header's Unix seconds; the present where chrono
/// finds them out of range; an hour from the present where unreadable).
pub fn rate_limit_state_from_headers(
    remaining: Option<&str>,
    limit: Option<&str>,
    reset: Option<&str>,
    now_ms: i64,
) -> (s: RateLimitState)
    requires
        in_clock_range(now_ms),
    ensures
        s == spec_rate_limit_state(
            header_text(remaining),
            header_text(limit),
            header_text(reset),
            now_ms,
        ),
        s.is_limited <==> s.remaining == 0,
{
    let rem = match header_u32(remaining) {
        Some(v) => v,
        None => 0,
    };
    let lim = match header_u32(limit) {
        Some(v) => v,
        None => DEFAULT_RATE_LIMIT,
    };
    let reset_ms = match header_i64(reset) {
        Some(ts) => match utc_from_unix_secs(ts) {
            Some(ms) => ms,
            None => now_ms,
        },
        None => now_ms + ONE_HOUR_MS,
    };
    RateLimitState { remaining: rem, limit: lim, reset_time_ms: reset_ms, is_limited: rem == 0 }
}

/// What to do with one response to a GitHub API request.
#[derive(Debug, Clone, Copy, PartialEq, Eq, Structural)]
pub enum ResponseStep {
    /// Success: hand the response back, after pausing `pause_secs` seconds.
    Accept { pause_secs: u64 },
    /// 404: fail with `NotFound`.
    NotFound,
    /// 403 with no requests left and a reset more than a minute away: fail.
    RateLimitExceeded { reset_secs: u64 },
    /// 403 with no requests left and a reset within a minute: wait, send again.
    WaitAndRetry { wait_nanos: u128 },
    /// 403 with requests left: read the body and fail with it.
    Forbidden,
    /// A server error with retries left: pause `pause_secs` seconds, send again.
    RetryServerError { pause_secs: u64 },
    /// Any other status: read the body and fail with it.
    Failed,
}

/// How long until `reset_secs` (Unix seconds) when the clock shows `now_nanos`;
/// zero where that instant has passed.
pub open spec fn spec_wait_nanos(reset_secs: u64, now_nanos: u128) -> int {
    let reset_ns = reset_secs * NANOS_PER_SEC;
    if reset_ns > now_nanos {
        reset_ns - now_nanos
    } else {
        0
    }
}

pub open spec fn spec_response_step(
    status: u16,
    remaining: u32,
    reset_secs: u64,
    now_nanos: u128,
    retries: u32,
) -> ResponseStep {
    if status == 200 {
        ResponseStep::Accept { pause_secs: if remaining < LOW_RATE_LIMIT { 1 } else { 0 } }
    } else if status == 404 {
        ResponseStep::NotFound
    } else if status == 403 {
        if remaining == 0 {
            let w = spec_wait_nanos(reset_secs, now_nanos);
            if w > MAX_RATE_LIMIT_WAIT_NANOS {
                ResponseStep::RateLimitExceeded { reset_secs }
            } else {
                ResponseStep::WaitAndRetry { wait_nanos: (w + NANOS_PER_SEC) as u128 }
            }
        } else {
            ResponseStep::Forbidden
        }
    } else if 500 <= status <= 599 && retries < MAX_RETRIES {
        ResponseStep::RetryServerError { pause_secs: 2 }
    } else {
        ResponseStep::Failed
    }
}

/// The retry state of one API request while it is being sent.
pub struct RequestAttempts {
    pub retries: u32,
}

impl RequestAttempts {
    /// A request is retried after a server error at most `MAX_RETRIES` times.
    pub open spec fn wf(&self) -> bool {
        self.retries <= MAX_RETRIES
    }

    pub fn new() -> (a: RequestAttempts)
        ensures
            a.wf(),
            a.retries == 0,
    {
        RequestAttempts { retries: 0 }
    }

    /// Decides what to do with a response of status `status` whose rate limit
    /// headers read `remaining` and `reset_secs` (0 where unreadable), received
    /// when the clock shows `now_nanos`. A server error retry is counted. A
    /// reset beyond `i64::MAX` seconds is no instant the system clock can hold.
    pub fn on_response(&mut self, status: u16, remaining: u32, reset_secs: u64, now_nanos: u128) -> (step:
        ResponseStep)
        requires
            old(self).wf(),
            status == 403 && remaining == 0 ==> reset_secs <= i64::MAX,
        ensures
            final(self).wf(),
            step == spec_response_step(status, remaining, reset_secs, now_nanos, old(self).retries),
            final(self).retries == if step is RetryServerError {
                old(self).retries + 1
            } else {
                old(self).retries as int
            },
            500 <= status <= 599 && old(self).retries < MAX_RETRIES ==> step
                == (ResponseStep::RetryServerError { pause_secs: 2 }) && final(self).retries
                == old(self).retries + 1,
    {
        proof {
            lemma_server_errors_are_retried(status, remaining, reset_secs, now_nanos, self.retries);
        }
        if status == 200 {
            ResponseStep::Accept { pause_secs: if remaining < LOW_RATE_LIMIT { 1 } else { 0 } }
        } else if status == 404 {
            ResponseStep::NotFound
        } else if status == 403 {
            if remaining == 0 {
                let reset_ns: u128 = reset_secs as u128 * NANOS_PER_SEC;
                let wait: u128 = if reset_ns > now_nanos {
                    reset_ns - now_nanos
                } else {
                    0
                };
                if wait > MAX_RATE_LIMIT_WAIT_NANOS {
                    ResponseStep::RateLimitExceeded { reset_secs }
                } else {
                    ResponseStep::WaitAndRetry { wait_nanos: wait + NANOS_PER_SEC }
                }
            } else {
                ResponseStep::Forbidden
            }
        } else if 500 <= status && status <= 599 && self.retries < MAX_RETRIES {
            self.retries = self.retries + 1;
            ResponseStep::RetryServerError { pause_secs: 2 }
        } else {
            ResponseStep::Failed
        }
    }
}

/// What each response leads to. A 200 is accepted, after a one-second pause
/// where fewer than `LOW_RATE_LIMIT` requests remain. A 404 fails with
/// `NotFound`. A 403 with requests left fails as forbidden; a 403 with none
/// left waits until one second past the reset and sends again where the reset
/// is at most a minute away, and fails as rate limited otherwise. The answer
/// to a response depends on the clock only for a 403 with no requests left.
pub proof fn lemma_response_steps(
    status: u16,
    remaining: u32,
    reset_secs: u64,
    now_nanos: u128,
    retries: u32,
)
    ensures
        status == 200 && remaining < LOW_RATE_LIMIT ==> spec_response_step(
            status,
            remaining,
            reset_secs,
            now_nanos,
            retries,
        ) == (ResponseStep::Accept { pause_secs: 1 }),
        status == 200 && remaining >= LOW_RATE_LIMIT ==> spec_response_step(
            status,
            remaining,
            reset_secs,
            now_nanos,
            retries,
        ) == (ResponseStep::Accept { pause_secs: 0 }),
        status == 404 ==> spec_response_step(status, remaining, reset_secs, now_nanos, retries)
            == ResponseStep::NotFound,
        status == 403 && remaining > 0 ==> spec_response_step(
            status,
            remaining,
            reset_secs,
            now_nanos,
            retries,
        ) == ResponseStep::Forbidden,
        status == 403 && remaining == 0 && reset_secs * NANOS_PER_SEC <= now_nanos ==> spec_response_step(
            status,
            remaining,
            reset_secs,
            now_nanos,
            retries,
        ) == (ResponseStep::WaitAndRetry { wait_nanos: NANOS_PER_SEC }),
        status == 403 && remaining == 0 && now_nanos < reset_secs * NANOS_PER_SEC <= now_nanos
            + MAX_RATE_LIMIT_WAIT_NANOS ==> spec_response_step(
            status,
            remaining,
            reset_secs,
            now_nanos,
            retries,
        ) == (ResponseStep::WaitAndRetry {
            wait_nanos: (reset_secs * NANOS_PER_SEC - now_nanos + NANOS_PER_SEC) as u128,
        }),
        status == 403 && remaining == 0 && reset_secs * NANOS_PER_SEC > now_nanos
            + MAX_RATE_LIMIT_WAIT_NANOS ==> spec_response_step(
            status,
            remaining,
            reset_secs,
            now_nanos,
            retries,
        ) == (ResponseStep::RateLimitExceeded { reset_secs }),
        status != 200 && status != 403 && status != 404 && !(500 <= status <= 599 && retries
            < MAX_RETRIES) ==> spec_response_step(status, remaining, reset_secs, now_nanos, retries)
            == ResponseStep::Failed,
        !(status == 403 && remaining == 0) ==> forall|other_now: u128|
            #[trigger] spec_response_step(status, remaining, reset_secs, other_now, retries)
                == spec_response_step(status, remaining, reset_secs, now_nanos, retries),
{
}

/// Server errors are retried: every response with a status from 500 to 599
/// that comes while fewer than `MAX_RETRIES` retries were used is answered by
/// pausing two seconds and sending again; once the retries are used up, such a
/// response fails the request.
pub proof fn lemma_server_errors_are_retried(
    status: u16,
    remaining: u32,
    reset_secs: u64,
    now_nanos: u128,
    retries: u32,
)
    ensures
        500 <= status <= 599 && retries < MAX_RETRIES ==> spec_response_step(
            status,
            remaining,
            reset_secs,
            now_nanos,
            retries,
        ) == (ResponseStep::RetryServerError { pause_secs: 2 }),
        500 <= status <= 599 && retries >= MAX_RETRIES ==> spec_response_step(
            status,
            remaining,
            reset_secs,
            now_nanos,
            retries,
        ) == ResponseStep::Failed,
        spec_response_step(status, remaining, reset_secs, now_nanos, retries) is RetryServerError
            ==> 500 <= status <= 599 && retries < MAX_RETRIES,
{
}

/// The `NotFound` error for a request to `url`.
pub fn not_found_error(url: &str) -> (e: GitHubStarsError)
    ensures
        e matches GitHubStarsError::NotFound(m) && m@ == "Resource not found: "@ + url@,
{
    let mut m = "Resource not found: ".to_owned();
    m.append(url);
    GitHubStarsError::NotFound(m)
}

/// `std::time::UNIX_EPOCH.checked_add(Duration::from_secs(secs))`, shown with
/// `format!("{:?}", ..)`: the debug text of the instant `secs` seconds after the
/// epoch, or `None` where the platform's `SystemTime` cannot hold that instant.
/// Neither the text nor where `None` comes is stated: both depend on the
/// platform.
#[verifier::external_body]
fn system_time_debug_text(secs: u64) -> Option<String> {
    match std::time::UNIX_EPOCH.checked_add(std::time::Duration::from_secs(secs)) {
        Some(t) => Some(format!("{:?}", t)),
        None => None,
    }
}

/// The `RateLimitExceeded` error for a reset at `reset_secs` Unix seconds: the
/// reset instant as the system clock shows it, or, where the system clock
/// cannot hold it, the seconds themselves.
pub fn rate_limit_exceeded_error(reset_secs: u64) -> (e: GitHubStarsError)
    ensures
        e matches GitHubStarsError::RateLimitExceeded(m) && exists|t: Seq<char>|
            m@ == "API rate limit exceeded. Reset at: "@ + t,
{
    let mut m = "API rate limit exceeded. Reset at: ".to_owned();
    let ghost prefix = m@;
    match system_time_debug_text(reset_secs) {
        Some(t) => {
            m.append(t.as_str());
            assert(m@ == prefix + t@);
        },
        None => {
            push_decimal(&mut m, reset_secs);
            m.append(" seconds after the Unix epoch");
            assert(m@ == prefix + (decimal_chars(reset_secs as nat)
                + " seconds after the Unix epoch"@));
        },
    }
    GitHubStarsError::RateLimitExceeded(m)
}

/// The error for a 403 response with requests left, whose body is `body`.
pub fn forbidden_error(body: &str) -> (e: GitHubStarsError)
    ensures
        e matches GitHubStarsError::ApiError(m) && m@ == "Forbidden: "@ + body@,
{
    let mut m = "Forbidden: ".to_owned();
    m.append(body);
    GitHubStarsError::ApiError(m)
}

/// The canonical reason of an HTTP status that `reqwest::StatusCode` shows
/// after its code (`canonical_reason`, or "<unknown status code>").
pub uninterp spec fn status_reason(code: u16) -> Seq<char>;

/// `reqwest::StatusCode::from_u16(code)` displayed with `to_string`. Claims:
/// the text is the code in decimal, a space, and the name above applied to
/// `code` (http's `Display` writes `"{} {}"` of the two). `from_u16` accepts
/// exactly the codes 100 to 999; others are left out.
#[verifier::external_body]
fn status_text(code: u16) -> (s: String)
    requires
        100 <= code <= 999,
    ensures
        s@ == decimal_chars(code as nat) + " "@ + status_reason(code),
{
    match reqwest::StatusCode::from_u16(code) {
        Ok(c) => c.to_string(),
        Err(_) => String::new(),
    }
}

/// The error for a response with status `code` and body `body` that is
/// neither success, 403, 404 nor a retried server error.
pub fn request_failed_error(code: u16, body: &str) -> (e: GitHubStarsError)
    requires
        100 <= code <= 999,
    ensures
        e matches GitHubStarsError::ApiError(m) && m@ == "API request failed with status "@
            + decimal_chars(code as nat) + " "@ + status_reason(code) + ": "@ + body@,
{
    let mut m = "API request failed with status ".to_owned();
    let t = status_text(code);
    m.append(t.as_str());
    m.append(": ");
    m.append(body);
    GitHubStarsError::ApiError(m)
}

} // verus!

//! API key authentication of the admin routes.
use vstd::prelude::*;

verus! {

/// What is done with a request, by its `Authorization` header.
#[derive(Debug, Clone, Copy, PartialEq, Eq, Structural)]
pub enum AuthDecision {
    /// Pass the request on.
    Allow,
    /// A bearer token was given, but not the API key.
    InvalidApiKey,
    /// No header, an unreadable one, or one that is neither form.
    MissingOrInvalidHeader,
}

pub open spec fn is_bearer(h: Seq<char>) -> bool {
    h.len() >= 7 && h.subrange(0, 7) == "Bearer "@
}

pub open spec fn spec_authorize(header: Option<Seq<char>>, api_key: Seq<char>) -> AuthDecision {
    match header {
        Some(h) => if is_bearer(h) {
            if h.subrange(7, h.len() as int) == api_key {
                AuthDecision::Allow
            } else {
                AuthDecision::InvalidApiKey
            }
        } else if h == api_key {
            AuthDecision::Allow
        } else {
            AuthDecision::MissingOrInvalidHeader
        },
        None => AuthDecision::MissingOrInvalidHeader,
    }
}

pub open spec fn header_view(header: Option<&str>) -> Option<Seq<char>> {
    match header {
        Some(h) => Some(h@),
        None => None,
    }
}

/// Decides on a request whose `Authorization` header reads `header` (`None`
/// where absent or not visible ASCII): "Bearer " followed by the API key, or
/// the bare API key, lets it through. A bearer header with another token is
/// refused as an invalid key, whatever follows "Bearer ".
pub fn authorize(header: Option<&str>, api_key: &str) -> (d: AuthDecision)
    ensures
        d == spec_authorize(header_view(header), api_key@),
{
    match header {
        Some(h) => {
            let len = h.unicode_len();
            let key = api_key.to_owned();
            let bearer = len >= 7 && h.substring_char(0, 7).to_owned() == "Bearer ".to_owned();
            if bearer {
                let token = h.substring_char(7, len).to_owned();
                if token == key {
                    AuthDecision::Allow
                } else {
                    AuthDecision::InvalidApiKey
                }
            } else if h.to_owned() == key {
                AuthDecision::Allow
            } else {
                AuthDecision::MissingOrInvalidHeader
            }
        },
        None => AuthDecision::MissingOrInvalidHeader,
    }
}

impl AuthDecision {
    /// The error a refused request is answered with (status 401); `None` for
    /// a request that passes.
    pub fn error_message(&self) -> (m: Option<&'static str>)
        ensures
            match self {
                AuthDecision::Allow => m is None,
                AuthDecision::InvalidApiKey => m matches Some(t) && t@ == "Invalid API key"@,
                AuthDecision::MissingOrInvalidHeader => m matches Some(t) && t@
                    == "Missing or invalid Authorization header"@,
            },
    {
        match self {
            AuthDecision::Allow => None,
            AuthDecision::InvalidApiKey => Some("Invalid API key"),
            AuthDecision::MissingOrInvalidHeader => Some("Missing or invalid Authorization header"),
        }
    }
}

/// A request refused here is answered with this HTTP status.
pub const UNAUTHORIZED: u16 = 401;

/// Authentication law: a request passes exactly when its header is the API
/// key, alone or after "Bearer ", except that a header that starts with
/// "Bearer " passes only with the key after it.
pub proof fn lemma_authorize_allows(header: Option<Seq<char>>, api_key: Seq<char>)
    ensures
        spec_authorize(header, api_key) == AuthDecision::Allow <==> (header matches Some(h) && (
        if is_bearer(h) {
            h == "Bearer "@ + api_key
        } else {
            h == api_key
        })),
{
    if let Some(h) = header {
        if is_bearer(h) {
            assert(h =~= h.subrange(0, 7) + h.subrange(7, h.len() as int));
            if h == "Bearer "@ + api_key {
                assert(("Bearer "@ + api_key).subrange(0, 7) =~= "Bearer "@) by {
                    reveal_strlit("Bearer ");
                }
                assert(h.subrange(7, h.len() as int) =~= api_key) by {
                    reveal_strlit("Bearer ");
                }
            }
        }
    }
}

} // verus!

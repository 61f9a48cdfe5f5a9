use vstd::prelude::*;
use vstd::string::StringSliceAdditionalSpecFns;
use vstd::string::StringExecFns;
use crate::text::{contains_bytes, contains_seq};

verus! {

/// One entry of a result page: three positional strings, the first being the
/// host (or URL) of the match.
pub type Entry = [String; 3];

/// A successful result page as the search API returns it.
#[derive(Debug)]
pub struct SearchResponse {
    pub error: bool,
    pub consumed_fpoint: u8,
    pub required_fpoints: u8,
    pub tip: String,
    pub size: u32,
    pub page: u32,
    pub mode: String,
    pub query: String,
    pub results: Vec<Entry>,
}

/// The generic error envelope of the search API.
#[derive(Debug)]
pub struct ErrorResponse {
    pub error: bool,
    pub errmsg: String,
}

/// Why a request, or a whole search, failed.
#[derive(Debug)]
pub enum SearchError {
    /// The transport failed; the text is the client's description.
    RequestError(String),
    /// The body did not have the expected shape; the text is the decoder's description.
    JsonError(String),
    /// The server throttled the request or answered with its error envelope.
    LimitExceeded(String),
    /// The server rejected the query, or the first page reported an error.
    InvalidQuery,
    /// A concurrency slot could not be obtained.
    SemaphoreError,
}

/// HTTP status "too many requests".
pub const STATUS_TOO_MANY_REQUESTS: u16 = 429;

/// HTTP status "bad request".
pub const STATUS_BAD_REQUEST: u16 = 400;

/// HTTP status "not found".
pub const STATUS_NOT_FOUND: u16 = 404;

/// Seconds to wait after a "too many requests" answer before reporting it.
pub const RATE_LIMIT_BACKOFF_SECS: u64 = 5;

/// What to do with a response once its status and body are known.
#[derive(Debug, Clone, Copy, PartialEq, Eq, Structural)]
pub enum Verdict {
    /// Throttled: wait the backoff, then fail the request.
    Backoff,
    /// The query was rejected.
    Reject,
    /// The body is the error envelope: decode it as an `ErrorResponse`.
    DecodeError,
    /// The body is a result page: decode it as a `SearchResponse`.
    DecodePage,
}

/// A response after the work its verdict asked for: the decoded body where
/// one was to be decoded, or the decoder's complaint.
#[derive(Debug)]
pub enum Reply {
    Throttled,
    Rejected,
    ErrorBody(Result<ErrorResponse, String>),
    PageBody(Result<SearchResponse, String>),
}

/// The bytes of the field name that marks the error envelope.
pub open spec fn marker_bytes() -> Seq<u8> {
    seq![0x65u8, 0x72u8, 0x72u8, 0x6du8, 0x73u8, 0x67u8]
}

/// The body holds the error-envelope marker somewhere.
pub open spec fn has_marker(body: Seq<u8>) -> bool {
    contains_seq(body, marker_bytes())
}

/// The verdict on a response with the given status and body bytes.
pub open spec fn verdict_of(status: u16, body: Seq<u8>) -> Verdict {
    if status == STATUS_TOO_MANY_REQUESTS {
        Verdict::Backoff
    } else if status == STATUS_BAD_REQUEST || status == STATUS_NOT_FOUND {
        Verdict::Reject
    } else if has_marker(body) {
        Verdict::DecodeError
    } else {
        Verdict::DecodePage
    }
}

/// The text reported when the server throttles a request.
pub open spec fn rate_limit_text() -> Seq<char> {
    seq!['R', 'a', 't', 'e', ' ', 'l', 'i', 'm', 'i', 't', ' ', 'e', 'x', 'c', 'e', 'e', 'd', 'e', 'd']
}

/// `r` is the result of one request whose reply was `reply`.
pub open spec fn is_outcome(reply: Reply, r: Result<SearchResponse, SearchError>) -> bool {
    match reply {
        Reply::Throttled => r matches Err(SearchError::LimitExceeded(t)) && t@ == rate_limit_text(),
        Reply::Rejected => r matches Err(SearchError::InvalidQuery),
        Reply::ErrorBody(Ok(e)) => r matches Err(SearchError::LimitExceeded(t)) && t == e.errmsg,
        Reply::ErrorBody(Err(c)) => r matches Err(SearchError::JsonError(t)) && t == c,
        Reply::PageBody(Ok(p)) => r matches Ok(q) && q == p,
        Reply::PageBody(Err(c)) => r matches Err(SearchError::JsonError(t)) && t == c,
    }
}

/// Whether the body holds the error-envelope marker.
pub fn contains_marker(body: &str) -> (r: bool)
    ensures
        r == has_marker(body.spec_bytes()),
{
    let marker: [u8; 6] = [0x65u8, 0x72u8, 0x72u8, 0x6du8, 0x73u8, 0x67u8];
    proof {
        assert(marker@ =~= marker_bytes());
    }
    contains_bytes(body.as_bytes(), marker.as_slice())
}

/// Decides what a response calls for: throttling and rejection go by the
/// status alone; otherwise a body holding the error-envelope marker is the
/// error envelope, and any other body a result page.
pub fn classify(status: u16, body: &str) -> (v: Verdict)
    ensures
        v == verdict_of(status, body.spec_bytes()),
{
    if status == STATUS_TOO_MANY_REQUESTS {
        Verdict::Backoff
    } else if status == STATUS_BAD_REQUEST || status == STATUS_NOT_FOUND {
        Verdict::Reject
    } else if contains_marker(body) {
        Verdict::DecodeError
    } else {
        Verdict::DecodePage
    }
}

/// The result of one request: a throttled request fails with
/// `LimitExceeded("Rate limit exceeded")`, a rejected one with `InvalidQuery`,
/// a decoded error envelope with `LimitExceeded` of its message, a decoded
/// page succeeds, and a body that did not decode fails with `JsonError`.
pub fn outcome(reply: Reply) -> (r: Result<SearchResponse, SearchError>)
    ensures
        is_outcome(reply, r),
{
    match reply {
        Reply::Throttled => {
            let t = String::from_str("Rate limit exceeded");
            proof {
                reveal_strlit("Rate limit exceeded");
                assert(t@ =~= rate_limit_text());
            }
            Err(SearchError::LimitExceeded(t))
        },
        Reply::Rejected => Err(SearchError::InvalidQuery),
        Reply::ErrorBody(Ok(e)) => Err(SearchError::LimitExceeded(e.errmsg)),
        Reply::ErrorBody(Err(c)) => Err(SearchError::JsonError(c)),
        Reply::PageBody(Ok(p)) => Ok(p),
        Reply::PageBody(Err(c)) => Err(SearchError::JsonError(c)),
    }
}

} // verus!

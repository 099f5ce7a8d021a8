//! What the shell asks of the daemon over HTTP, and how it reads the answers.
//!
//! The shell sends the requests described here and reports how each exchange
//! ended; the functions of this module turn that report into the payload's
//! go-ahead or into the error that the user sees.

use crate::status::{code_digits, is_success_code, status_text, HttpStatus};
use vstd::prelude::*;

verus! {

/// The number of results asked for when a search names no limit.
pub const DEFAULT_LIMIT: i32 = 10;

/// The seconds after which a liveness probe gives up.
pub const PROBE_TIMEOUT_SECS: u64 = 2;

/// The address of the daemon's search endpoint.
pub open spec fn search_url() -> Seq<char> {
    "http://127.0.0.1:8000/search"@
}

/// The address of the daemon's statistics endpoint, which also serves as its
/// health endpoint.
pub open spec fn stats_url() -> Seq<char> {
    "http://127.0.0.1:8000/stats"@
}

/// The address of the daemon's tag listing.
pub open spec fn tags_url() -> Seq<char> {
    "http://127.0.0.1:8000/tags"@
}

/// The three queries that the shell forwards to the daemon.
#[derive(Clone, Copy, Debug, PartialEq, Eq, Structural)]
pub enum Operation {
    Search,
    Stats,
    Tags,
}

impl Operation {
    /// The words that open the message of a status failure of this query.
    pub open spec fn failure_prefix(self) -> Seq<char> {
        match self {
            Operation::Search => "Search failed with status: "@,
            Operation::Stats => "Stats failed with status: "@,
            Operation::Tags => "Tags failed with status: "@,
        }
    }
}

/// The HTTP method of a request.
#[derive(Clone, Copy, Debug, PartialEq, Eq, Structural)]
pub enum Method {
    Get,
    Post,
}

/// The body of a search request: the query text and the number of results
/// wanted. It travels as a JSON object with the members `query` and `limit`.
#[derive(Clone, Debug, PartialEq, Eq)]
pub struct SearchBody {
    pub query: String,
    pub limit: i32,
}

/// A request to the daemon, as mathematical values.
pub struct RequestView {
    pub method: Method,
    pub url: Seq<char>,
    pub timeout_secs: Option<u64>,
    pub body: Option<(Seq<char>, i32)>,
}

/// A request to the daemon.
#[derive(Clone, Debug, PartialEq, Eq)]
pub struct Request {
    pub method: Method,
    pub url: String,
    /// The seconds after which the exchange is given up, if it is limited.
    pub timeout_secs: Option<u64>,
    pub body: Option<SearchBody>,
}

impl View for Request {
    type V = RequestView;

    open spec fn view(&self) -> RequestView {
        RequestView {
            method: self.method,
            url: self.url@,
            timeout_secs: self.timeout_secs,
            body: match self.body {
                Some(body) => Some((body.query@, body.limit)),
                None => None,
            },
        }
    }
}

/// The limit that a search runs with: the one given, or the default.
pub open spec fn effective_limit_spec(limit: Option<i32>) -> i32 {
    match limit {
        Some(limit) => limit,
        None => DEFAULT_LIMIT,
    }
}

/// The limit that a search runs with: the one given, or the default.
pub fn effective_limit(limit: Option<i32>) -> (effective: i32)
    ensures
        effective == effective_limit_spec(limit),
{
    match limit {
        Some(limit) => limit,
        None => DEFAULT_LIMIT,
    }
}

/// The request that submits a search.
pub fn search_request(query: String, limit: Option<i32>) -> (request: Request)
    ensures
        request@ == (RequestView {
            method: Method::Post,
            url: search_url(),
            timeout_secs: None,
            body: Some((query@, effective_limit_spec(limit))),
        }),
{
    Request {
        method: Method::Post,
        url: String::from_str("http://127.0.0.1:8000/search"),
        timeout_secs: None,
        body: Some(SearchBody { query, limit: effective_limit(limit) }),
    }
}

/// The request that fetches the aggregate statistics.
pub fn stats_request() -> (request: Request)
    ensures
        request@ == (RequestView {
            method: Method::Get,
            url: stats_url(),
            timeout_secs: None,
            body: None,
        }),
{
    Request {
        method: Method::Get,
        url: String::from_str("http://127.0.0.1:8000/stats"),
        timeout_secs: None,
        body: None,
    }
}

/// The request that fetches the tag listing.
pub fn tags_request() -> (request: Request)
    ensures
        request@ == (RequestView {
            method: Method::Get,
            url: tags_url(),
            timeout_secs: None,
            body: None,
        }),
{
    Request {
        method: Method::Get,
        url: String::from_str("http://127.0.0.1:8000/tags"),
        timeout_secs: None,
        body: None,
    }
}

/// The request of a liveness probe: the health endpoint, given up after a
/// short while.
pub fn probe_request() -> (request: Request)
    ensures
        request@ == (RequestView {
            method: Method::Get,
            url: stats_url(),
            timeout_secs: Some(PROBE_TIMEOUT_SECS),
            body: None,
        }),
{
    Request {
        method: Method::Get,
        url: String::from_str("http://127.0.0.1:8000/stats"),
        timeout_secs: Some(PROBE_TIMEOUT_SECS),
        body: None,
    }
}

/// The request of a readiness probe during a launch: the health endpoint,
/// with no limit of its own.
pub fn readiness_request() -> (request: Request)
    ensures
        request@ == (RequestView {
            method: Method::Get,
            url: stats_url(),
            timeout_secs: None,
            body: None,
        }),
{
    stats_request()
}

/// How one HTTP exchange with the daemon ended, before any body is read.
#[derive(Clone, Debug, PartialEq, Eq)]
pub enum Reply {
    /// No response arrived: the connection failed or timed out.
    Unreachable { reason: String },
    /// A response arrived with this status.
    Answered { status: HttpStatus },
}

impl Reply {
    /// Whether a response arrived and its status is in the 2xx class.
    pub open spec fn succeeded(self) -> bool {
        self matches Reply::Answered { status } && is_success_code(status.code())
    }

    /// Whether the daemon counts as reachable after this exchange: any 2xx
    /// response does, every other status and every transport failure does not.
    pub fn is_reachable(&self) -> (reachable: bool)
        ensures
            reachable == self.succeeded(),
    {
        match self {
            Reply::Unreachable { .. } => false,
            Reply::Answered { status } => status.is_success(),
        }
    }
}

/// Why a query failed.
#[derive(Clone, Debug, PartialEq, Eq)]
pub enum QueryError {
    /// The daemon could not be reached.
    ConnectionFailure { reason: String },
    /// The daemon answered with a status outside the 2xx class.
    StatusFailure { operation: Operation, status: HttpStatus },
    /// The payload does not have the expected shape.
    DecodeFailure { reason: String },
}

impl QueryError {
    /// The text of the error as shown to the user.
    pub open spec fn message_spec(self) -> Seq<char> {
        match self {
            QueryError::ConnectionFailure { reason } => "Failed to connect to daemon: "@ + reason@,
            QueryError::StatusFailure { operation, status } => operation.failure_prefix()
                + status_text(status.code()),
            QueryError::DecodeFailure { reason } => "Failed to parse response: "@ + reason@,
        }
    }

    /// The text of the error as shown to the user. The message of a status
    /// failure carries the status: the three digits of its code stand right
    /// behind the opening words.
    pub fn message(&self) -> (text: String)
        ensures
            text@ == self.message_spec(),
            self matches QueryError::StatusFailure { operation, status } ==> {
                let start = operation.failure_prefix().len() as int;
                &&& text@.len() >= start + 3
                &&& text@.subrange(start, start + 3) == code_digits(status.code())
            },
    {
        match self {
            QueryError::ConnectionFailure { reason } => {
                String::from_str("Failed to connect to daemon: ").concat(reason.as_str())
            },
            QueryError::StatusFailure { operation, status } => {
                let prefix = match operation {
                    Operation::Search => String::from_str("Search failed with status: "),
                    Operation::Stats => String::from_str("Stats failed with status: "),
                    Operation::Tags => String::from_str("Tags failed with status: "),
                };
                let shown = status.text();
                let text = prefix.concat(shown.as_str());
                proof {
                    let start = operation.failure_prefix().len() as int;
                    assert(text@.subrange(start, start + 3) =~= shown@.subrange(0, 3));
                }
                text
            },
            QueryError::DecodeFailure { reason } => {
                String::from_str("Failed to parse response: ").concat(reason.as_str())
            },
        }
    }
}

/// What a reply means for a query: a transport failure is a connection
/// failure, a status outside the 2xx class is a status failure that carries
/// the status, and a 2xx status lets the query go on to its payload.
pub open spec fn check_reply_spec(operation: Operation, reply: Reply) -> Result<
    HttpStatus,
    QueryError,
> {
    match reply {
        Reply::Unreachable { reason } => Err(QueryError::ConnectionFailure { reason }),
        Reply::Answered { status } => if is_success_code(status.code()) {
            Ok(status)
        } else {
            Err(QueryError::StatusFailure { operation, status })
        },
    }
}

/// Decides whether a query may go on to read its payload.
pub fn check_reply(operation: Operation, reply: Reply) -> (checked: Result<HttpStatus, QueryError>)
    ensures
        checked == check_reply_spec(operation, reply),
        checked.is_ok() <==> reply.succeeded(),
{
    match reply {
        Reply::Unreachable { reason } => Err(QueryError::ConnectionFailure { reason }),
        Reply::Answered { status } => if status.is_success() {
            Ok(status)
        } else {
            Err(QueryError::StatusFailure { operation, status })
        },
    }
}

/// Ends a query once its payload has been read: a payload that was decoded
/// is handed on unchanged, and a decoding failure becomes the query's error,
/// carrying what the decoder said.
pub fn decoded_or_failure<T>(decoded: Result<T, String>) -> (result: Result<T, QueryError>)
    ensures
        match decoded {
            Ok(payload) => result == Ok::<T, QueryError>(payload),
            Err(reason) => result == Err::<T, QueryError>(QueryError::DecodeFailure { reason }),
        },
{
    match decoded {
        Ok(payload) => Ok(payload),
        Err(reason) => Err(QueryError::DecodeFailure { reason }),
    }
}

/// The three kinds of query error never share a message: whatever the
/// reasons, the query and the status, the texts differ.
pub proof fn law_error_messages_differ(
    operation: Operation,
    status: HttpStatus,
    connect_reason: String,
    decode_reason: String,
)
    ensures
        (QueryError::DecodeFailure { reason: decode_reason }).message_spec() != (
        QueryError::StatusFailure { operation, status }).message_spec(),
        (QueryError::ConnectionFailure { reason: connect_reason }).message_spec() != (
        QueryError::StatusFailure { operation, status }).message_spec(),
        (QueryError::ConnectionFailure { reason: connect_reason }).message_spec() != (
        QueryError::DecodeFailure { reason: decode_reason }).message_spec(),
{
    reveal_strlit("Failed to connect to daemon: ");
    reveal_strlit("Failed to parse response: ");
    reveal_strlit("Search failed with status: ");
    reveal_strlit("Stats failed with status: ");
    reveal_strlit("Tags failed with status: ");
    let connect = (QueryError::ConnectionFailure { reason: connect_reason }).message_spec();
    let decode = (QueryError::DecodeFailure { reason: decode_reason }).message_spec();
    let failed = (QueryError::StatusFailure { operation, status }).message_spec();
    assert(connect[0] == 'F' && connect[10] == 'c');
    assert(decode[0] == 'F' && decode[10] == 'p');
    assert(failed[0] == 'S' || failed[0] == 'T');
}

} // verus!

//! What the library asks of the HTTP layer and how it reads the replies: a
//! request is a method, a URL and query parameters; a reply is a status code
//! with a body, or a transport failure.
use vstd::prelude::*;
use vstd::string::*;
use crate::decode::{DecodeError, DecodeFault};
use crate::text::ends_with_slash;

verus! {

/// An HTTP method.
#[derive(Clone, Copy, Debug, PartialEq, Eq, Structural)]
pub enum Method {
    Get,
    Post,
    Put,
    Delete,
}

/// A request to send: the body, where the operation has one, is added by the
/// caller.
#[derive(Debug, PartialEq)]
pub struct Request {
    pub method: Method,
    pub url: String,
    pub query: Vec<(String, String)>,
}

/// The model of a [`Request`].
pub struct RequestV {
    pub method: Method,
    pub url: Seq<char>,
    pub query: Seq<(Seq<char>, Seq<char>)>,
}

impl View for Request {
    type V = RequestV;

    open spec fn view(&self) -> RequestV {
        RequestV {
            method: self.method,
            url: self.url@,
            query: self.query@.map_values(|q: (String, String)| (q.0@, q.1@)),
        }
    }
}

/// What came back for a request.
#[derive(Debug, PartialEq)]
pub enum HttpReply {
    /// The server answered with this status code and body.
    Response { status: u16, body: String },
    /// The server could not be reached (network, DNS, TLS, timeout).
    Transport { message: String },
}

/// The model of an [`HttpReply`].
pub enum ReplyV {
    Response(u16, Seq<char>),
    Transport(Seq<char>),
}

impl View for HttpReply {
    type V = ReplyV;

    open spec fn view(&self) -> ReplyV {
        match self {
            HttpReply::Response { status, body } => ReplyV::Response(*status, body@),
            HttpReply::Transport { message } => ReplyV::Transport(message@),
        }
    }
}

/// Why an operation against the cluster failed.
#[derive(Debug, PartialEq)]
pub enum ApiError {
    /// The host could not be reached.
    Transport { message: String },
    /// The named connector does not exist.
    ConnectorNotFound { name: String },
    /// The task of the named connector does not exist.
    TaskNotFound { connector: String, task: usize },
    /// The server refused the request; its body is kept verbatim.
    ServerRejected { status: u16, body: String },
    /// The server accepted the request but its body has not the expected shape.
    MalformedResponse { error: DecodeError, body: String },
}

/// The model of an [`ApiError`].
pub enum ApiFault {
    Transport(Seq<char>),
    ConnectorNotFound(Seq<char>),
    TaskNotFound(Seq<char>, nat),
    ServerRejected(u16, Seq<char>),
    MalformedResponse(DecodeFault, Seq<char>),
}

impl View for ApiError {
    type V = ApiFault;

    open spec fn view(&self) -> ApiFault {
        match self {
            ApiError::Transport { message } => ApiFault::Transport(message@),
            ApiError::ConnectorNotFound { name } => ApiFault::ConnectorNotFound(name@),
            ApiError::TaskNotFound { connector, task } => ApiFault::TaskNotFound(connector@, *task as nat),
            ApiError::ServerRejected { status, body } => ApiFault::ServerRejected(*status, body@),
            ApiError::MalformedResponse { error, body } => ApiFault::MalformedResponse(error@, body@),
        }
    }
}

/// A status code of the success class.
pub open spec fn is_success(status: u16) -> bool {
    200 <= status < 300
}

/// The body of a reply; a transport failure has none.
pub open spec fn reply_body(r: ReplyV) -> Seq<char> {
    match r {
        ReplyV::Response(_, body) => body,
        ReplyV::Transport(_) => Seq::empty(),
    }
}

/// How a reply fails, if it does: a transport failure is reported as such; a
/// 404 becomes `not_found` where the operation names an entity; any other
/// status outside the success class is the server's refusal, with its body.
pub open spec fn reply_failure(r: ReplyV, not_found: Option<ApiFault>) -> Option<ApiFault> {
    match r {
        ReplyV::Transport(m) => Some(ApiFault::Transport(m)),
        ReplyV::Response(status, body) => if is_success(status) {
            None
        } else if status == 404 && not_found is Some {
            not_found
        } else {
            Some(ApiFault::ServerRejected(status, body))
        },
    }
}

/// The outcome of an operation whose successful reply decodes to `d`.
pub open spec fn outcome<T>(r: ReplyV, d: Result<T, DecodeFault>, not_found: Option<ApiFault>) -> Result<T, ApiFault> {
    match reply_failure(r, not_found) {
        Some(f) => Err(f),
        None => match d {
            Ok(x) => Ok(x),
            Err(e) => Err(ApiFault::MalformedResponse(e, reply_body(r))),
        },
    }
}

/// The model of an optional error.
pub open spec fn opt_fault(e: Option<ApiError>) -> Option<ApiFault> {
    match e {
        Some(x) => Some(x@),
        None => None,
    }
}

/// The body of a successful reply, or how the reply fails.
pub fn check_reply(reply: &HttpReply, not_found: Option<ApiError>) -> (r: Result<&String, ApiError>)
    ensures
        match r {
            Ok(b) => reply_failure(reply@, opt_fault(not_found)) is None && b@ == reply_body(reply@),
            Err(e) => reply_failure(reply@, opt_fault(not_found)) == Some(e@),
        },
{
    match reply {
        HttpReply::Transport { message } => Err(ApiError::Transport { message: message.clone() }),
        HttpReply::Response { status, body } => {
            if 200 <= *status && *status < 300 {
                Ok(body)
            } else if *status == 404 && not_found.is_some() {
                match not_found {
                    Some(e) => Err(e),
                    None => Err(ApiError::ServerRejected { status: *status, body: body.clone() }),
                }
            } else {
                Err(ApiError::ServerRejected { status: *status, body: body.clone() })
            }
        },
    }
}

/// `base` followed by `/` and `segment`, with no second `/` where `base`
/// already ends with one.
pub open spec fn join_path(base: Seq<char>, segment: Seq<char>) -> Seq<char> {
    if base.len() > 0 && base.last() == '/' {
        base + segment
    } else {
        base + "/"@ + segment
    }
}

/// Appends a path segment to a base URI, inserting `/` only where it is absent.
pub fn join(base: &str, segment: &str) -> (r: String)
    ensures
        r@ == join_path(base@, segment@),
{
    let mut s: String = base.to_owned();
    if !ends_with_slash(base) {
        s.append("/");
    }
    s.append(segment);
    s
}

/// The text of a digit.
pub open spec fn digit_text(d: nat) -> Seq<char> {
    if d == 0 { "0"@ } else if d == 1 { "1"@ } else if d == 2 { "2"@ } else if d == 3 { "3"@ } else if d == 4 {
        "4"@
    } else if d == 5 { "5"@ } else if d == 6 { "6"@ } else if d == 7 { "7"@ } else if d == 8 { "8"@ } else { "9"@ }
}

/// The decimal text of a number, without leading zeros.
pub open spec fn decimal_text(n: nat) -> Seq<char>
    decreases n,
{
    if n < 10 {
        digit_text(n)
    } else {
        decimal_text(n / 10) + digit_text(n % 10)
    }
}

fn digit(d: usize) -> (r: &'static str)
    requires
        d < 10,
    ensures
        r@ == digit_text(d as nat),
{
    if d == 0 { "0" } else if d == 1 { "1" } else if d == 2 { "2" } else if d == 3 { "3" } else if d == 4 {
        "4"
    } else if d == 5 { "5" } else if d == 6 { "6" } else if d == 7 { "7" } else if d == 8 { "8" } else { "9" }
}

/// The decimal text of a number.
pub fn decimal(n: usize) -> (r: String)
    ensures
        r@ == decimal_text(n as nat),
    decreases n,
{
    if n < 10 {
        digit(n).to_owned()
    } else {
        let mut s = decimal(n / 10);
        s.append(digit(n % 10));
        s
    }
}

/// The text of a boolean query value.
pub open spec fn bool_text(b: bool) -> Seq<char> {
    if b { "true"@ } else { "false"@ }
}

/// The text of a boolean query value: `true` or `false`.
pub fn bool_param(b: bool) -> (r: String)
    ensures
        r@ == bool_text(b),
{
    if b { "true".to_owned() } else { "false".to_owned() }
}

} // verus!

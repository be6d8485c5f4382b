//! Requests as values: what is sent to the controller and what becomes of
//! its answer. Sending is left to the caller.

use crate::config::{Config, Settings};
use crate::error::{Failure, RedfishError};
use vstd::prelude::*;
use vstd::string::*;

verus! {

/// The HTTP methods of the protocol.
#[derive(Clone, Copy, Debug, PartialEq, Eq, Structural)]
pub enum HTTPReqType {
    Get,
    Patch,
    Post,
    Put,
}

/// The name of a method on the wire.
pub open spec fn method_name(method: HTTPReqType) -> Seq<char> {
    match method {
        HTTPReqType::Get => "GET"@,
        HTTPReqType::Patch => "PATCH"@,
        HTTPReqType::Post => "POST"@,
        HTTPReqType::Put => "PUT"@,
    }
}

impl HTTPReqType {
    /// The name of the method on the wire.
    pub fn name(&self) -> (r: &'static str)
        ensures
            r@ == method_name(*self),
    {
        match self {
            HTTPReqType::Get => "GET",
            HTTPReqType::Patch => "PATCH",
            HTTPReqType::Post => "POST",
            HTTPReqType::Put => "PUT",
        }
    }

    /// Whether the method changes the controller's state.
    pub fn mutates(&self) -> (r: bool)
        ensures
            r == !(*self is Get),
    {
        match self {
            HTTPReqType::Get => false,
            _ => true,
        }
    }
}

/// One request, complete: the caller sends it as it stands, with HTTP Basic
/// authentication, verifies the certificate unless `insecure` is set, and
/// waits for the answer as long as `timeout` says, in seconds. A request
/// that runs out of time has failed as one that could not be sent.
#[derive(Debug)]
pub struct Request {
    pub method: HTTPReqType,
    pub url: String,
    pub user: String,
    pub passwd: String,
    pub insecure: bool,
    pub timeout: Option<u64>,
    pub body: Option<String>,
}

/// A request as a mathematical value.
pub struct Call {
    pub method: HTTPReqType,
    pub url: Seq<char>,
    pub user: Seq<char>,
    pub passwd: Seq<char>,
    pub insecure: bool,
    pub timeout: Option<u64>,
    pub body: Option<Seq<char>>,
}

impl DeepView for Request {
    type V = Call;

    open spec fn deep_view(&self) -> Call {
        Call {
            method: self.method,
            url: self.url@,
            user: self.user@,
            passwd: self.passwd@,
            insecure: self.insecure,
            timeout: self.timeout,
            body: self.body.deep_view(),
        }
    }
}

impl View for Request {
    type V = Call;

    open spec fn view(&self) -> Call {
        self.deep_view()
    }
}

/// What came of sending a request.
#[derive(Debug)]
pub enum Reply {
    /// No answer: the transport's description of what went wrong.
    Failed(String),
    /// An answer with its HTTP status and its body.
    Answer { status: u16, body: String },
}

/// A reply as a mathematical value.
pub enum Arrival {
    Failed(Seq<char>),
    Answer { status: u16, body: Seq<char> },
}

impl View for Reply {
    type V = Arrival;

    open spec fn view(&self) -> Arrival {
        match self {
            Reply::Failed(words) => Arrival::Failed(words@),
            Reply::Answer { status, body } => Arrival::Answer { status: *status, body: body@ },
        }
    }
}

/// The address of a resource: the scheme, the host, the path.
pub open spec fn endpoint(host: Seq<char>, path: Seq<char>) -> Seq<char> {
    "https://"@ + host + path
}

/// The request for a method, a path and a payload under a configuration.
/// A GET carries no payload.
pub open spec fn call(
    config: Settings,
    method: HTTPReqType,
    path: Seq<char>,
    data: Option<Seq<char>>,
) -> Call {
    Call {
        method,
        url: endpoint(config.host, path),
        user: config.user,
        passwd: config.passwd,
        insecure: config.insecure,
        timeout: config.timeout,
        body: if method is Get {
            None
        } else {
            data
        },
    }
}

/// Whether a status means success.
pub open spec fn accepted(status: u16) -> bool {
    200 <= status < 300
}

/// The body of a reply, or the failure that the reply stands for.
pub open spec fn received(reply: Arrival) -> Result<Seq<char>, Failure> {
    match reply {
        Arrival::Failed(words) => Err(Failure::Transport(words)),
        Arrival::Answer { status, body } => if accepted(status) {
            Ok(body)
        } else {
            Err(Failure::RequestFailed(status))
        },
    }
}

/// Builds the request for a method, a path below the host and a payload.
/// Every method but GET needs a payload.
pub fn do_http_request(
    config: &Config,
    req_type: HTTPReqType,
    uri: &str,
    data: Option<String>,
) -> (r: Request)
    requires
        !(req_type is Get) ==> data is Some,
    ensures
        r@ == call(config@, req_type, uri@, data.deep_view()),
{
    let mut url = String::from_str("https://");
    url.append(config.host.as_str());
    url.append(uri);
    let body = match req_type {
        HTTPReqType::Get => None,
        _ => data,
    };
    Request {
        method: req_type,
        url,
        user: config.user.clone(),
        passwd: config.passwd.clone(),
        insecure: config.insecure,
        timeout: config.timeout,
        body,
    }
}

/// Builds the request that reads the resource at a path.
pub fn do_get_request(config: &Config, uri: &str) -> (r: Request)
    ensures
        r@ == call(config@, HTTPReqType::Get, uri@, None),
{
    do_http_request(config, HTTPReqType::Get, uri, None)
}

/// Turns a reply into the body it carries, or into the failure it stands
/// for: no answer, or an answer with a status outside 200..=299.
pub fn receive(reply: Reply) -> (r: Result<String, RedfishError>)
    ensures
        match r {
            Ok(body) => received(reply@) == Ok::<Seq<char>, Failure>(body@),
            Err(e) => received(reply@) == Err::<Seq<char>, Failure>(e@),
        },
{
    match reply {
        Reply::Failed(words) => Err(RedfishError::Transport(words)),
        Reply::Answer { status, body } => {
            if 200 <= status && status < 300 {
                Ok(body)
            } else {
                Err(RedfishError::RequestFailed(status))
            }
        },
    }
}

/// What is traced before a request is sent.
pub open spec fn request_trace(call: Call) -> Seq<Seq<char>> {
    let first = "Sending "@ + method_name(call.method) + " Request: "@ + call.url;
    match call.body {
        Some(data) => seq![first, "Body:\n"@ + data],
        None => seq![first],
    }
}

/// The messages to trace before a request is sent: none unless tracing is
/// on, else the method with the address and, where there is one, the payload.
pub fn trace_request(config: &Config, request: &Request) -> (r: Vec<String>)
    ensures
        r.deep_view() == if config.debug {
            request_trace(request@)
        } else {
            Seq::<Seq<char>>::empty()
        },
{
    let mut out: Vec<String> = Vec::new();
    if config.debug {
        let mut first = String::from_str("Sending ");
        first.append(request.method.name());
        first.append(" Request: ");
        first.append(request.url.as_str());
        out.push(first);
        match &request.body {
            Some(data) => {
                let mut second = String::from_str("Body:\n");
                second.append(data.as_str());
                out.push(second);
            },
            None => {},
        }
    }
    out
}

/// What is traced after a reply: the body of an answer of success, and
/// nothing for any other reply.
pub open spec fn reply_trace(reply: Arrival) -> Option<Seq<char>> {
    match reply {
        Arrival::Answer { status, body } => if accepted(status) {
            Some("Response:\n"@ + body + "\n"@)
        } else {
            None
        },
        Arrival::Failed(_) => None,
    }
}

/// The message to trace after a reply: none unless tracing is on and the
/// reply is an answer of success, else the body of the answer.
pub fn trace_reply(config: &Config, reply: &Reply) -> (r: Option<String>)
    ensures
        r.deep_view() == if config.debug {
            reply_trace(reply@)
        } else {
            None::<Seq<char>>
        },
{
    if !config.debug {
        return None;
    }
    match reply {
        Reply::Answer { status, body } => {
            if 200 <= *status && *status < 300 {
                let mut out = String::from_str("Response:\n");
                out.append(body.as_str());
                out.append("\n");
                Some(out)
            } else {
                None
            }
        },
        Reply::Failed(_) => None,
    }
}

} // verus!

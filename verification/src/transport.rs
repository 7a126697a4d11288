//! Requests to the configuration API and what comes back from the transport.

use crate::status::StatusCode;
use vstd::prelude::*;
use vstd::string::StringExecFns;

verus! {

/// Where the staged settings are read.
pub const API_PENDING_URI: &'static str = "/settings/pending";

/// Where the staged settings are promoted to live.
pub const API_COMMIT_URI: &'static str = "/settings/commit";

/// The methods that the agent uses.
#[derive(Clone, Copy, Debug, PartialEq, Eq)]
pub enum Method {
    Get,
    Post,
}

impl Method {
    /// The method as it is written in a request.
    pub open spec fn spec_name(self) -> Seq<char> {
        match self {
            Method::Get => "GET"@,
            Method::Post => "POST"@,
        }
    }

    /// The method as it is written in a request.
    pub fn name(&self) -> (name: &'static str)
        ensures
            name@ == self.spec_name(),
    {
        match self {
            Method::Get => "GET",
            Method::Post => "POST",
        }
    }
}

/// One request to the API server.
#[derive(Debug, PartialEq, Eq)]
pub struct Request {
    pub method: Method,
    pub uri: String,
    pub data: Option<String>,
}

/// A request as a mathematical value.
pub ghost struct RequestView {
    pub method: Method,
    pub uri: Seq<char>,
    pub data: Option<Seq<char>>,
}

impl View for Request {
    type V = RequestView;

    open spec fn view(&self) -> RequestView {
        RequestView {
            method: self.method,
            uri: self.uri@,
            data: match self.data {
                Some(data) => Some(data@),
                None => None,
            },
        }
    }
}

impl Request {
    /// A request without a body.
    pub fn bare(method: Method, uri: &str) -> (request: Request)
        ensures
            request@ == (RequestView { method, uri: uri@, data: None }),
    {
        Request { method, uri: String::from_str(uri), data: None }
    }
}

/// Why the transport did not hand back a response with a success status.
#[derive(Debug, PartialEq, Eq)]
pub enum TransportError {
    /// The server answered, with a status that the transport took for a failure.
    ResponseStatus { code: StatusCode, body: String },
    /// The exchange did not complete: no status and no body were received.
    Incomplete { description: String },
}

/// What one request came to: status and body of the response, or the
/// transport's error.
pub type TransportResult = Result<(StatusCode, String), TransportError>;

/// What the decisions read of a transport result.
pub ghost enum Reply {
    /// The server answered with this status and body.
    Answered { code: u16, body: Seq<char> },
    /// The exchange did not complete.
    Unsent { description: Seq<char> },
}

/// The reply in a transport result. A status counts as the server's answer
/// whether the transport hands it back as a response or as an error.
pub open spec fn reply_of(result: TransportResult) -> Reply {
    match result {
        Ok((code, body)) => Reply::Answered { code: code@, body: body@ },
        Err(TransportError::ResponseStatus { code, body }) => Reply::Answered {
            code: code@,
            body: body@,
        },
        Err(TransportError::Incomplete { description }) => Reply::Unsent {
            description: description@,
        },
    }
}

} // verus!

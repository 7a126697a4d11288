//! The errors that end a run, and the line that reports each.

use crate::status::{spec_display, StatusCode};
use vstd::prelude::*;
use vstd::string::StringExecFns;

verus! {

/// What can keep the agent from committing the settings.
#[derive(Debug, PartialEq, Eq)]
pub enum SettingsCommitterError {
    /// The request did not reach the server, or no response came back.
    APIRequest { method: String, uri: String, source: String },
    /// The server answered the request with a status that is no success.
    APIResponse { method: String, uri: String, code: StatusCode, response_body: String },
    /// The logger could not be set up.
    Logger { source: String },
}

/// An error as a mathematical value.
pub ghost enum ErrorView {
    APIRequest { method: Seq<char>, uri: Seq<char>, source: Seq<char> },
    APIResponse { method: Seq<char>, uri: Seq<char>, code: u16, response_body: Seq<char> },
    Logger { source: Seq<char> },
}

impl View for SettingsCommitterError {
    type V = ErrorView;

    open spec fn view(&self) -> ErrorView {
        match self {
            SettingsCommitterError::APIRequest { method, uri, source } => ErrorView::APIRequest {
                method: method@,
                uri: uri@,
                source: source@,
            },
            SettingsCommitterError::APIResponse {
                method,
                uri,
                code,
                response_body,
            } => ErrorView::APIResponse {
                method: method@,
                uri: uri@,
                code: code@,
                response_body: response_body@,
            },
            SettingsCommitterError::Logger { source } => ErrorView::Logger { source: source@ },
        }
    }
}

/// The line that reports a refusal, given the status as it is printed.
pub open spec fn spec_refusal_line(
    status: Seq<char>,
    method: Seq<char>,
    uri: Seq<char>,
    response_body: Seq<char>,
) -> Seq<char> {
    "Error "@ + status + " when sending "@ + method + " to "@ + uri + ": "@ + response_body
}

impl ErrorView {
    /// The line that reports the error.
    pub open spec fn message(self) -> Seq<char> {
        match self {
            ErrorView::APIRequest { method, uri, source } => "Error sending "@ + method + " to "@
                + uri + ": "@ + source,
            ErrorView::APIResponse { method, uri, code, response_body } => spec_refusal_line(
                spec_display(code),
                method,
                uri,
                response_body,
            ),
            ErrorView::Logger { source } => "Logger setup error: "@ + source,
        }
    }
}

/// The line that reports a refusal, given the status as it is printed.
pub fn refusal_line(status: &str, method: &str, uri: &str, response_body: &str) -> (line: String)
    ensures
        line@ == spec_refusal_line(status@, method@, uri@, response_body@),
{
    let mut line = String::from_str("Error ");
    line.append(status);
    line.append(" when sending ");
    line.append(method);
    line.append(" to ");
    line.append(uri);
    line.append(": ");
    line.append(response_body);
    line
}

impl SettingsCommitterError {
    /// The line that reports the error.
    pub fn message(&self) -> (line: String)
        ensures
            line@ == self@.message(),
    {
        match self {
            SettingsCommitterError::APIRequest { method, uri, source } => {
                let mut line = String::from_str("Error sending ");
                line.append(method.as_str());
                line.append(" to ");
                line.append(uri.as_str());
                line.append(": ");
                line.append(source.as_str());
                line
            },
            SettingsCommitterError::APIResponse { method, uri, code, response_body } => {
                let status = code.to_text();
                refusal_line(
                    status.as_str(),
                    method.as_str(),
                    uri.as_str(),
                    response_body.as_str(),
                )
            },
            SettingsCommitterError::Logger { source } => {
                let mut line = String::from_str("Logger setup error: ");
                line.append(source.as_str());
                line
            },
        }
    }
}

} // verus!

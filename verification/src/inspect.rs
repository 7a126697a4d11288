//! The inspection: a look at the pending settings for the log's sake.
//!
//! Nothing depends on what the look finds. Whatever the transport hands back
//! for the read becomes one log record, and the run goes on to the commit.

use crate::level::Level;
use crate::record::{LogRecord, LogRecordView};
use crate::status::{spec_display, spec_is_success, StatusCode};
use crate::transport::{
    reply_of, Method, Reply, Request, RequestView, TransportError, TransportResult,
    API_PENDING_URI,
};
use std::collections::BTreeMap;
use vstd::prelude::*;
use vstd::string::StringExecFns;

verus! {

/// What `serde_json` makes of a body that is to be a map of settings: the map
/// as `Debug` prints it, its keys in order, or the text of the error for a body
/// that is no such map.
pub uninterp spec fn pending_parse(body: Seq<char>) -> Result<Seq<char>, Seq<char>>;

/// `serde_json::from_str`, asked for a map from strings to JSON values that
/// keeps its keys in order. Whether it reads the body as one, what `Debug`
/// prints of the map, and what `Display` prints of the error, depend on the
/// body alone: the map is walked by its keys, and the error holds a message and
/// a place in the body.
#[verifier::external_body]
fn parse_pending(body: &str) -> (parsed: Result<String, String>)
    ensures
        match parsed {
            Ok(settings) => pending_parse(body@) == Ok::<Seq<char>, Seq<char>>(settings@),
            Err(error) => pending_parse(body@) == Err::<Seq<char>, Seq<char>>(error@),
        },
{
    let parsed: serde_json::Result<BTreeMap<String, serde_json::Value>> =
        serde_json::from_str(body);
    match parsed {
        Ok(pending) => Ok(format!("{:?}", pending)),
        Err(error) => Err(error.to_string()),
    }
}

/// What the look at the pending settings found.
#[derive(Debug, PartialEq, Eq)]
pub enum Inspection {
    /// The pending settings, as they are printed in the log.
    Pending { settings: String },
    /// The read did not complete.
    Unsent { description: String },
    /// The server answered the read with a status that is no success.
    Refused { code: StatusCode, body: String },
    /// The server's answer is no map of settings.
    Unparsable { error: String },
}

/// An inspection as a mathematical value.
pub ghost enum InspectionView {
    Pending { settings: Seq<char> },
    Unsent { description: Seq<char> },
    Refused { code: u16, body: Seq<char> },
    Unparsable { error: Seq<char> },
}

impl View for Inspection {
    type V = InspectionView;

    open spec fn view(&self) -> InspectionView {
        match self {
            Inspection::Pending { settings } => InspectionView::Pending { settings: settings@ },
            Inspection::Unsent { description } => InspectionView::Unsent {
                description: description@,
            },
            Inspection::Refused { code, body } => InspectionView::Refused {
                code: code@,
                body: body@,
            },
            Inspection::Unparsable { error } => InspectionView::Unparsable { error: error@ },
        }
    }
}

/// The warning for a status that is no success, given the status as it is
/// printed.
pub open spec fn spec_refused_message(status: Seq<char>, body: Seq<char>) -> Seq<char> {
    "Got "@ + status + " when sending GET to "@ + API_PENDING_URI@ + ": "@ + body
}

impl InspectionView {
    /// The record that reports the inspection: the settings for those who debug,
    /// anything else as a warning with its cause.
    pub open spec fn record(self) -> LogRecordView {
        match self {
            InspectionView::Pending { settings } => LogRecordView {
                level: Level::Debug,
                message: "Pending settings: "@ + settings,
            },
            InspectionView::Unsent { description } => LogRecordView {
                level: Level::Warn,
                message: "Failed to GET pending settings from "@ + API_PENDING_URI@ + ": "@
                    + description,
            },
            InspectionView::Refused { code, body } => LogRecordView {
                level: Level::Warn,
                message: spec_refused_message(spec_display(code), body),
            },
            InspectionView::Unparsable { error } => LogRecordView {
                level: Level::Warn,
                message: "Failed to parse response from "@ + API_PENDING_URI@ + ": "@ + error,
            },
        }
    }
}

/// The request that reads the pending settings: a `GET` without a body.
pub open spec fn spec_pending_request() -> RequestView {
    RequestView { method: Method::Get, uri: API_PENDING_URI@, data: None }
}

/// What is logged before the read leaves.
pub open spec fn spec_pending_notice() -> LogRecordView {
    LogRecordView {
        level: Level::Debug,
        message: "GET-ing "@ + API_PENDING_URI@ + " to determine if there are pending settings"@,
    }
}

/// What the body of a successful read comes to, given what parsing it gave: the
/// settings as printed, or the parser's objection.
pub open spec fn spec_read_body(parsed: Result<Seq<char>, Seq<char>>) -> InspectionView {
    match parsed {
        Ok(settings) => InspectionView::Pending { settings },
        Err(error) => InspectionView::Unparsable { error },
    }
}

/// The inspection that a reply to the read calls for.
///
/// A reply that never came and a status that is no success each have their own
/// inspection. A body that came with a success status gives the settings as
/// they are printed, or the parser's objection where it is no map of settings.
pub open spec fn spec_inspection(reply: Reply) -> InspectionView {
    match reply {
        Reply::Unsent { description } => InspectionView::Unsent { description },
        Reply::Answered { code, body } => if !spec_is_success(code) {
            InspectionView::Refused { code, body }
        } else {
            spec_read_body(pending_parse(body))
        },
    }
}

/// Whether a reply to the read leaves the pending settings unseen: it never
/// came, its status is no success, or its body is no map of settings.
pub open spec fn spec_read_failed(reply: Reply) -> bool {
    match reply {
        Reply::Unsent { .. } => true,
        Reply::Answered { code, body } => !spec_is_success(code) || pending_parse(body) is Err,
    }
}

/// The request that reads the pending settings.
pub fn pending_request() -> (request: Request)
    ensures
        request@ == spec_pending_request(),
{
    Request::bare(Method::Get, API_PENDING_URI)
}

/// The record that announces the read.
pub fn pending_notice() -> (record: LogRecord)
    ensures
        record@ == spec_pending_notice(),
{
    let mut message = String::from_str("GET-ing ");
    message.append(API_PENDING_URI);
    message.append(" to determine if there are pending settings");
    LogRecord { level: Level::Debug, message }
}

/// The warning for a status that is no success, given the status as it is
/// printed.
pub fn refused_message(status: &str, body: &str) -> (message: String)
    ensures
        message@ == spec_refused_message(status@, body@),
{
    let mut message = String::from_str("Got ");
    message.append(status);
    message.append(" when sending GET to ");
    message.append(API_PENDING_URI);
    message.append(": ");
    message.append(body);
    message
}

/// The inspection for the body of a successful read, from what parsing it gave.
pub fn read_body(parsed: Result<String, String>) -> (inspection: Inspection)
    ensures
        inspection@ == spec_read_body(
            match parsed {
                Ok(settings) => Ok(settings@),
                Err(error) => Err(error@),
            },
        ),
{
    match parsed {
        Ok(settings) => Inspection::Pending { settings },
        Err(error) => Inspection::Unparsable { error },
    }
}

/// Looks at what the transport handed back for the read of the pending
/// settings. Every result has its inspection: none is an error of the run.
pub fn check_pending_settings(result: TransportResult) -> (inspection: Inspection)
    ensures
        inspection@ == spec_inspection(reply_of(result)),
{
    match result {
        Err(TransportError::Incomplete { description }) => Inspection::Unsent { description },
        Ok((code, body)) | Err(TransportError::ResponseStatus { code, body }) => {
            if !code.is_success() {
                Inspection::Refused { code, body }
            } else {
                read_body(parse_pending(body.as_str()))
            }
        },
    }
}

impl Inspection {
    /// The record that reports the inspection.
    pub fn record(&self) -> (record: LogRecord)
        ensures
            record@ == self@.record(),
    {
        match self {
            Inspection::Pending { settings } => {
                let mut message = String::from_str("Pending settings: ");
                message.append(settings.as_str());
                LogRecord { level: Level::Debug, message }
            },
            Inspection::Unsent { description } => {
                let mut message = String::from_str("Failed to GET pending settings from ");
                message.append(API_PENDING_URI);
                message.append(": ");
                message.append(description.as_str());
                LogRecord { level: Level::Warn, message }
            },
            Inspection::Refused { code, body } => {
                let status = code.to_text();
                let message = refused_message(status.as_str(), body.as_str());
                LogRecord { level: Level::Warn, message }
            },
            Inspection::Unparsable { error } => {
                let mut message = String::from_str("Failed to parse response from ");
                message.append(API_PENDING_URI);
                message.append(": ");
                message.append(error.as_str());
                LogRecord { level: Level::Warn, message }
            },
        }
    }
}

} // verus!

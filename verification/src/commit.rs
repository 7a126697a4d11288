//! The commit: what is asked of the server, and what its answer comes to.

use crate::error::{ErrorView, SettingsCommitterError};
use crate::level::Level;
use crate::record::{LogRecord, LogRecordView};
use crate::status::{
    decimal, lemma_decimal_begins_with_digit, reason_phrase, spec_display, spec_is_success,
    StatusCode,
};
use crate::text::{contains, lemma_contains_around, lemma_contains_middle};
use crate::transport::{
    reply_of, Method, Reply, Request, RequestView, TransportError, TransportResult,
    API_COMMIT_URI,
};
use vstd::prelude::*;
use vstd::string::StringExecFns;

verus! {

/// The status by which the server says that nothing was pending.
pub const NOTHING_PENDING: u16 = 422;

/// The exit code of a run that committed, or found nothing to commit.
pub const EXIT_SUCCESS: i32 = 0;

/// The exit code of a run whose commit failed.
pub const EXIT_FAILURE: i32 = 1;

/// How the commit ended.
#[derive(Debug, PartialEq, Eq)]
pub enum CommitOutcome {
    /// The server promoted the pending settings to live.
    Committed,
    /// The server had no pending settings to promote.
    NothingToCommit,
    /// The settings were not committed.
    Failed(SettingsCommitterError),
}

/// The outcome of a commit as a mathematical value.
pub ghost enum CommitOutcomeView {
    Committed,
    NothingToCommit,
    Failed(ErrorView),
}

impl View for CommitOutcome {
    type V = CommitOutcomeView;

    open spec fn view(&self) -> CommitOutcomeView {
        match self {
            CommitOutcome::Committed => CommitOutcomeView::Committed,
            CommitOutcome::NothingToCommit => CommitOutcomeView::NothingToCommit,
            CommitOutcome::Failed(error) => CommitOutcomeView::Failed(error@),
        }
    }
}

/// The request that commits: a `POST` without a body.
pub open spec fn spec_commit_request() -> RequestView {
    RequestView { method: Method::Post, uri: API_COMMIT_URI@, data: None }
}

/// What is logged before the commit request leaves.
pub open spec fn spec_commit_notice() -> LogRecordView {
    LogRecordView {
        level: Level::Debug,
        message: "POST-ing to "@ + API_COMMIT_URI@ + " to move pending settings to live"@,
    }
}

/// What is logged where the server had nothing to commit.
pub open spec fn spec_nothing_pending_notice() -> LogRecordView {
    LogRecordView {
        level: Level::Info,
        message: "settings-committer found no settings changes to commit"@,
    }
}

/// The outcome that a reply to the commit request comes to.
///
/// A reply that never came is a failure of the request. A status that reports
/// success commits. Of the other statuses one is no failure: with it the server
/// says that nothing was pending. Every other status is the server's refusal,
/// kept with the status and the body as they came.
pub open spec fn spec_commit(reply: Reply) -> CommitOutcomeView {
    match reply {
        Reply::Unsent { description } => CommitOutcomeView::Failed(
            ErrorView::APIRequest {
                method: Method::Post.spec_name(),
                uri: API_COMMIT_URI@,
                source: description,
            },
        ),
        Reply::Answered { code, body } => if spec_is_success(code) {
            CommitOutcomeView::Committed
        } else if code == NOTHING_PENDING {
            CommitOutcomeView::NothingToCommit
        } else {
            CommitOutcomeView::Failed(
                ErrorView::APIResponse {
                    method: Method::Post.spec_name(),
                    uri: API_COMMIT_URI@,
                    code,
                    response_body: body,
                },
            )
        },
    }
}

impl CommitOutcomeView {
    /// The exit code that the outcome asks of the process.
    pub open spec fn exit_code(self) -> i32 {
        match self {
            CommitOutcomeView::Failed(_) => EXIT_FAILURE,
            _ => EXIT_SUCCESS,
        }
    }

    /// What the outcome itself has logged, if anything.
    pub open spec fn notice(self) -> Option<LogRecordView> {
        match self {
            CommitOutcomeView::NothingToCommit => Some(spec_nothing_pending_notice()),
            _ => None,
        }
    }
}

/// The request that commits the pending settings.
pub fn commit_request() -> (request: Request)
    ensures
        request@ == spec_commit_request(),
{
    Request::bare(Method::Post, API_COMMIT_URI)
}

/// The record that announces the commit request.
pub fn commit_notice() -> (record: LogRecord)
    ensures
        record@ == spec_commit_notice(),
{
    let mut message = String::from_str("POST-ing to ");
    message.append(API_COMMIT_URI);
    message.append(" to move pending settings to live");
    LogRecord { level: Level::Debug, message }
}

/// The outcome for a status and a body that the server sent.
fn settle(code: StatusCode, body: String) -> (outcome: CommitOutcome)
    ensures
        outcome@ == spec_commit(Reply::Answered { code: code@, body: body@ }),
{
    if code.is_success() {
        CommitOutcome::Committed
    } else if code.as_u16() == NOTHING_PENDING {
        CommitOutcome::NothingToCommit
    } else {
        CommitOutcome::Failed(
            SettingsCommitterError::APIResponse {
                method: String::from_str(Method::Post.name()),
                uri: String::from_str(API_COMMIT_URI),
                code,
                response_body: body,
            },
        )
    }
}

/// Decides how the commit ended, from what the transport handed back for the
/// commit request.
pub fn commit_pending_settings(result: TransportResult) -> (outcome: CommitOutcome)
    ensures
        outcome@ == spec_commit(reply_of(result)),
{
    match result {
        Ok((code, body)) => settle(code, body),
        Err(TransportError::ResponseStatus { code, body }) => settle(code, body),
        Err(TransportError::Incomplete { description }) => CommitOutcome::Failed(
            SettingsCommitterError::APIRequest {
                method: String::from_str(Method::Post.name()),
                uri: String::from_str(API_COMMIT_URI),
                source: description,
            },
        ),
    }
}

impl CommitOutcome {
    /// The exit code that the outcome asks of the process.
    pub fn exit_code(&self) -> (code: i32)
        ensures
            code == self@.exit_code(),
    {
        match self {
            CommitOutcome::Failed(_) => EXIT_FAILURE,
            _ => EXIT_SUCCESS,
        }
    }

    /// The record that the outcome itself has logged, if any.
    pub fn notice(&self) -> (record: Option<LogRecord>)
        ensures
            record is Some <==> self@.notice() is Some,
            record matches Some(r) ==> Some(r@) == self@.notice(),
    {
        match self {
            CommitOutcome::NothingToCommit => Some(
                LogRecord::fixed(
                    Level::Info,
                    "settings-committer found no settings changes to commit",
                ),
            ),
            _ => None,
        }
    }

    /// The outcome as the result of the run: only a failure is an error.
    pub fn into_result(self) -> (result: Result<(), SettingsCommitterError>)
        ensures
            result is Err <==> self@ is Failed,
            result matches Err(error) ==> self@ == CommitOutcomeView::Failed(error@),
    {
        match self {
            CommitOutcome::Failed(error) => Err(error),
            _ => Ok(()),
        }
    }
}

/// Whatever status reports success commits, and the run exits with 0.
pub proof fn lemma_success_commits(code: u16, body: Seq<char>)
    requires
        spec_is_success(code),
    ensures
        spec_commit(Reply::Answered { code, body }) == CommitOutcomeView::Committed,
        spec_commit(Reply::Answered { code, body }).exit_code() == 0,
        spec_commit(Reply::Answered { code, body }).notice() is None,
{
}

/// The status that says that nothing was pending is no failure: the outcome
/// says so, at the info level, and the run exits with 0. A second commit that
/// meets the same status ends as the first did, whatever the bodies were.
pub proof fn lemma_nothing_pending_is_success(first_body: Seq<char>, second_body: Seq<char>)
    ensures
        spec_commit(Reply::Answered { code: NOTHING_PENDING, body: first_body })
            == CommitOutcomeView::NothingToCommit,
        spec_commit(Reply::Answered { code: NOTHING_PENDING, body: second_body }) == spec_commit(
            Reply::Answered { code: NOTHING_PENDING, body: first_body },
        ),
        CommitOutcomeView::NothingToCommit.exit_code() == 0,
        CommitOutcomeView::NothingToCommit.notice() matches Some(notice) && notice.level
            == Level::Info,
{
}

/// Every other status is the server's refusal: the commit fails, the run exits
/// with 1, and the line that reports it holds the method, the URI, the status in
/// decimal and the body, each as it came.
pub proof fn lemma_refusal_is_reported(code: u16, body: Seq<char>)
    requires
        !spec_is_success(code),
        code != NOTHING_PENDING,
    ensures
        spec_commit(Reply::Answered { code, body }).exit_code() == 1,
        spec_commit(Reply::Answered { code, body }) matches CommitOutcomeView::Failed(error)
            && error == (ErrorView::APIResponse {
            method: "POST"@,
            uri: API_COMMIT_URI@,
            code,
            response_body: body,
        }) && contains(error.message(), "POST"@) && contains(error.message(), API_COMMIT_URI@)
            && contains(error.message(), decimal(code as nat)) && contains(
            error.message(),
            body,
        ),
{
    let error = ErrorView::APIResponse {
        method: "POST"@,
        uri: API_COMMIT_URI@,
        code,
        response_body: body,
    };
    let line = error.message();
    let empty = Seq::<char>::empty();
    let status = spec_display(code);
    let rest = " when sending "@ + "POST"@ + " to "@ + API_COMMIT_URI@ + ": "@ + body;
    assert(line =~= "Error "@ + status + rest);
    lemma_contains_middle(empty, decimal(code as nat), seq![' '] + reason_phrase(code));
    assert(empty + decimal(code as nat) + (seq![' '] + reason_phrase(code)) =~= status);
    lemma_contains_around("Error "@, status, rest, decimal(code as nat));
    lemma_contains_middle(
        "Error "@ + status + " when sending "@,
        "POST"@,
        " to "@ + API_COMMIT_URI@ + ": "@ + body,
    );
    assert(line =~= "Error "@ + status + " when sending "@ + "POST"@ + (" to "@ + API_COMMIT_URI@
        + ": "@ + body));
    lemma_contains_middle(
        "Error "@ + status + " when sending "@ + "POST"@ + " to "@,
        API_COMMIT_URI@,
        ": "@ + body,
    );
    assert(line =~= "Error "@ + status + " when sending "@ + "POST"@ + " to "@ + API_COMMIT_URI@
        + (": "@ + body));
    lemma_contains_middle(
        "Error "@ + status + " when sending "@ + "POST"@ + " to "@ + API_COMMIT_URI@ + ": "@,
        body,
        empty,
    );
    assert(line =~= "Error "@ + status + " when sending "@ + "POST"@ + " to "@ + API_COMMIT_URI@
        + ": "@ + body + empty);
}

/// A request that did not complete fails the commit, and the run exits with 1.
/// The line that reports it begins as only the report of such a request does,
/// and ends with the transport's own description: the report of a refusal has a
/// digit where this one has a letter.
pub proof fn lemma_unsent_is_reported(description: Seq<char>, code: u16, body: Seq<char>)
    ensures
        spec_commit(Reply::Unsent { description }).exit_code() == 1,
        spec_commit(Reply::Unsent { description }) matches CommitOutcomeView::Failed(error)
            && error == (ErrorView::APIRequest {
            method: "POST"@,
            uri: API_COMMIT_URI@,
            source: description,
        }) && error.message() == "Error sending "@ + "POST"@ + " to "@ + API_COMMIT_URI@ + ": "@
            + description,
        "Error sending "@.is_prefix_of(
            (ErrorView::APIRequest {
                method: "POST"@,
                uri: API_COMMIT_URI@,
                source: description,
            }).message(),
        ),
        !"Error sending "@.is_prefix_of(
            (ErrorView::APIResponse {
                method: "POST"@,
                uri: API_COMMIT_URI@,
                code,
                response_body: body,
            }).message(),
        ),
{
    let sent = ErrorView::APIRequest { method: "POST"@, uri: API_COMMIT_URI@, source: description };
    let head = "Error sending "@;
    assert(sent.message() =~= head + ("POST"@ + " to "@ + API_COMMIT_URI@ + ": "@ + description));
    let refused = ErrorView::APIResponse {
        method: "POST"@,
        uri: API_COMMIT_URI@,
        code,
        response_body: body,
    };
    reveal_strlit("Error sending ");
    reveal_strlit("Error ");
    lemma_decimal_begins_with_digit(code as nat);
    let line = refused.message();
    if head.is_prefix_of(line) {
        assert(line.subrange(0, head.len() as int)[6] == line[6]);
        assert(line[6] == 's');
    }
}

} // verus!

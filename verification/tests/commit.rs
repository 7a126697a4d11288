use settings_committer::commit::{
    commit_notice, commit_pending_settings, commit_request, CommitOutcome, EXIT_FAILURE,
    EXIT_SUCCESS, NOTHING_PENDING,
};
use settings_committer::error::{refusal_line, SettingsCommitterError};
use settings_committer::level::Level;
use settings_committer::record::LogRecord;
use settings_committer::status::StatusCode;
use settings_committer::transport::{Method, Request, TransportError, TransportResult};

fn status(code: u16) -> StatusCode {
    StatusCode::from_u16(code).unwrap()
}

fn response(code: u16, body: &str) -> TransportResult {
    Ok((status(code), String::from(body)))
}

fn response_status(code: u16, body: &str) -> TransportResult {
    Err(TransportError::ResponseStatus {
        code: status(code),
        body: String::from(body),
    })
}

fn incomplete(description: &str) -> TransportResult {
    Err(TransportError::Incomplete {
        description: String::from(description),
    })
}

fn refusal(code: u16, body: &str) -> CommitOutcome {
    CommitOutcome::Failed(SettingsCommitterError::APIResponse {
        method: String::from("POST"),
        uri: String::from("/settings/commit"),
        code: status(code),
        response_body: String::from(body),
    })
}

#[test]
fn commit_request_is_a_post_without_body() {
    let expected = Request {
        method: Method::Post,
        uri: String::from("/settings/commit"),
        data: None,
    };
    assert_eq!(commit_request(), expected);
}

#[test]
fn commit_notice_names_the_uri() {
    let expected = LogRecord {
        level: Level::Debug,
        message: String::from("POST-ing to /settings/commit to move pending settings to live"),
    };
    assert_eq!(commit_notice(), expected);
}

#[test]
fn every_success_status_commits() {
    for code in 200u16..300 {
        let outcome = commit_pending_settings(response(code, ""));
        assert_eq!(outcome, CommitOutcome::Committed, "status {}", code);
        assert_eq!(outcome.exit_code(), 0);
        assert_eq!(outcome.notice(), None);
        assert_eq!(outcome.into_result(), Ok(()));
    }
}

#[test]
fn a_success_status_commits_whatever_the_body() {
    assert_eq!(
        commit_pending_settings(response(200, "{\"ignored\": true}")),
        CommitOutcome::Committed
    );
    assert_eq!(
        commit_pending_settings(response(204, "")),
        CommitOutcome::Committed
    );
}

#[test]
fn a_success_status_in_an_error_commits_too() {
    assert_eq!(
        commit_pending_settings(response_status(200, "")),
        CommitOutcome::Committed
    );
}

#[test]
fn unprocessable_entity_means_nothing_to_commit() {
    let outcome = commit_pending_settings(response_status(422, "no pending changes"));
    assert_eq!(outcome, CommitOutcome::NothingToCommit);
    assert_eq!(outcome.exit_code(), 0);
    assert_eq!(outcome.into_result(), Ok(()));
    assert_eq!(NOTHING_PENDING, 422);
}

#[test]
fn nothing_to_commit_is_told_at_info_level() {
    let outcome = commit_pending_settings(response_status(422, ""));
    let expected = LogRecord {
        level: Level::Info,
        message: String::from("settings-committer found no settings changes to commit"),
    };
    assert_eq!(outcome.notice(), Some(expected));
}

#[test]
fn nothing_to_commit_as_a_plain_response() {
    assert_eq!(
        commit_pending_settings(response(422, "")),
        CommitOutcome::NothingToCommit
    );
}

#[test]
fn committing_twice_with_nothing_staged_ends_alike() {
    let first = commit_pending_settings(response_status(422, "first"));
    let second = commit_pending_settings(response_status(422, "second"));
    assert_eq!(first, second);
    assert_eq!(first.exit_code(), second.exit_code());
}

#[test]
fn only_the_one_status_means_nothing_to_commit() {
    for code in [400u16, 404, 409, 421, 423] {
        let outcome = commit_pending_settings(response_status(code, "b"));
        assert_eq!(outcome, refusal(code, "b"), "status {}", code);
    }
}

#[test]
fn every_other_status_fails_the_commit() {
    for code in (100u16..200).chain(300..1000) {
        if code == 422 {
            continue;
        }
        let outcome = commit_pending_settings(response_status(code, "body"));
        assert_eq!(outcome, refusal(code, "body"), "status {}", code);
        assert_eq!(outcome.exit_code(), 1);
        let line = outcome.into_result().unwrap_err().message();
        assert!(line.contains(&code.to_string()), "line {:?}", line);
        assert!(line.contains("body"));
    }
}

#[test]
fn a_refusal_in_a_plain_response_fails_too() {
    assert_eq!(
        commit_pending_settings(response(500, "internal error")),
        refusal(500, "internal error")
    );
}

#[test]
fn server_error_is_reported_with_status_and_body() {
    let outcome = commit_pending_settings(response_status(500, "internal error"));
    assert_eq!(outcome.exit_code(), EXIT_FAILURE);
    assert_eq!(outcome.notice(), None);
    let error = outcome.into_result().unwrap_err();
    let line = error.message();
    assert_eq!(
        line,
        "Error 500 Internal Server Error when sending POST to /settings/commit: internal error"
    );
    assert!(line.contains("POST"));
    assert!(line.contains("/settings/commit"));
    assert!(line.contains("500"));
    assert!(line.contains("internal error"));
}

#[test]
fn the_body_is_kept_verbatim() {
    let body = "{\"error\": \"bad\n value\"}\t ";
    let outcome = commit_pending_settings(response_status(400, body));
    let line = outcome.into_result().unwrap_err().message();
    assert_eq!(
        line,
        format!(
            "Error 400 Bad Request when sending POST to /settings/commit: {}",
            body
        )
    );
}

#[test]
fn a_request_that_did_not_complete_fails_the_commit() {
    let outcome = commit_pending_settings(incomplete("No such file or directory (os error 2)"));
    let expected = CommitOutcome::Failed(SettingsCommitterError::APIRequest {
        method: String::from("POST"),
        uri: String::from("/settings/commit"),
        source: String::from("No such file or directory (os error 2)"),
    });
    assert_eq!(outcome, expected);
    assert_eq!(outcome.exit_code(), 1);
    assert_eq!(outcome.notice(), None);
}

#[test]
fn a_send_failure_is_reported_as_one() {
    let outcome = commit_pending_settings(incomplete("connection refused"));
    let line = outcome.into_result().unwrap_err().message();
    assert_eq!(
        line,
        "Error sending POST to /settings/commit: connection refused"
    );
    let refused = commit_pending_settings(response_status(503, "connection refused"));
    let other = refused.into_result().unwrap_err().message();
    assert!(line.starts_with("Error sending "));
    assert!(!other.starts_with("Error sending "));
}

#[test]
fn exit_codes_are_zero_and_one() {
    assert_eq!(EXIT_SUCCESS, 0);
    assert_eq!(EXIT_FAILURE, 1);
    assert_eq!(CommitOutcome::Committed.exit_code(), 0);
    assert_eq!(CommitOutcome::NothingToCommit.exit_code(), 0);
    assert_eq!(refusal(500, "").exit_code(), 1);
}

#[test]
fn logger_error_message() {
    let error = SettingsCommitterError::Logger {
        source: String::from("could not open terminal"),
    };
    assert_eq!(error.message(), "Logger setup error: could not open terminal");
}

#[test]
fn request_error_message_uses_its_fields() {
    let error = SettingsCommitterError::APIRequest {
        method: String::from("GET"),
        uri: String::from("/x"),
        source: String::from("timed out"),
    };
    assert_eq!(error.message(), "Error sending GET to /x: timed out");
}

#[test]
fn response_error_message_uses_its_fields() {
    let error = SettingsCommitterError::APIResponse {
        method: String::from("PATCH"),
        uri: String::from("/settings"),
        code: status(404),
        response_body: String::new(),
    };
    assert_eq!(
        error.message(),
        "Error 404 Not Found when sending PATCH to /settings: "
    );
}

#[test]
fn refusal_line_is_built_from_its_parts() {
    assert_eq!(
        refusal_line("500 Internal Server Error", "POST", "/settings/commit", "internal error"),
        "Error 500 Internal Server Error when sending POST to /settings/commit: internal error"
    );
    assert_eq!(refusal_line("", "", "", ""), "Error  when sending  to : ");
}

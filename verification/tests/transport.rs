use settings_committer::level::Level;
use settings_committer::record::LogRecord;
use settings_committer::transport::{Method, Request, API_COMMIT_URI, API_PENDING_URI};

#[test]
fn methods_are_written_in_capitals() {
    assert_eq!(Method::Get.name(), "GET");
    assert_eq!(Method::Post.name(), "POST");
}

#[test]
fn the_two_endpoints() {
    assert_eq!(API_PENDING_URI, "/settings/pending");
    assert_eq!(API_COMMIT_URI, "/settings/commit");
}

#[test]
fn a_bare_request_has_no_body() {
    let request = Request::bare(Method::Post, "/settings/commit");
    assert_eq!(request.method, Method::Post);
    assert_eq!(request.uri, "/settings/commit");
    assert_eq!(request.data, None);
}

#[test]
fn a_fixed_record_keeps_level_and_text() {
    let record = LogRecord::fixed(Level::Info, "Committing settings.");
    assert_eq!(record.level, Level::Info);
    assert_eq!(record.message, "Committing settings.");
}

use anilibrix::error::ApiError;
use anilibrix::operations::{get_full_release, get_full_release_request, AwaitingFranchise};
use anilibrix::request::Request;
use anilibrix::response::Outcome;
use anilibrix::settings::{AppSettings, ConfigState};

const SHAPE: &str = "the document does not have the expected shape";
const RELEASE: &str = r#"{"id": 42, "name": {"main": "M"}, "episodes": [{"ordinal": 1}]}"#;

fn answer(status: u16, body: &str) -> Outcome {
    Outcome::Received { status, body: body.to_string() }
}

fn lost(reason: &str) -> Outcome {
    Outcome::Failed { reason: reason.to_string() }
}

fn json(text: &str) -> serde_json::Value {
    serde_json::from_str(text).expect("the test's own JSON is well formed")
}

fn begin(release: Outcome) -> Result<(Request, AwaitingFranchise), ApiError> {
    let state = ConfigState::new(AppSettings { api_url: "https://example.test/api/v1".to_string() });
    let (_, pending) = get_full_release_request(&state, "42");
    pending.release_received(release)
}

/// Runs the operation step by step, and checks that the result is the one
/// that both outcomes give at once.
fn full_release(release: Outcome, franchise: Outcome) -> Result<serde_json::Value, ApiError> {
    let at_once = get_full_release(release.clone(), franchise.clone());
    let in_steps = match begin(release) {
        Ok((_, pending)) => Ok(pending.franchise_received(franchise)),
        Err(e) => Err(e),
    };
    assert_eq!(in_steps, at_once);
    in_steps
}

fn with_franchise(franchise: &str) -> serde_json::Value {
    json(&format!(
        r#"{{"id": 42, "name": {{"main": "M"}}, "episodes": [{{"ordinal": 1}}], "related_franchise": {}}}"#,
        franchise
    ))
}

#[test]
fn franchises_are_merged_into_the_release() {
    let franchise = r#"[{"id": "f1", "franchise_releases": [{"release_id": 42}, {"release_id": 43}]}]"#;
    let full = full_release(answer(200, RELEASE), answer(200, franchise)).unwrap();
    assert_eq!(full, with_franchise(franchise));
    assert_eq!(full.get("related_franchise"), Some(&json(franchise)));
    assert_eq!(full.get("id"), Some(&json("42")));
}

#[test]
fn empty_franchise_list_is_kept_as_it_is() {
    let full = full_release(answer(200, RELEASE), answer(200, "[]")).unwrap();
    assert_eq!(full, with_franchise("[]"));
}

#[test]
fn unreachable_franchise_endpoint_gives_an_empty_list() {
    let full = full_release(answer(200, RELEASE), lost("connection refused")).unwrap();
    assert_eq!(full, with_franchise("[]"));
    let full = full_release(answer(200, RELEASE), lost("operation timed out")).unwrap();
    assert_eq!(full.get("related_franchise"), Some(&json("[]")));
}

#[test]
fn unread_franchise_body_gives_an_empty_list() {
    for status in [200u16, 500] {
        let franchise = Outcome::Unread { status, reason: "connection reset".to_string() };
        let full = full_release(answer(200, RELEASE), franchise).unwrap();
        assert_eq!(full, with_franchise("[]"));
    }
}

#[test]
fn unread_release_body_fails_the_operation() {
    let release = || Outcome::Unread { status: 200, reason: "connection reset".to_string() };
    assert_eq!(
        full_release(release(), answer(200, "[]")).unwrap_err(),
        ApiError::Transport { message: "connection reset".to_string() }
    );
    let release = || Outcome::Unread { status: 503, reason: "connection reset".to_string() };
    assert_eq!(
        full_release(release(), answer(200, "[]")).unwrap_err(),
        ApiError::Server { status: 503 }
    );
}

#[test]
fn failure_status_of_the_franchise_endpoint_gives_an_empty_list() {
    for status in [404u16, 500, 503, 301, 199] {
        let full =
            full_release(answer(200, RELEASE), answer(status, "[{\"id\": \"f1\"}]")).unwrap();
        assert_eq!(full, with_franchise("[]"));
    }
}

#[test]
fn malformed_franchise_body_gives_an_empty_list() {
    for body in ["", "<html>", "[{\"id\": ", "[] trailing"] {
        let full = full_release(answer(200, RELEASE), answer(200, body)).unwrap();
        assert_eq!(full, with_franchise("[]"));
    }
}

#[test]
fn franchise_body_that_is_no_list_gives_an_empty_list() {
    for body in ["null", "{}", "{\"data\": []}", "\"text\"", "7", "true"] {
        let full = full_release(answer(200, RELEASE), answer(200, body)).unwrap();
        assert_eq!(full, with_franchise("[]"));
    }
}

#[test]
fn related_franchise_is_always_a_list() {
    let franchises = [
        answer(200, "[1, 2]"),
        answer(200, "{}"),
        answer(200, "oops"),
        answer(500, "[]"),
        lost("dns"),
    ];
    for franchise in franchises {
        let full = full_release(answer(200, "{}"), franchise).unwrap();
        assert!(full.get("related_franchise").unwrap().is_array());
    }
}

#[test]
fn member_of_the_same_name_in_the_release_is_replaced() {
    let release = r#"{"id": 42, "related_franchise": "stale", "x": null}"#;
    let full = full_release(answer(200, release), answer(200, "[7]")).unwrap();
    assert_eq!(full, json(r#"{"id": 42, "related_franchise": [7], "x": null}"#));
    let full = full_release(answer(200, release), lost("down")).unwrap();
    assert_eq!(full, json(r#"{"id": 42, "related_franchise": [], "x": null}"#));
}

#[test]
fn empty_release_object_gets_the_member() {
    let full = full_release(answer(200, "{}"), answer(200, "[{}]")).unwrap();
    assert_eq!(full, json(r#"{"related_franchise": [{}]}"#));
}

#[test]
fn failed_release_request_fails_the_operation() {
    assert_eq!(
        begin(lost("connection refused")).unwrap_err(),
        ApiError::Transport { message: "connection refused".to_string() }
    );
    for status in [404u16, 500, 503] {
        assert_eq!(begin(answer(status, RELEASE)).unwrap_err(), ApiError::Server { status });
    }
}

#[test]
fn release_failure_does_not_depend_on_the_franchise() {
    let franchises =
        || [answer(200, "[{\"id\": \"f1\"}]"), answer(500, ""), answer(200, "oops"), lost("dns")];
    for franchise in franchises() {
        assert_eq!(
            full_release(answer(404, RELEASE), franchise).unwrap_err(),
            ApiError::Server { status: 404 }
        );
    }
    for franchise in franchises() {
        assert_eq!(
            full_release(lost("refused"), franchise).unwrap_err(),
            ApiError::Transport { message: "refused".to_string() }
        );
    }
}

#[test]
fn malformed_release_body_is_a_decoding_failure_with_the_body() {
    let body = "{\"id\": 42";
    let message = serde_json::from_str::<serde_json::Value>(body).unwrap_err().to_string();
    assert_eq!(
        begin(answer(200, body)).unwrap_err(),
        ApiError::Decode { message, raw_body: body.to_string() }
    );
}

#[test]
fn release_that_is_no_object_is_a_decoding_failure_with_the_body() {
    for body in ["null", "[]", "[{\"id\": 42}]", "\"42\"", "42", "true"] {
        assert_eq!(
            begin(answer(200, body)).unwrap_err(),
            ApiError::Decode { message: SHAPE.to_string(), raw_body: body.to_string() }
        );
    }
}

use paas_gateway::outcome::{respond, Outcome, OutcomeKind, STATUS_FAILURE, STATUS_OK};

#[test]
fn success_is_empty_200() {
    let outcome = respond(Ok(()));
    assert_eq!(outcome.kind, OutcomeKind::Success);
    assert_eq!(outcome.status(), 200);
    assert_eq!(outcome.body, "");
    assert!(!outcome.is_failure());
}

#[test]
fn failure_is_500_with_reason() {
    let outcome = respond(Err("Connection refused (os error 111)".to_string()));
    assert_eq!(outcome.kind, OutcomeKind::ServerError);
    assert_eq!(outcome.status(), 500);
    assert_eq!(outcome.body, "Connection refused (os error 111)");
    assert!(outcome.is_failure());
    assert!(!outcome.body.is_empty());
}

#[test]
fn failure_reason_is_not_altered() {
    let reason = "  NoNode: \"/a/b\"\n\ttrailing  ";
    assert_eq!(respond(Err(reason.to_string())).body, reason);
}

#[test]
fn empty_failure_reason_is_still_a_failure() {
    let outcome = respond(Err(String::new()));
    assert_eq!(outcome.status(), 500);
    assert_eq!(outcome.body, "");
    assert!(outcome.is_failure());
}

#[test]
fn bad_request_is_reported_with_500() {
    let outcome = Outcome::bad_request("missing field `host` at line 1 column 2".to_string());
    assert_eq!(outcome.kind, OutcomeKind::BadRequest);
    assert_eq!(outcome.status(), 500);
    assert_eq!(outcome.body, "missing field `host` at line 1 column 2");
    assert!(outcome.is_failure());
}

#[test]
fn constructors_agree_with_respond() {
    assert_eq!(Outcome::success(), respond(Ok(())));
    assert_eq!(Outcome::server_error("x".to_string()), respond(Err("x".to_string())));
    assert_ne!(Outcome::bad_request("x".to_string()), respond(Err("x".to_string())));
}

#[test]
fn greeting_is_a_success_with_a_body() {
    let outcome = Outcome::greeting("Hello");
    assert_eq!(outcome.kind, OutcomeKind::Success);
    assert_eq!(outcome.status(), 200);
    assert_eq!(outcome.body, "Hello");
}

#[test]
fn status_constants() {
    assert_eq!(STATUS_OK, 200);
    assert_eq!(STATUS_FAILURE, 500);
}

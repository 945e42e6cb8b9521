use github_webhook::event::{process_event, GitHubEvent};
use github_webhook::pipeline::{process_request, WebhookError};
use github_webhook::signature::sign;

const PR_BODY: &str = r#"{"action":"opened","pull_request":{"number":1,"title":"t","html_url":"u","state":"open","user":{"login":"a","html_url":"b"}}}"#;

#[test]
fn end_to_end_signed_pull_request_is_processed() {
    let secret = b"topsecret";
    let header = sign(secret, PR_BODY.as_bytes());
    let r = process_request(
        Some(secret),
        Some(&header),
        Some("pull_request"),
        PR_BODY.as_bytes(),
    )
    .unwrap();
    assert!(r.processed);
    assert_eq!(r.message, "Successfully processed pull_request event");
}

#[test]
fn missing_signature_with_secret_is_unauthorized() {
    let r = process_request(Some(b"topsecret"), None, Some("pull_request"), PR_BODY.as_bytes());
    assert_eq!(r.unwrap_err(), WebhookError::AuthenticationMissing);
    // Authentication fails first: an undecodable body still yields the
    // same authentication error, not a decode error.
    let r = process_request(Some(b"topsecret"), None, Some("pull_request"), b"not json");
    assert_eq!(r.unwrap_err(), WebhookError::AuthenticationMissing);
}

#[test]
fn invalid_signature_is_unauthorized() {
    let secret = b"topsecret";
    let header = sign(b"wrong-secret", PR_BODY.as_bytes());
    let r = process_request(Some(secret), Some(&header), Some("pull_request"), PR_BODY.as_bytes());
    assert_eq!(r.unwrap_err(), WebhookError::AuthenticationInvalid);
    let r = process_request(Some(secret), Some("sha1=00"), None, PR_BODY.as_bytes());
    assert_eq!(r.unwrap_err(), WebhookError::AuthenticationInvalid);
}

#[test]
fn undecodable_body_is_malformed() {
    let secret = b"topsecret";
    let body = b"{\"action\":5}";
    let header = sign(secret, body);
    let r = process_request(Some(secret), Some(&header), Some("push"), body);
    assert_eq!(r.unwrap_err(), WebhookError::MalformedPayload);
    // Invalid UTF-8 bodies are malformed too.
    let body = [0xff, 0xfe, b'{', b'}'];
    let header = sign(secret, &body);
    let r = process_request(Some(secret), Some(&header), Some("push"), &body);
    assert_eq!(r.unwrap_err(), WebhookError::MalformedPayload);
}

#[test]
fn no_secret_bypasses_verification() {
    let r = process_request(None, None, Some("ping"), b"{}").unwrap();
    assert!(r.processed);
    assert_eq!(r.message, "Successfully processed ping event");
    // A signature header may be present and is then ignored.
    let r = process_request(None, Some("sha256=junk"), Some("ping"), b"{}").unwrap();
    assert!(r.processed);
}

#[test]
fn missing_kind_header_dispatches_as_unknown() {
    let r = process_request(None, None, None, b"{}").unwrap();
    assert!(r.processed);
    assert_eq!(r.message, "Successfully processed unknown event");
}

#[test]
fn repeated_delivery_gives_the_same_result() {
    let secret = b"topsecret";
    let header = sign(secret, PR_BODY.as_bytes());
    let first = process_request(
        Some(secret),
        Some(&header),
        Some("pull_request"),
        PR_BODY.as_bytes(),
    )
    .unwrap();
    let second = process_request(
        Some(secret),
        Some(&header),
        Some("pull_request"),
        PR_BODY.as_bytes(),
    )
    .unwrap();
    assert_eq!(first.message, second.message);
    assert_eq!(first.processed, second.processed);
}

#[test]
fn process_event_names_type_and_repository() {
    let event = GitHubEvent {
        event_type: "push".to_string(),
        repository: "octo/widgets".to_string(),
        sender: "octocat".to_string(),
        timestamp: 1_700_000_000,
    };
    let m = process_event(event).unwrap();
    assert_eq!(m, "Processed push event from octo/widgets");
}

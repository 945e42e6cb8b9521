use github_webhook::dispatch::{
    dispatch, handle_pull_request_event, kind_label, parse_event_kind, EventKind,
    PullRequestAction,
};
use github_webhook::envelope::{Envelope, PullRequest, Repository, User};
use github_webhook::json::decode;

fn empty_envelope() -> Envelope {
    Envelope::empty()
}

fn populated_envelope(action: &str) -> Envelope {
    Envelope {
        action: Some(action.to_string()),
        repository: Some(Repository {
            name: "r".to_string(),
            full_name: "o/r".to_string(),
            html_url: "hu".to_string(),
        }),
        sender: None,
        pull_request: Some(PullRequest {
            number: 1,
            title: "t".to_string(),
            html_url: "pu".to_string(),
            state: "open".to_string(),
            user: User { login: "a".to_string(), html_url: "au".to_string() },
        }),
        issue: None,
    }
}

#[test]
fn ping_with_empty_envelope_is_processed() {
    let r = dispatch(&parse_event_kind("ping"), &empty_envelope());
    assert!(r.processed);
    assert_eq!(r.message, "Successfully processed ping event");
}

#[test]
fn pull_request_opened_is_processed() {
    let env = populated_envelope("opened");
    let r = dispatch(&parse_event_kind("pull_request"), &env);
    assert!(r.processed);
    assert_eq!(r.message, "Successfully processed pull_request event");
    assert_eq!(handle_pull_request_event(&env), Some(PullRequestAction::Opened));
}

#[test]
fn pull_request_without_repository_does_not_error() {
    let mut env = populated_envelope("opened");
    env.repository = None;
    let r = dispatch(&parse_event_kind("pull_request"), &env);
    assert!(r.processed);
    // The sub-handler observes nothing when the repository is absent.
    assert_eq!(handle_pull_request_event(&env), None);
}

#[test]
fn pull_request_action_arms() {
    assert_eq!(
        handle_pull_request_event(&populated_envelope("closed")),
        Some(PullRequestAction::Closed)
    );
    assert_eq!(
        handle_pull_request_event(&populated_envelope("synchronize")),
        Some(PullRequestAction::Synchronize)
    );
    assert_eq!(
        handle_pull_request_event(&populated_envelope("labeled")),
        Some(PullRequestAction::Other)
    );
    let mut env = populated_envelope("opened");
    env.pull_request = None;
    assert_eq!(handle_pull_request_event(&env), None);
}

#[test]
fn unrecognized_kind_is_processed_and_named() {
    let r = dispatch(&parse_event_kind("deployment_status"), &empty_envelope());
    assert!(r.processed);
    assert_eq!(r.message, "Successfully processed deployment_status event");
}

#[test]
fn recognized_kinds_parse_to_closed_variants() {
    assert!(matches!(parse_event_kind("push"), EventKind::Push));
    assert!(matches!(parse_event_kind("pull_request"), EventKind::PullRequest));
    assert!(matches!(parse_event_kind("issues"), EventKind::Issues));
    assert!(matches!(parse_event_kind("ping"), EventKind::Ping));
    assert!(matches!(parse_event_kind("workflow_run"), EventKind::Other(_)));
    assert_eq!(kind_label(&parse_event_kind("push")), "push");
    assert_eq!(kind_label(&parse_event_kind("workflow_run")), "workflow_run");
}

#[test]
fn push_and_issues_are_processed_with_decoded_bodies() {
    let env = decode(r#"{"repository":{"name":"r","full_name":"o/r","html_url":"u"}}"#).unwrap();
    let r = dispatch(&parse_event_kind("push"), &env);
    assert!(r.processed);
    assert_eq!(r.message, "Successfully processed push event");
    let env = decode(
        r#"{"issue":{"number":3,"title":"t","html_url":"u","state":"open",
            "user":{"login":"l","html_url":"h"}}}"#,
    )
    .unwrap();
    let r = dispatch(&parse_event_kind("issues"), &env);
    assert_eq!(r.message, "Successfully processed issues event");
}

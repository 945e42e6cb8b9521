use github_webhook::json::decode;

#[test]
fn unknown_fields_only_yields_all_absent_envelope() {
    let body = r#"{"zen":"Design for failure.","hook_id":12345,
        "hook":{"type":"Repository","events":["push","pull_request"],"config":{"url":"u"}},
        "extra":null,"ratio":1.5e-3,"flag":true}"#;
    let env = decode(body).unwrap();
    assert!(env.action.is_none());
    assert!(env.repository.is_none());
    assert!(env.sender.is_none());
    assert!(env.pull_request.is_none());
    assert!(env.issue.is_none());
}

#[test]
fn empty_object_decodes() {
    let env = decode("{}").unwrap();
    assert!(env.action.is_none());
    let env = decode("  { }  ").unwrap();
    assert!(env.pull_request.is_none());
}

#[test]
fn number_given_as_string_is_malformed() {
    let body = r#"{"pull_request":{"number":"1","title":"t","html_url":"u","state":"open",
        "user":{"login":"a","html_url":"b"}}}"#;
    assert!(decode(body).is_err());
}

#[test]
fn populated_envelope_decodes() {
    let body = r#"{"action":"opened",
        "repository":{"name":"r","full_name":"o/r","html_url":"hu","stars":7},
        "sender":{"login":"s","html_url":"su"},
        "pull_request":{"number":42,"title":"T","html_url":"pu","state":"open",
            "user":{"login":"a","html_url":"au"},"draft":false}}"#;
    let env = decode(body).unwrap();
    assert_eq!(env.action.as_deref(), Some("opened"));
    let repo = env.repository.unwrap();
    assert_eq!(repo.name, "r");
    assert_eq!(repo.full_name, "o/r");
    assert_eq!(repo.html_url, "hu");
    let sender = env.sender.unwrap();
    assert_eq!(sender.login, "s");
    let pr = env.pull_request.unwrap();
    assert_eq!(pr.number, 42);
    assert_eq!(pr.title, "T");
    assert_eq!(pr.state, "open");
    assert_eq!(pr.user.login, "a");
    assert!(env.issue.is_none());
}

#[test]
fn issue_decodes_like_pull_request() {
    let body = r#"{"action":"closed","issue":{"number":7,"title":"bug","html_url":"iu",
        "state":"closed","user":{"login":"x","html_url":"xu"}}}"#;
    let env = decode(body).unwrap();
    let issue = env.issue.unwrap();
    assert_eq!(issue.number, 7);
    assert_eq!(issue.title, "bug");
}

#[test]
fn null_fields_decode_to_absent() {
    let body = r#"{"action":null,"repository":null,"sender":null,"pull_request":null,"issue":null}"#;
    let env = decode(body).unwrap();
    assert!(env.action.is_none());
    assert!(env.repository.is_none());
    assert!(env.pull_request.is_none());
}

#[test]
fn string_escapes_decode() {
    let body = r#"{"action":"a\n\t\"\\\/Ab"}"#;
    let env = decode(body).unwrap();
    assert_eq!(env.action.as_deref(), Some("a\n\t\"\\/Ab"));
}

#[test]
fn unescaped_non_bmp_characters_pass_through() {
    let env = decode("{\"action\":\"caf\u{e9} \u{1F600}\"}").unwrap();
    assert_eq!(env.action.as_deref(), Some("caf\u{e9} \u{1F600}"));
}

#[test]
fn surrogate_escapes_are_rejected() {
    assert!(decode(r#"{"action":"\ud83d\ude00"}"#).is_err());
    assert!(decode(r#"{"action":"\udc00"}"#).is_err());
    assert!(decode(r#"{"action":"\uZZZZ"}"#).is_err());
}

#[test]
fn malformed_bodies_are_rejected() {
    assert!(decode("").is_err());
    assert!(decode("   ").is_err());
    assert!(decode("null").is_err());
    assert!(decode("[]").is_err());
    assert!(decode("{").is_err());
    assert!(decode("{}extra").is_err());
    assert!(decode(r#"{"action":}"#).is_err());
    assert!(decode(r#"{"action" "opened"}"#).is_err());
    assert!(decode(r#"{"action":"opened",}"#).is_err());
    assert!(decode(r#"{"action":5}"#).is_err());
    assert!(decode(r#"{"repository":"r"}"#).is_err());
    assert!(decode(r#"{"action":"a","action":"b"}"#).is_err());
    assert!(decode("{\"action\":\"\u{1}\"}").is_err());
}

#[test]
fn incomplete_sub_objects_are_rejected() {
    // Required repository fields missing.
    assert!(decode(r#"{"repository":{"name":"r"}}"#).is_err());
    // Pull request number as float or negative.
    assert!(decode(
        r#"{"pull_request":{"number":1.0,"title":"t","html_url":"u","state":"s","user":{"login":"a","html_url":"b"}}}"#
    ).is_err());
    assert!(decode(
        r#"{"pull_request":{"number":-1,"title":"t","html_url":"u","state":"s","user":{"login":"a","html_url":"b"}}}"#
    ).is_err());
    // Number too large for u64.
    assert!(decode(
        r#"{"pull_request":{"number":18446744073709551616,"title":"t","html_url":"u","state":"s","user":{"login":"a","html_url":"b"}}}"#
    ).is_err());
}

#[test]
fn u64_boundary_number_decodes() {
    let body = r#"{"issue":{"number":18446744073709551615,"title":"t","html_url":"u",
        "state":"s","user":{"login":"a","html_url":"b"}}}"#;
    let env = decode(body).unwrap();
    assert_eq!(env.issue.unwrap().number, u64::MAX);
}

#[test]
fn deeply_nested_unknown_values_hit_the_depth_limit() {
    let mut body = String::from(r#"{"unknown":"#);
    for _ in 0..300 {
        body.push('[');
    }
    for _ in 0..300 {
        body.push(']');
    }
    body.push('}');
    assert!(decode(&body).is_err());
    let mut shallow = String::from(r#"{"unknown":"#);
    for _ in 0..20 {
        shallow.push('[');
    }
    for _ in 0..20 {
        shallow.push(']');
    }
    shallow.push('}');
    assert!(decode(&shallow).is_ok());
}


use capycoding::grammar::is_wf_json;
use capycoding::metrics::{parse_commits, parse_pull_requests, parse_workflows};

#[test]
fn accepts_the_payload_shapes() {
    assert!(is_wf_json(r#"{"total": 42}"#));
    assert!(is_wf_json("[]"));
    assert!(is_wf_json("{}"));
    assert!(is_wf_json(" [1, 2, -3] "));
    assert!(is_wf_json("true"));
    assert!(is_wf_json("false"));
    assert!(is_wf_json("null"));
    assert!(is_wf_json("-123456789"));
    assert!(is_wf_json(
        r#"[
            {"name": "ci", "status": "completed", "conclusion": "success",
             "htmlUrl": "https://example.test/w/1", "createdAt": "2024-05-01T10:00:00Z",
             "updatedAt": "2024-05-01T10:05:00Z"}
        ]"#
    ));
    assert!(is_wf_json(r#"{"a": {"b": [true, null, "x"]}}"#));
}

#[test]
fn rejects_truncated_structures() {
    assert!(!is_wf_json(r#"{"a"#));
    assert!(!is_wf_json(r#"{""#));
    assert!(!is_wf_json("[1"));
    assert!(!is_wf_json("[{"));
    assert!(!is_wf_json(r#"{"a":"#));
    assert!(!is_wf_json(r#""abc"#));
    assert!(!is_wf_json("{"));
}

#[test]
fn rejects_incomplete_literals() {
    assert!(!is_wf_json(r#"{"a":t}"#));
    assert!(!is_wf_json("tru"));
    assert!(!is_wf_json("fals"));
    assert!(!is_wf_json("nul"));
    assert!(!is_wf_json("not json"));
}

#[test]
fn rejects_what_lies_outside_the_subset() {
    // Non-ASCII anywhere.
    assert!(!is_wf_json("{\"a\": \"caf\u{00e9}\"}"));
    // Escape sequences in strings.
    assert!(!is_wf_json(r#"{"a": "x\"y"}"#));
    // Numbers beyond nine digits, fractions, exponents.
    assert!(!is_wf_json(r#"{"a": 1234567890}"#));
    assert!(!is_wf_json("1.5"));
    assert!(!is_wf_json("1e5"));
    // Content after the top-level value.
    assert!(!is_wf_json("{} extra"));
    // A bare separator.
    assert!(!is_wf_json(r#"{"a" 1}"#));
}

#[test]
fn parsers_reject_truncated_payloads_without_panicking() {
    assert!(parse_commits(r#"{"a"#, r#"{"total": 1}"#, r#"{"total": 2}"#).is_none());
    assert!(parse_commits(r#"{"total": 1}"#, r#"{"a":t}"#, r#"{"total": 2}"#).is_none());
    assert!(parse_workflows("[1").is_none());
    assert!(parse_workflows("[{").is_none());
    assert!(parse_pull_requests("[{").is_none());
    assert!(parse_pull_requests(r#"[{"number": 1"#).is_none());
}

#[test]
fn parsers_reject_numbers_beyond_the_digit_bound() {
    // Ten digits exceed the grammar's bound, which exists so that the
    // value parses the same on every target.
    assert!(parse_commits(
        r#"{"total": 1234567890}"#,
        r#"{"total": 1}"#,
        r#"{"total": 2}"#,
    )
    .is_none());
    assert!(parse_commits(r#"{"total": 999999999}"#, r#"{"total": 1}"#, r#"{"total": 2}"#)
        .is_some());
}

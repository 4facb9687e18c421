use capycoding::metrics::{
    apply_metrics, auth_header, metrics_round, metrics_url, parse_commits, parse_pull_requests,
    parse_workflows, CapyState, CommitData, MetricsEndpoint, METRICS_BASE_URL,
    METRICS_USER_AGENT,
};
use capycoding::types::audio_format_to_mime;

#[test]
fn parse_commits_extracts_totals() {
    let c = parse_commits(
        r#"{"total": 1543}"#,
        r#"{"total": 120}"#,
        r#"{"total": 42}"#,
    )
    .expect("all three payloads carry a total");
    assert_eq!(c.total, 1543);
    assert_eq!(c.last_month, 120);
    assert_eq!(c.last_week, 42);
}

#[test]
fn parse_commits_missing_total_is_absent() {
    assert!(parse_commits(r#"{"count": 3}"#, r#"{"total": 1}"#, r#"{"total": 2}"#).is_none());
    assert!(parse_commits(r#"{"total": 1}"#, "not json", r#"{"total": 2}"#).is_none());
}

#[test]
fn parse_workflows_extracts_each_run() {
    let payload = r#"[
        {"name": "ci", "status": "completed", "conclusion": "success",
         "htmlUrl": "https://example.test/w/1", "createdAt": "2024-05-01T10:00:00Z",
         "updatedAt": "2024-05-01T10:05:00Z"},
        {"name": "deploy", "status": "completed", "conclusion": "failure",
         "htmlUrl": "https://example.test/w/2", "createdAt": "2024-05-02T10:00:00Z",
         "updatedAt": "2024-05-02T10:09:00Z"}
    ]"#;
    let runs = parse_workflows(payload).expect("well-formed payload");
    assert_eq!(runs.len(), 2);
    assert_eq!(runs[0].name, "ci");
    assert_eq!(runs[0].status, "completed");
    assert_eq!(runs[0].conclusion, "success");
    assert_eq!(runs[0].html_url, "https://example.test/w/1");
    assert_eq!(runs[0].created_at, "2024-05-01T10:00:00Z");
    assert_eq!(runs[0].updated_at, "2024-05-01T10:05:00Z");
    assert_eq!(runs[1].name, "deploy");
    assert_eq!(runs[1].conclusion, "failure");
}

#[test]
fn parse_workflows_empty_array_is_empty() {
    let runs = parse_workflows("[]").expect("an empty array parses");
    assert!(runs.is_empty());
}

#[test]
fn parse_workflows_missing_field_is_absent() {
    let payload = r#"[{"name": "ci", "status": "completed"}]"#;
    assert!(parse_workflows(payload).is_none());
    assert!(parse_workflows(r#"{"name": "not an array"}"#).is_none());
}

#[test]
fn parse_pull_requests_extracts_each_pr() {
    let payload = r#"[
        {"number": 17, "title": "Fix retry backoff", "state": "open",
         "url": "https://example.test/pr/17", "updatedAt": "2024-05-03T08:00:00Z",
         "author": "sam"},
        {"number": 16, "title": "Add scan logging", "state": "merged",
         "url": "https://example.test/pr/16", "updatedAt": "2024-05-01T08:00:00Z",
         "author": "ria"}
    ]"#;
    let prs = parse_pull_requests(payload).expect("well-formed payload");
    assert_eq!(prs.len(), 2);
    assert_eq!(prs[0].number, 17);
    assert_eq!(prs[0].title, "Fix retry backoff");
    assert_eq!(prs[0].state, "open");
    assert_eq!(prs[0].url, "https://example.test/pr/17");
    assert_eq!(prs[0].updated_at, "2024-05-03T08:00:00Z");
    assert_eq!(prs[0].author, "sam");
    assert_eq!(prs[1].number, 16);
    assert_eq!(prs[1].state, "merged");
}

#[test]
fn parse_pull_requests_missing_number_is_absent() {
    let payload = r#"[{"title": "x", "state": "open", "url": "u",
                       "updatedAt": "t", "author": "a"}]"#;
    assert!(parse_pull_requests(payload).is_none());
}

#[test]
fn apply_metrics_preserves_foreign_fields() {
    let prev = Some(CapyState {
        commits: CommitData { total: 1, last_week: 1, last_month: 1 },
        pr: vec![],
        workflow: vec![],
        carousel_index: 3,
        used_tokens: 250,
        max_tokens: 1000,
    });
    let fresh = CommitData { total: 9, last_week: 2, last_month: 5 };
    let state = apply_metrics(&prev, fresh, vec![], vec![]);
    assert_eq!(state.commits.total, 9);
    assert_eq!(state.carousel_index, 3);
    assert_eq!(state.used_tokens, 250);
    assert_eq!(state.max_tokens, 1000);
}

#[test]
fn apply_metrics_defaults_without_previous_state() {
    let fresh = CommitData { total: 9, last_week: 2, last_month: 5 };
    let state = apply_metrics(&None, fresh, vec![], vec![]);
    assert_eq!(state.carousel_index, 0);
    assert_eq!(state.used_tokens, 0);
    assert_eq!(state.max_tokens, 0);
}

#[test]
fn audio_formats_map_to_mime_types() {
    assert_eq!(audio_format_to_mime(&b"WAV".to_vec()), b"audio/wav".to_vec());
    assert_eq!(audio_format_to_mime(&b"wave".to_vec()), b"audio/wav".to_vec());
    assert_eq!(audio_format_to_mime(&b"MP3".to_vec()), b"audio/mpeg".to_vec());
    assert_eq!(audio_format_to_mime(&b"ogg".to_vec()), b"audio/ogg".to_vec());
    assert_eq!(audio_format_to_mime(&b"OgA".to_vec()), b"audio/ogg".to_vec());
    assert_eq!(audio_format_to_mime(&b"webm".to_vec()), b"audio/webm".to_vec());
    assert_eq!(audio_format_to_mime(&b"FLAC".to_vec()), b"audio/flac".to_vec());
}

#[test]
fn metrics_urls_are_as_fetched() {
    assert_eq!(
        metrics_url(METRICS_BASE_URL, MetricsEndpoint::PullRequests, "suri-codes", None),
        "https://cappycoding.koyeb.app/metrics/prs?user=suri-codes&per_page=5"
    );
    assert_eq!(
        metrics_url(METRICS_BASE_URL, MetricsEndpoint::Workflows, "suri-codes", None),
        "https://cappycoding.koyeb.app/metrics/workflows?user=suri-codes&per_page=5"
    );
    assert_eq!(
        metrics_url(METRICS_BASE_URL, MetricsEndpoint::Commits, "suri-codes", None),
        "https://cappycoding.koyeb.app/metrics/commits?user=suri-codes"
    );
    assert_eq!(
        metrics_url(
            METRICS_BASE_URL,
            MetricsEndpoint::Commits,
            "suri-codes",
            Some("2025-10-19T00:00:00Z"),
        ),
        "https://cappycoding.koyeb.app/metrics/commits?user=suri-codes&since=2025-10-19T00:00:00Z"
    );
}

#[test]
fn auth_header_prefixes_the_scheme() {
    assert_eq!(auth_header(&b"ghp_abc".to_vec()), b"token ghp_abc".to_vec());
}

#[test]
fn metrics_round_merges_all_payloads() {
    let state = metrics_round(
        &None,
        Some(r#"[{"number": 17, "title": "t", "state": "open", "url": "u",
                  "updatedAt": "d", "author": "a"}]"#),
        Some("[]"),
        Some(r#"{"total": 10}"#),
        Some(r#"{"total": 5}"#),
        Some(r#"{"total": 2}"#),
    )
    .expect("all payloads parse");
    assert_eq!(state.pr.len(), 1);
    assert!(state.workflow.is_empty());
    assert_eq!(state.commits.total, 10);
    assert_eq!(state.commits.last_month, 5);
    assert_eq!(state.commits.last_week, 2);
}

#[test]
fn metrics_round_retries_on_any_failure() {
    // A failed download.
    assert!(metrics_round(
        &None,
        None,
        Some("[]"),
        Some(r#"{"total": 1}"#),
        Some(r#"{"total": 1}"#),
        Some(r#"{"total": 1}"#),
    )
    .is_none());
    // A payload that does not parse.
    assert!(metrics_round(
        &None,
        Some("not json"),
        Some("[]"),
        Some(r#"{"total": 1}"#),
        Some(r#"{"total": 1}"#),
        Some(r#"{"total": 1}"#),
    )
    .is_none());
}

#[test]
fn metrics_round_retries_on_malformed_payload() {
    // A truncated download is not a payload; the round asks for a retry.
    assert!(metrics_round(
        &None,
        Some("[{"),
        Some("[]"),
        Some(r#"{"total": 1}"#),
        Some(r#"{"total": 1}"#),
        Some(r#"{"total": 1}"#),
    )
    .is_none());
}

#[test]
fn request_header_constants_are_as_sent() {
    assert_eq!(METRICS_USER_AGENT, "ESP32-Client");
    assert_eq!(auth_header(&b"t".to_vec()), b"token t".to_vec());
}

use sherlock::query::{classify_reply, to_query_result, HttpReply, QueryError, QueryStatus, RequestResult};
use sherlock::sherlock_target_manifest::{ErrorCode, ErrorMsg, ErrorType, TargetInfo};
use sherlock::waf::{waf_hit, CLOUDFLARE_CHALLENGE, PERIMETERX_CHALLENGE};
use std::sync::Arc;
use std::time::Duration;

fn target(error_type: ErrorType) -> TargetInfo {
    TargetInfo {
        url: "https://example.com/{}".to_string(),
        url_main: "https://example.com".to_string(),
        url_probe: None,
        username_claimed: "blue".to_string(),
        regex_check: None,
        is_nsfw: None,
        headers: None,
        request_payload: None,
        __comment__: None,
        tags: None,
        request_method: None,
        error_type,
    }
}

#[test]
fn message_rule_detects_messages() {
    let rule = ErrorType::Message {
        msg: ErrorMsg::Multiple(vec!["Not Found".to_string(), "404".to_string()]),
    };
    assert_eq!(classify_reply(&rule, 200, "User page — 404 missing"), QueryStatus::Available);
    assert_eq!(classify_reply(&rule, 200, "Welcome to the profile"), QueryStatus::Claimed);
}

#[test]
fn message_rule_is_case_sensitive() {
    let rule = ErrorType::Message { msg: ErrorMsg::Single("Not Found".to_string()) };
    assert_eq!(classify_reply(&rule, 404, "not found"), QueryStatus::Claimed);
    assert_eq!(classify_reply(&rule, 404, "Page Not Found."), QueryStatus::Available);
}

#[test]
fn status_code_rule_default_band() {
    let rule = ErrorType::StatusCode { codes: None };
    assert_eq!(classify_reply(&rule, 404, ""), QueryStatus::Available);
    assert_eq!(classify_reply(&rule, 200, ""), QueryStatus::Claimed);
    assert_eq!(classify_reply(&rule, 301, ""), QueryStatus::Claimed);
    assert_eq!(classify_reply(&rule, 500, ""), QueryStatus::Available);
    assert_eq!(classify_reply(&rule, 399, ""), QueryStatus::Claimed);
    assert_eq!(classify_reply(&rule, 199, ""), QueryStatus::Available);
}

#[test]
fn status_code_rule_explicit_codes() {
    let single = ErrorType::StatusCode { codes: Some(ErrorCode::Single(204)) };
    assert_eq!(classify_reply(&single, 204, ""), QueryStatus::Available);
    assert_eq!(classify_reply(&single, 200, ""), QueryStatus::Claimed);
    let multiple = ErrorType::StatusCode { codes: Some(ErrorCode::Multiple(vec![204])) };
    assert_eq!(classify_reply(&multiple, 204, ""), QueryStatus::Available);
    assert_eq!(classify_reply(&multiple, 200, ""), QueryStatus::Claimed);
    assert_eq!(classify_reply(&multiple, 404, ""), QueryStatus::Claimed);
}

#[test]
fn response_url_rule_success_band() {
    let rule = ErrorType::ResponseUrl { url: "https://example.com/404".to_string() };
    assert_eq!(classify_reply(&rule, 200, ""), QueryStatus::Claimed);
    assert_eq!(classify_reply(&rule, 299, ""), QueryStatus::Claimed);
    assert_eq!(classify_reply(&rule, 300, ""), QueryStatus::Available);
    assert_eq!(classify_reply(&rule, 404, ""), QueryStatus::Available);
}

#[test]
fn waf_fingerprint_overrides_rule() {
    let body = format!("<html><style>{}</style></html>", CLOUDFLARE_CHALLENGE);
    let rule = ErrorType::StatusCode { codes: None };
    assert_eq!(classify_reply(&rule, 200, &body), QueryStatus::Waf);
    let msg_rule = ErrorType::Message { msg: ErrorMsg::Single("Not Found".to_string()) };
    let body2 = format!("Not Found {}", PERIMETERX_CHALLENGE);
    assert_eq!(classify_reply(&msg_rule, 404, &body2), QueryStatus::Waf);
}

#[test]
fn waf_hit_needs_whole_fingerprint() {
    assert!(waf_hit(CLOUDFLARE_CHALLENGE));
    assert!(!waf_hit(".loading-spinner{visibility:hidden}"));
    assert!(!waf_hit(""));
}

#[test]
fn error_msg_is_in() {
    let single = ErrorMsg::Single("gone".to_string());
    assert!(single.is_in("user is gone"));
    assert!(!single.is_in("user is here"));
    let none = ErrorMsg::Multiple(vec![]);
    assert!(!none.is_in("anything"));
}

#[test]
fn error_msg_describe() {
    assert_eq!(ErrorMsg::Single("a".to_string()).describe(), "a");
    let m = ErrorMsg::Multiple(vec!["a".to_string(), "b".to_string()]);
    assert_eq!(m.describe(), "a, b, ");
}

#[test]
fn error_code_contains() {
    assert!(ErrorCode::Single(404).contains(&404));
    assert!(!ErrorCode::Single(404).contains(&200));
    assert!(ErrorCode::Multiple(vec![403, 404]).contains(&404));
    assert!(!ErrorCode::Multiple(vec![]).contains(&404));
}

fn outcome(response: Result<HttpReply, QueryError>) -> RequestResult {
    RequestResult {
        username: "bob".to_string(),
        site: "Example".to_string(),
        info: Arc::new(target(ErrorType::StatusCode { codes: None })),
        url: "https://example.com/bob".to_string(),
        url_probe: "https://example.com/bob".to_string(),
        response,
        query_time: Duration::from_millis(12),
    }
}

#[test]
fn failures_become_illegal_or_unknown() {
    let q = to_query_result(outcome(Err(QueryError::InvalidUsernameError)));
    assert_eq!(q.status, QueryStatus::Illegal);
    assert_eq!(q.context.as_deref(), Some("Invalid username"));
    assert_eq!(q.http_status, None);
    let q = to_query_result(outcome(Err(QueryError::RequestError)));
    assert_eq!(q.status, QueryStatus::Unknown);
    assert_eq!(q.context.as_deref(), Some("Request error"));
    let q = to_query_result(outcome(Err(QueryError::RegexError("bad pattern".to_string()))));
    assert_eq!(q.status, QueryStatus::Unknown);
    assert_eq!(q.context.as_deref(), Some("bad pattern"));
}

#[test]
fn response_result_keeps_site_and_status() {
    let q = to_query_result(outcome(Ok(HttpReply { status: 404, body: String::new() })));
    assert_eq!(q.status, QueryStatus::Available);
    assert_eq!(q.http_status, Some(404));
    assert_eq!(q.context, None);
    assert_eq!(q.site_name, "Example");
    assert_eq!(q.site_url_user, "https://example.com/bob");
    assert_eq!(q.query_time, Duration::from_millis(12));
    assert_eq!(q.status.name(), "Available");
}

#[test]
fn result_summary_quotes_context() {
    let q = to_query_result(outcome(Err(QueryError::RequestError)));
    assert_eq!(q.summary(), "Unknown (\"Request error\")");
    let q = to_query_result(outcome(Ok(HttpReply { status: 200, body: String::new() })));
    assert_eq!(q.summary(), "Claimed");
}

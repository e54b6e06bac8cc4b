use oc_quota::interceptor::{
    connect_reply, describe_status, describe_status_with, forwards_lowercase_header,
    forwards_request_header, is_completion_path, keeps_lowercase_header,
    is_retryable_status, keeps_response_header, proxy_error_reply, proxy_url_for, target_url, AttemptVerdict,
    ConnectReply,
};
use oc_quota::state::{AppState, ProxyPool};

fn strip_stamp(line: &str) -> &str {
    &line[11..]
}

#[test]
fn completions_are_recognised_by_path() {
    assert!(is_completion_path("/v1/chat/completions"));
    assert!(is_completion_path("/completions"));
    assert!(is_completion_path("/v1/completions?x=1"));
    assert!(!is_completion_path("/v1/models"));
    assert!(!is_completion_path("/v1/completion"));
}

#[test]
fn rate_limits_and_server_failures_are_retried() {
    assert!(is_retryable_status(429));
    assert!(is_retryable_status(500));
    assert!(is_retryable_status(502));
    assert!(is_retryable_status(599));
    assert!(!is_retryable_status(200));
    assert!(!is_retryable_status(404));
    assert!(!is_retryable_status(428));
    assert!(!is_retryable_status(499));
}

#[test]
fn statuses_are_written_with_their_reason() {
    assert_eq!(describe_status(429), "429 Too Many Requests");
    assert_eq!(describe_status(502), "502 Bad Gateway");
    assert_eq!(describe_status(200), "200 OK");
    assert_eq!(describe_status(599), "599 <unknown status code>");
}

#[test]
fn requests_go_to_their_own_host() {
    assert_eq!(
        target_url(Some("example.com"), Some("http"), Some("/v1/x?y=1")),
        "http://example.com/v1/x?y=1"
    );
    assert_eq!(target_url(Some("example.com"), None, None), "http://example.com");
    assert_eq!(
        target_url(Some("api.minimax.chat"), Some("http"), Some("/v1/chat/completions")),
        "https://api.minimax.chat/v1/chat/completions"
    );
    assert_eq!(target_url(Some("a.b"), Some("https"), Some("/")), "https://a.b/");
}

#[test]
fn requests_without_host_go_upstream() {
    assert_eq!(
        target_url(None, Some("http"), Some("/v1/chat/completions")),
        "https://api.minimax.chat/v1/chat/completions"
    );
    assert_eq!(target_url(None, None, None), "https://api.minimax.chat");
}

#[test]
fn header_filters_ignore_case() {
    assert!(!forwards_request_header("host"));
    assert!(!forwards_request_header("Host"));
    assert!(!forwards_request_header("HOST"));
    assert!(forwards_request_header("content-type"));
    assert!(forwards_request_header("x-host"));
    assert!(!keeps_response_header("transfer-encoding"));
    assert!(!keeps_response_header("Content-Encoding"));
    assert!(keeps_response_header("content-type"));
    assert!(keeps_response_header("content-length"));
}

#[test]
fn proxies_are_used_when_the_pool_has_a_url() {
    assert_eq!(proxy_url_for(&None), None);
    let mut p = ProxyPool {
        id: "tor-1".to_string(),
        name: "Tor #1".to_string(),
        url: "socks5h://127.0.0.1:9051".to_string(),
        is_active: true,
        errors: 0,
        last_used: None,
    };
    assert_eq!(proxy_url_for(&Some(p.duplicate())).as_deref(), Some("socks5h://127.0.0.1:9051"));
    p.url = String::new();
    assert_eq!(proxy_url_for(&Some(p)), None);
}

#[test]
fn connect_needs_an_authority() {
    assert_eq!(connect_reply(Some("example.com:443")), ConnectReply::Tunnel("example.com:443".to_string()));
    assert_eq!(connect_reply(None), ConnectReply::BadRequest);
}

#[test]
fn attempts_are_counted_and_logged() {
    let mut s = AppState::new();
    let n = s.begin_attempt(0);
    assert_eq!(n, 1);
    assert_eq!(s.settle_attempt(n, 429), AttemptVerdict::Retry);
    let n = s.begin_attempt(n);
    assert_eq!(s.settle_attempt(n, 502), AttemptVerdict::Retry);
    let n = s.begin_attempt(n);
    assert_eq!(n, 3);
    assert_eq!(s.settle_attempt(n, 200), AttemptVerdict::Deliver);
    assert_eq!(s.total_requests, 3);
    assert_eq!(s.total_retries, 2);
    assert_eq!(strip_stamp(&s.logs[0]), "FAIL (429 Too Many Requests) on attempt 1 - switching pool...");
    assert_eq!(strip_stamp(&s.logs[1]), "FAIL (502 Bad Gateway) on attempt 2 - switching pool...");
    assert_eq!(strip_stamp(&s.logs[2]), "OK: Request succeeded on attempt 3");
}

#[test]
fn first_try_success_is_logged_as_such() {
    let mut s = AppState::new();
    let n = s.begin_attempt(0);
    assert_eq!(s.settle_attempt(n, 201), AttemptVerdict::Deliver);
    assert_eq!(s.total_retries, 0);
    assert_eq!(strip_stamp(&s.logs[0]), "OK: Request succeeded on first try");
}

#[test]
fn switch_failures_and_binding_are_logged() {
    let mut s = AppState::new();
    s.record_switch_failure();
    s.record_bind(None);
    s.record_bind(Some("address in use"));
    assert_eq!(strip_stamp(&s.logs[0]), "CRITICAL: Failed to switch pool. Waiting 2s...");
    assert_eq!(strip_stamp(&s.logs[1]), "Unified Interceptor listening on 127.0.0.1:20131");
    assert_eq!(strip_stamp(&s.logs[2]), "Failed to bind interceptor port: address in use");
}

#[test]
fn unsent_requests_are_answered_with_bad_gateway() {
    let (code, body) = proxy_error_reply("connection refused");
    assert_eq!(code, 502);
    assert_eq!(body, "Proxy error: connection refused");
}

#[test]
fn status_text_from_a_given_reason() {
    assert_eq!(describe_status_with(429, Some("Too Many Requests")), "429 Too Many Requests");
    assert_eq!(describe_status_with(799, None), "799 <unknown status code>");
}

#[test]
fn header_rules_on_lower_case_names() {
    assert!(!forwards_lowercase_header("host"));
    assert!(forwards_lowercase_header("HOST"));
    assert!(forwards_lowercase_header("accept"));
    assert!(!keeps_lowercase_header("transfer-encoding"));
    assert!(!keeps_lowercase_header("content-encoding"));
    assert!(keeps_lowercase_header("content-type"));
}

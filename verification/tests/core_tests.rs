use request_core::errors::{Error, ErrorKind};
use request_core::headers::HeaderMap;
use request_core::retry::{compute_delay_ms, RetryConfig};
use request_core::strutil::{fmt_i64, fmt_u64, parse_u64, str_eq, str_eq_ignore_case};

#[test]
fn transient_statuses_are_the_allow_list() {
    for s in [408u16, 429, 500, 502, 503, 504] {
        assert!(request_core::errors::status_is_transient(s));
    }
    for s in [200u16, 201, 301, 400, 401, 403, 404, 409, 501] {
        assert!(!request_core::errors::status_is_transient(s));
    }
}

#[test]
fn error_kinds_are_distinct() {
    let transport = Error::Transport {
        message: String::from("boom"),
    };
    let status = Error::UnexpectedStatus {
        status: 404,
        body: vec![1, 2],
    };
    assert_eq!(transport.kind(), ErrorKind::Transport);
    assert_eq!(status.kind(), ErrorKind::UnexpectedStatus);
    assert_ne!(transport.kind(), status.kind());
    assert!(transport.is_transient());
    assert!(!status.is_transient());
    let busy = Error::UnexpectedStatus {
        status: 429,
        body: Vec::new(),
    };
    assert!(busy.is_transient());
    assert!(!Error::Cancelled.is_transient());
}

#[test]
fn backoff_doubles_from_the_base() {
    let cfg = RetryConfig::default();
    assert_eq!(compute_delay_ms(&cfg, 0, None, 0), 800);
    assert_eq!(compute_delay_ms(&cfg, 1, None, 0), 1600);
    assert_eq!(compute_delay_ms(&cfg, 2, None, 0), 3200);
}

#[test]
fn backoff_is_clamped_by_the_maximum() {
    let cfg = RetryConfig::new(10, 800, 2, 1000);
    assert_eq!(compute_delay_ms(&cfg, 0, None, 0), 800);
    assert_eq!(compute_delay_ms(&cfg, 1, None, 0), 1000);
    assert_eq!(compute_delay_ms(&cfg, 9, None, 0), 1000);
}

#[test]
fn jitter_is_added_then_clamped() {
    let cfg = RetryConfig::default();
    assert_eq!(compute_delay_ms(&cfg, 0, None, 100), 900);
    let tight = RetryConfig::new(3, 800, 2, 850);
    assert_eq!(compute_delay_ms(&tight, 0, None, 100), 850);
}

#[test]
fn retry_after_hint_overrides_the_backoff() {
    let cfg = RetryConfig::default();
    assert_eq!(compute_delay_ms(&cfg, 0, Some(5), 0), 5);
    assert_eq!(compute_delay_ms(&cfg, 0, Some(100000), 0), 60000);
    assert_eq!(compute_delay_ms(&cfg, 2, Some(5), 99), 5);
}

#[test]
fn decimal_formatting_is_exact() {
    assert_eq!(fmt_u64(0), "0");
    assert_eq!(fmt_u64(7), "7");
    assert_eq!(fmt_u64(1234), "1234");
    assert_eq!(fmt_u64(u64::MAX), "18446744073709551615");
    assert_eq!(fmt_i64(-5), "-5");
    assert_eq!(fmt_i64(42), "42");
}

#[test]
fn decimal_parsing_is_exact() {
    assert_eq!(parse_u64("0"), Some(0));
    assert_eq!(parse_u64("123"), Some(123));
    assert_eq!(parse_u64("18446744073709551615"), Some(u64::MAX));
    assert_eq!(parse_u64(""), None);
    assert_eq!(parse_u64("12a"), None);
    assert_eq!(parse_u64("-1"), None);
    assert_eq!(parse_u64("18446744073709551616"), None);
}

#[test]
fn string_comparisons() {
    assert!(str_eq("abc", "abc"));
    assert!(!str_eq("abc", "abd"));
    assert!(str_eq_ignore_case("Content-Type", "content-type"));
    assert!(str_eq_ignore_case("X-MS-META-K", "x-ms-meta-k"));
    assert!(!str_eq_ignore_case("a", "b"));
    assert!(!str_eq_ignore_case("ab", "a"));
}

#[test]
fn header_names_are_case_insensitive_and_last_write_wins() {
    let mut h = HeaderMap::new();
    assert_eq!(h.len(), 0);
    h.insert("Content-Type", "text/plain");
    assert_eq!(h.get("content-type").map(|v| v.as_str()), Some("text/plain"));
    h.insert("CONTENT-TYPE", "application/json");
    assert_eq!(h.len(), 1);
    assert_eq!(
        h.get("Content-Type").map(|v| v.as_str()),
        Some("application/json")
    );
    assert!(h.get("accept").is_none());
    h.insert("Accept", "*/*");
    assert_eq!(h.len(), 2);
    assert!(h.contains("accept"));
    let copy = h.duplicate();
    assert_eq!(copy.len(), 2);
    assert_eq!(copy.get("content-type").map(|v| v.as_str()), Some("application/json"));
}

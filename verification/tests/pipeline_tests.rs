use request_core::errors::ErrorKind;
use request_core::headers::HeaderMap;
use request_core::message::{Method, Request, Response};
use request_core::pipeline::{
    on_transport_event, prepare_attempt, retry_after_hint_ms, send_scripted, PolicyStep,
    TransportEvent,
};
use request_core::requrl::RequestUrl;
use request_core::retry::RetryConfig;
use request_core::token_cache::{PollOutcome, RefreshOutcome, Token, TokenCache};

fn get_request() -> Request {
    let url = RequestUrl::parse("https://example.com/items").unwrap();
    Request::new(Method::Get, url)
}

fn ok_response(status: u16) -> Response {
    Response {
        status,
        headers: HeaderMap::new(),
        body: Vec::new(),
    }
}

fn fail(msg: &str) -> TransportEvent {
    TransportEvent::TransportFailure(String::from(msg))
}

#[test]
fn idempotent_request_retries_through_failures() {
    // Two transport failures, then success: the success value is returned
    // and the transport was invoked exactly three times.
    let cfg = RetryConfig::default();
    let req = get_request();
    let events = vec![
        fail("reset"),
        fail("reset"),
        TransportEvent::Delivered(ok_response(200)),
    ];
    let report = send_scripted(&cfg, &req, None, events);
    assert_eq!(report.attempts, 3);
    assert_eq!(report.outcome.unwrap().status, 200);
}

#[test]
fn immediate_success_uses_one_attempt() {
    let cfg = RetryConfig::default();
    let req = get_request();
    let events = vec![
        TransportEvent::Delivered(ok_response(200)),
        fail("never reached"),
        fail("never reached"),
    ];
    let report = send_scripted(&cfg, &req, None, events);
    assert_eq!(report.attempts, 1);
    assert_eq!(report.outcome.unwrap().status, 200);
}

#[test]
fn non_idempotent_failure_is_surfaced_after_one_attempt() {
    // Whatever the retry configuration allows, a non-idempotent request
    // performs no retry.
    let cfg = RetryConfig::new(5, 1, 2, 1000);
    let url = RequestUrl::parse("https://example.com/orders").unwrap();
    let req = Request::new(Method::Post, url);
    assert!(!req.idempotent);
    let events = vec![
        fail("reset"),
        TransportEvent::Delivered(ok_response(200)),
        fail("x"),
        fail("x"),
        fail("x"),
    ];
    let report = send_scripted(&cfg, &req, None, events);
    assert_eq!(report.attempts, 1);
    let err = report.outcome.unwrap_err();
    assert_eq!(err.kind(), ErrorKind::Transport);
}

#[test]
fn an_explicit_idempotency_contract_permits_retry_of_a_post() {
    let cfg = RetryConfig::default();
    let url = RequestUrl::parse("https://example.com/orders").unwrap();
    let mut req = Request::new(Method::Post, url);
    req.set_idempotent(true);
    let events = vec![
        fail("reset"),
        TransportEvent::Delivered(ok_response(200)),
        fail("never"),
    ];
    let report = send_scripted(&cfg, &req, None, events);
    assert_eq!(report.attempts, 2);
    assert_eq!(report.outcome.unwrap().status, 200);
}

#[test]
fn exhausted_budget_surfaces_the_last_error() {
    let cfg = RetryConfig::default();
    let req = get_request();
    let events = vec![fail("a"), fail("b"), fail("c")];
    let report = send_scripted(&cfg, &req, None, events);
    assert_eq!(report.attempts, 3);
    match report.outcome.unwrap_err() {
        request_core::errors::Error::Transport { message } => assert_eq!(message, "c"),
        other => panic!("expected a transport error, got {:?}", other.kind()),
    }
}

#[test]
fn transient_status_is_retried_and_client_error_is_not() {
    let cfg = RetryConfig::default();
    let req = get_request();
    let events = vec![
        TransportEvent::Delivered(ok_response(503)),
        TransportEvent::Delivered(ok_response(200)),
        fail("never"),
    ];
    let report = send_scripted(&cfg, &req, None, events);
    assert_eq!(report.attempts, 2);
    assert_eq!(report.outcome.unwrap().status, 200);

    let events = vec![
        TransportEvent::Delivered(ok_response(404)),
        TransportEvent::Delivered(ok_response(200)),
        fail("never"),
    ];
    let report = send_scripted(&cfg, &get_request(), None, events);
    assert_eq!(report.attempts, 1);
    assert_eq!(report.outcome.unwrap().status, 404);
}

#[test]
fn cancellation_propagates_immediately() {
    let cfg = RetryConfig::default();
    let req = get_request();
    let events = vec![TransportEvent::Cancelled, fail("never"), fail("never")];
    let report = send_scripted(&cfg, &req, None, events);
    assert_eq!(report.attempts, 1);
    assert_eq!(report.outcome.unwrap_err().kind(), ErrorKind::Cancelled);
}

#[test]
fn every_attempt_replays_the_original_body() {
    // The round trip: each attempt's request carries exactly the caller's
    // body bytes, and a fresh bearer header.
    let cfg = RetryConfig::new(4, 1, 2, 10);
    let url = RequestUrl::parse("https://example.com/upload").unwrap();
    let mut req = Request::new(Method::Put, url);
    req.set_body(vec![1, 2, 3, 255]);
    let events = vec![fail("a"), fail("b"), fail("c"), fail("d")];
    let report = send_scripted(&cfg, &req, Some("tok"), events);
    assert_eq!(report.attempts, 4);
    assert_eq!(report.sent.len(), 4);
    for sent in &report.sent {
        assert_eq!(sent.body, vec![1, 2, 3, 255]);
        assert_eq!(
            sent.headers.get("Authorization").map(|v| v.as_str()),
            Some("Bearer tok")
        );
    }
}

#[test]
fn attempt_preparation_copies_headers_and_body() {
    let url = RequestUrl::parse("https://example.com/x").unwrap();
    let mut req = Request::new(Method::Get, url);
    req.headers.insert("accept", "application/json");
    req.set_body(vec![9, 9]);
    let prepared = prepare_attempt(&req, Some("secret"));
    assert_eq!(prepared.body, vec![9, 9]);
    assert_eq!(
        prepared.headers.get("accept").map(|v| v.as_str()),
        Some("application/json")
    );
    assert_eq!(
        prepared.headers.get("authorization").map(|v| v.as_str()),
        Some("Bearer secret")
    );
    // The original is untouched.
    assert!(req.headers.get("authorization").is_none());
}

#[test]
fn a_challenge_invalidates_the_token_once_and_resends_once() {
    let cfg = RetryConfig::default();
    let req = get_request();
    let mut cache = TokenCache::new(60);
    // Seed a cached token so the forced invalidation is observable.
    assert!(matches!(cache.poll("scope", 0), PollOutcome::MustRefresh));
    cache.complete_refresh(
        "scope",
        RefreshOutcome::Available(Token {
            secret: String::from("stale"),
            expires_at: 100_000,
            scope_key: String::from("scope"),
        }),
    );
    assert!(cache.get_token("scope", 0).is_some());
    let first = vec![
        TransportEvent::Delivered(ok_response(401)),
        fail("never"),
        fail("never"),
    ];
    let second = vec![
        TransportEvent::Delivered(ok_response(200)),
        fail("never"),
        fail("never"),
    ];
    let report = request_core::pipeline::send_with_reauth(
        &cfg, &req, &mut cache, "scope", Some("stale"), Some("fresh"), first, second,
    );
    assert!(report.invalidated);
    assert_eq!(report.attempts, 2);
    assert_eq!(report.outcome.unwrap().status, 200);
    // The one forced invalidation dropped the stale token.
    assert!(cache.get_token("scope", 0).is_none());
}

#[test]
fn a_second_challenge_is_surfaced_not_retried() {
    let cfg = RetryConfig::default();
    let req = get_request();
    let mut cache = TokenCache::new(60);
    let first = vec![
        TransportEvent::Delivered(ok_response(401)),
        fail("never"),
        fail("never"),
    ];
    let second = vec![
        TransportEvent::Delivered(ok_response(401)),
        fail("never"),
        fail("never"),
    ];
    let report = request_core::pipeline::send_with_reauth(
        &cfg, &req, &mut cache, "scope", None, Some("fresh"), first, second,
    );
    assert!(report.invalidated);
    assert_eq!(report.attempts, 2);
    // The second challenge comes back to the caller; no third run happens.
    assert_eq!(report.outcome.unwrap().status, 401);
}

#[test]
fn an_unchallenged_run_leaves_the_cache_untouched() {
    let cfg = RetryConfig::default();
    let req = get_request();
    let mut cache = TokenCache::new(60);
    assert!(matches!(cache.poll("scope", 0), PollOutcome::MustRefresh));
    cache.complete_refresh(
        "scope",
        RefreshOutcome::Available(Token {
            secret: String::from("good"),
            expires_at: 100_000,
            scope_key: String::from("scope"),
        }),
    );
    let first = vec![
        TransportEvent::Delivered(ok_response(200)),
        fail("never"),
        fail("never"),
    ];
    let second = vec![fail("unused"), fail("unused"), fail("unused")];
    let report = request_core::pipeline::send_with_reauth(
        &cfg, &req, &mut cache, "scope", Some("good"), Some("unused"), first, second,
    );
    assert!(!report.invalidated);
    assert_eq!(report.attempts, 1);
    assert_eq!(report.outcome.unwrap().status, 200);
    assert_eq!(cache.get_token("scope", 0).unwrap().secret, "good");
}

#[test]
fn telemetry_records_the_outcome_without_touching_it() {
    let req = get_request();
    let delivered: Result<Response, request_core::errors::Error> = Ok(ok_response(200));
    let record = request_core::pipeline::telemetry_record(&req, &delivered, 42);
    assert_eq!(record.method, Method::Get);
    assert_eq!(record.url, "https://example.com/items");
    assert_eq!(record.elapsed_ms, 42);
    assert_eq!(record.status, Some(200));
    assert!(record.error.is_none());
    // The outcome is still intact after recording.
    assert_eq!(delivered.unwrap().status, 200);

    let failed: Result<Response, request_core::errors::Error> =
        Err(request_core::errors::Error::Cancelled);
    let record = request_core::pipeline::telemetry_record(&req, &failed, 1);
    assert!(record.status.is_none());
    assert_eq!(record.error, Some(ErrorKind::Cancelled));
}

#[test]
fn a_credential_challenge_is_retried_exactly_once() {
    assert!(request_core::pipeline::on_auth_challenge(401, false));
    assert!(!request_core::pipeline::on_auth_challenge(401, true));
    assert!(!request_core::pipeline::on_auth_challenge(403, false));
    assert!(!request_core::pipeline::on_auth_challenge(200, false));
}

#[test]
fn retry_after_header_is_read_in_seconds() {
    let mut headers = HeaderMap::new();
    headers.insert("Retry-After", "7");
    let resp = Response {
        status: 503,
        headers,
        body: Vec::new(),
    };
    assert_eq!(retry_after_hint_ms(&resp), Some(7000));

    let mut headers = HeaderMap::new();
    headers.insert("Retry-After", "soon");
    let resp = Response {
        status: 503,
        headers,
        body: Vec::new(),
    };
    assert_eq!(retry_after_hint_ms(&resp), None);
    assert_eq!(retry_after_hint_ms(&ok_response(503)), None);
}

#[test]
fn policy_step_honours_the_server_hint() {
    let cfg = RetryConfig::default();
    let mut headers = HeaderMap::new();
    headers.insert("Retry-After", "2");
    let resp = Response {
        status: 429,
        headers,
        body: Vec::new(),
    };
    match on_transport_event(&cfg, true, 0, TransportEvent::Delivered(resp), 123) {
        PolicyStep::Retry { delay_ms } => assert_eq!(delay_ms, 2000),
        PolicyStep::Finish(_) => panic!("expected a retry"),
    }
    match on_transport_event(&cfg, true, 0, fail("reset"), 0) {
        PolicyStep::Retry { delay_ms } => assert_eq!(delay_ms, 800),
        PolicyStep::Finish(_) => panic!("expected a retry"),
    }
    match on_transport_event(&cfg, true, 2, fail("reset"), 0) {
        PolicyStep::Finish(outcome) => {
            assert_eq!(outcome.unwrap_err().kind(), ErrorKind::Transport)
        }
        PolicyStep::Retry { .. } => panic!("budget was exhausted"),
    }
}

use request_core::token_cache::{PollOutcome, RefreshOutcome, Token, TokenCache};

fn token(secret: &str, expires_at: i64, scope: &str) -> Token {
    Token {
        secret: String::from(secret),
        expires_at,
        scope_key: String::from(scope),
    }
}

#[test]
fn concurrent_callers_share_one_refresh() {
    // Several callers arrive while no valid token exists: exactly one is
    // elected to refresh, the rest await, and all read the same token.
    let mut cache = TokenCache::new(120);
    let now = 1_000_000;
    assert!(matches!(cache.poll("scope-a", now), PollOutcome::MustRefresh));
    assert!(matches!(cache.poll("scope-a", now), PollOutcome::AwaitInFlight));
    assert!(matches!(cache.poll("scope-a", now), PollOutcome::AwaitInFlight));
    cache.complete_refresh(
        "scope-a",
        RefreshOutcome::Available(token("s3cret", now + 3600, "scope-a")),
    );
    for _ in 0..3 {
        match cache.await_outcome("scope-a") {
            Some(RefreshOutcome::Available(t)) => {
                assert_eq!(t.secret, "s3cret");
                assert_eq!(t.expires_at, now + 3600);
            }
            other => panic!("expected the shared token, got {:?}", other.is_some()),
        }
    }
    // The stored token now serves polls directly.
    match cache.poll("scope-a", now) {
        PollOutcome::Fresh(t) => assert_eq!(t.secret, "s3cret"),
        _ => panic!("expected the cached token"),
    }
}

#[test]
fn all_waiters_see_the_same_error_and_the_cache_is_not_poisoned() {
    let mut cache = TokenCache::new(120);
    let now = 50;
    assert!(matches!(cache.poll("scope", now), PollOutcome::MustRefresh));
    assert!(matches!(cache.poll("scope", now), PollOutcome::AwaitInFlight));
    cache.complete_refresh("scope", RefreshOutcome::Failed(String::from("denied")));
    match cache.await_outcome("scope") {
        Some(RefreshOutcome::Failed(m)) => assert_eq!(m, "denied"),
        _ => panic!("expected the shared failure"),
    }
    // The next poll refreshes cleanly instead of replaying the failure.
    assert!(matches!(cache.poll("scope", now), PollOutcome::MustRefresh));
}

#[test]
fn valid_token_is_returned_without_a_refresh() {
    // A token whose expiry is more than the margin in the future comes
    // back from a read-only lookup; no refresh is started.
    let mut cache = TokenCache::new(120);
    let now = 10_000;
    assert!(matches!(cache.poll("s", now), PollOutcome::MustRefresh));
    cache.complete_refresh("s", RefreshOutcome::Available(token("t1", now + 121, "s")));
    let got = cache.get_token("s", now).expect("the token is valid beyond the margin");
    assert_eq!(got.secret, "t1");
    assert!(matches!(cache.poll("s", now), PollOutcome::Fresh(_)));
}

#[test]
fn margin_boundary_is_strict() {
    let mut cache = TokenCache::new(120);
    let now = 10_000;
    assert!(matches!(cache.poll("s", now), PollOutcome::MustRefresh));
    // Exactly at the margin the token is already too close to expiry.
    cache.complete_refresh("s", RefreshOutcome::Available(token("t1", now + 120, "s")));
    assert!(cache.get_token("s", now).is_none());
    assert!(matches!(cache.poll("s", now), PollOutcome::MustRefresh));
}

#[test]
fn scope_sets_are_cached_independently() {
    let mut cache = TokenCache::new(60);
    let now = 500;
    assert!(matches!(cache.poll("scope-a", now), PollOutcome::MustRefresh));
    // A second scope set is not blocked by the first's in-flight refresh.
    assert!(matches!(cache.poll("scope-b", now), PollOutcome::MustRefresh));
    cache.complete_refresh("scope-a", RefreshOutcome::Available(token("ta", now + 3600, "scope-a")));
    cache.complete_refresh("scope-b", RefreshOutcome::Available(token("tb", now + 3600, "scope-b")));
    assert_eq!(cache.get_token("scope-a", now).unwrap().secret, "ta");
    assert_eq!(cache.get_token("scope-b", now).unwrap().secret, "tb");
}

#[test]
fn invalidation_forces_the_next_refresh() {
    let mut cache = TokenCache::new(60);
    let now = 500;
    assert!(matches!(cache.poll("s", now), PollOutcome::MustRefresh));
    cache.complete_refresh("s", RefreshOutcome::Available(token("t", now + 3600, "s")));
    assert!(cache.get_token("s", now).is_some());
    cache.invalidate("s");
    assert!(cache.get_token("s", now).is_none());
    assert!(matches!(cache.poll("s", now), PollOutcome::MustRefresh));
}

#[test]
fn expired_token_triggers_a_refresh() {
    let mut cache = TokenCache::new(120);
    let now = 10_000;
    assert!(matches!(cache.poll("s", now), PollOutcome::MustRefresh));
    cache.complete_refresh("s", RefreshOutcome::Available(token("t1", now + 3600, "s")));
    let later = now + 3600;
    assert!(cache.get_token("s", later).is_none());
    assert!(matches!(cache.poll("s", later), PollOutcome::MustRefresh));
}

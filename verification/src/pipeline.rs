//! The pipeline: a request runs through the policy chain — telemetry,
//! retry, authentication — and ends in the transport send. The transport
//! itself is outside this core; the chain's decisions over the sequence of
//! transport events are pure and proved here.
//!
//! A delivered response is handed back whatever its status (the decoder
//! classifies it); a response with a status on the transient allow-list,
//! like a transport-level failure, is resubmitted while the request is
//! idempotent and the attempt budget allows, with a fresh copy of the
//! headers each time and the body replayed from its original bytes.

use vstd::math::min;
use vstd::prelude::*;

use crate::errors::{spec_status_is_transient, Error};
use crate::headers::spec_lookup;
use crate::message::{Request, Response};
use crate::retry::{compute_delay_ms, spec_delay_ms, RetryConfig};
use crate::strutil::{copy_bytes, parse_u64, spec_all_digits, spec_dec_value, spec_eq_ignore_case};
use crate::token_cache::TokenCache;

verus! {

/// What one transport invocation came back with.
#[derive(Debug)]
pub enum TransportEvent {
    /// A response was delivered, whatever its status.
    Delivered(Response),
    /// The connection failed below the status layer.
    TransportFailure(String),
    /// The caller abandoned the request while it was in flight.
    Cancelled,
}

/// The result of running the chain: the terminal outcome and the number
/// of transport invocations made.
pub open spec fn spec_run_from(
    cfg: RetryConfig,
    idempotent: bool,
    events: Seq<TransportEvent>,
    attempt: nat,
) -> (Result<Response, Error>, nat)
    decreases cfg.max_attempts - attempt,
{
    match events[attempt as int] {
        TransportEvent::Cancelled => (Err(Error::Cancelled), (attempt + 1) as nat),
        TransportEvent::TransportFailure(m) => {
            if idempotent && attempt + 1 < cfg.max_attempts {
                spec_run_from(cfg, idempotent, events, (attempt + 1) as nat)
            } else {
                (Err(Error::Transport { message: m }), (attempt + 1) as nat)
            }
        },
        TransportEvent::Delivered(r) => {
            if idempotent && spec_status_is_transient(r.status) && attempt + 1 < cfg.max_attempts {
                spec_run_from(cfg, idempotent, events, (attempt + 1) as nat)
            } else {
                (Ok(r), (attempt + 1) as nat)
            }
        },
    }
}

pub open spec fn spec_run(cfg: RetryConfig, idempotent: bool, events: Seq<TransportEvent>) -> (
    Result<Response, Error>,
    nat,
) {
    spec_run_from(cfg, idempotent, events, 0)
}

/// How an attempt's request relates to the caller's: same method, URL,
/// body bytes and idempotency; the headers are a fresh copy, with the
/// bearer credential set when a token was supplied.
pub open spec fn spec_prepared(req: Request, bearer: Option<Seq<char>>, p: Request) -> bool {
    &&& p.method == req.method
    &&& p.url.base@ == req.url.base@
    &&& p.url.spec_pairs() == req.url.spec_pairs()
    &&& p.body@ == req.body@
    &&& p.idempotent == req.idempotent
    &&& match bearer {
        Some(t) => {
            &&& forall|q: Seq<char>|
                spec_eq_ignore_case(q, "authorization"@) ==> #[trigger] p.headers.spec_get(q)
                    == Some("Bearer "@ + t)
            &&& forall|q: Seq<char>|
                !spec_eq_ignore_case(q, "authorization"@) ==> #[trigger] p.headers.spec_get(q)
                    == req.headers.spec_get(q)
        },
        None => p.headers@ == req.headers@,
    }
}

/// Derives the request for one attempt: a fresh copy of the headers (so
/// no attempt sees another's mutations), the body replayed from its
/// original bytes, and the bearer credential header set when a token is
/// supplied.
pub fn prepare_attempt(req: &Request, bearer: Option<&str>) -> (p: Request)
    requires
        req.wf(),
    ensures
        spec_prepared(*req, match bearer {
            Some(t) => Some(t@),
            None => None,
        }, p),
        p.wf(),
{
    let mut headers = req.headers.duplicate();
    match bearer {
        Some(t) => {
            let mut value = String::from_str("Bearer ");
            value.append(t);
            headers.insert("authorization", value.as_str());
        },
        None => {},
    }
    Request {
        method: req.method,
        url: req.url.duplicate(),
        headers,
        body: copy_bytes(&req.body),
        idempotent: req.idempotent,
    }
}

/// The report of a finished run: the outcome, how many transport
/// invocations were made, and the request that each invocation was handed.
#[derive(Debug)]
pub struct RunReport {
    pub outcome: Result<Response, Error>,
    pub attempts: u32,
    pub sent: Vec<Request>,
}

/// Runs the policy chain against a script of transport events, one per
/// attempt. The script stands for the transport: entry `i` is what the
/// `i`-th invocation came back with. The outcome and the invocation count
/// are exactly those of the run specification, and every request handed
/// out replays the caller's body bytes.
#[verifier::loop_isolation(false)]
pub fn send_scripted(
    cfg: &RetryConfig,
    req: &Request,
    bearer: Option<&str>,
    events: Vec<TransportEvent>,
) -> (r: RunReport)
    requires
        cfg.wf(),
        req.wf(),
        events@.len() >= cfg.max_attempts,
    ensures
        r.outcome == spec_run(*cfg, req.idempotent, events@).0,
        r.attempts == spec_run(*cfg, req.idempotent, events@).1,
        r.sent@.len() == r.attempts,
        forall|i: int|
            0 <= i < r.sent@.len() ==> spec_prepared(*req, match bearer {
                Some(t) => Some(t@),
                None => None,
            }, #[trigger] r.sent@[i]),
        forall|i: int| 0 <= i < r.sent@.len() ==> (#[trigger] r.sent@[i]).body@ == req.body@,
{
    let ghost events0 = events@;
    let ghost bearer_view: Option<Seq<char>> = match bearer {
        Some(t) => Some(t@),
        None => None,
    };
    let mut evs = events;
    let mut sent: Vec<Request> = Vec::new();
    let mut attempt: u32 = 0;
    loop
        invariant
            cfg.wf(),
            req.wf(),
            attempt < cfg.max_attempts,
            events0.len() >= cfg.max_attempts,
            evs@ =~= events0.skip(attempt as int),
            sent@.len() == attempt,
            forall|i: int|
                0 <= i < sent@.len() ==> spec_prepared(*req, bearer_view, #[trigger] sent@[i]),
            bearer_view == (match bearer {
                Some(t) => Some(t@),
                None => None,
            }),
            spec_run_from(*cfg, req.idempotent, events0, attempt as nat) == spec_run(
                *cfg,
                req.idempotent,
                events0,
            ),
        decreases cfg.max_attempts - attempt,
    {
        let prepared = prepare_attempt(req, bearer);
        sent.push(prepared);
        proof {
            assert(evs@[0] == events0[attempt as int]);
        }
        let ev = evs.remove(0);
        match ev {
            TransportEvent::Cancelled => {
                proof {
                    assert(events0[attempt as int] == TransportEvent::Cancelled);
                    assert(spec_run_from(*cfg, req.idempotent, events0, attempt as nat) == (
                        Result::<Response, Error>::Err(Error::Cancelled),
                        (attempt + 1) as nat,
                    ));
                }
                return RunReport { outcome: Err(Error::Cancelled), attempts: attempt + 1, sent };
            },
            TransportEvent::TransportFailure(m) => {
                if req.idempotent && attempt + 1 < cfg.max_attempts {
                    attempt += 1;
                } else {
                    proof {
                        assert(events0[attempt as int] == TransportEvent::TransportFailure(m));
                        assert(spec_run_from(*cfg, req.idempotent, events0, attempt as nat) == (
                            Result::<Response, Error>::Err(Error::Transport { message: m }),
                            (attempt + 1) as nat,
                        ));
                    }
                    return RunReport {
                        outcome: Err(Error::Transport { message: m }),
                        attempts: attempt + 1,
                        sent,
                    };
                }
            },
            TransportEvent::Delivered(resp) => {
                let transient = crate::errors::status_is_transient(resp.status);
                if req.idempotent && transient && attempt + 1 < cfg.max_attempts {
                    attempt += 1;
                } else {
                    proof {
                        assert(events0[attempt as int] == TransportEvent::Delivered(resp));
                        assert(spec_run_from(*cfg, req.idempotent, events0, attempt as nat) == (
                            Result::<Response, Error>::Ok(resp),
                            (attempt + 1) as nat,
                        ));
                    }
                    return RunReport { outcome: Ok(resp), attempts: attempt + 1, sent };
                }
            },
        }
    }
}

/// What the retry policy does after one transport event: finish with the
/// outcome, or wait and resubmit.
#[derive(Debug)]
pub enum PolicyStep {
    Finish(Result<Response, Error>),
    Retry { delay_ms: u64 },
}

/// The retry-after hint of a response, in milliseconds: the decimal
/// seconds of its `Retry-After` header, when present and well-formed,
/// saturating on overflow.
pub open spec fn spec_retry_after_hint_ms(resp: Response) -> Option<u64> {
    match spec_lookup(resp.headers@, "retry-after"@) {
        Some(v) => {
            if v.len() > 0 && spec_all_digits(v) && spec_dec_value(v) <= u64::MAX {
                Some(min(spec_dec_value(v) * 1000, u64::MAX as int) as u64)
            } else {
                None
            }
        },
        None => None,
    }
}

/// Reads the server's `Retry-After` hint, converting whole seconds to
/// milliseconds.
pub fn retry_after_hint_ms(resp: &Response) -> (r: Option<u64>)
    ensures
        r == spec_retry_after_hint_ms(*resp),
{
    match resp.headers.get("retry-after") {
        Some(v) => {
            match parse_u64(v.as_str()) {
                Some(secs) => {
                    match secs.checked_mul(1000) {
                        Some(ms) => Some(ms),
                        None => Some(u64::MAX),
                    }
                },
                None => None,
            }
        },
        None => None,
    }
}

/// One decision of the retry policy, for a driver that owns the real
/// transport: `attempt` is the index of the invocation that produced
/// `ev`. On a resubmission the delay honours the server's hint when one
/// is present, and otherwise backs off exponentially with the caller's
/// jitter.
pub fn on_transport_event(
    cfg: &RetryConfig,
    idempotent: bool,
    attempt: u32,
    ev: TransportEvent,
    jitter_ms: u64,
) -> (s: PolicyStep)
    requires
        cfg.wf(),
        attempt < cfg.max_attempts,
    ensures
        match ev {
            TransportEvent::Cancelled => s == PolicyStep::Finish(
                Result::<Response, Error>::Err(Error::Cancelled),
            ),
            TransportEvent::TransportFailure(m) => {
                if idempotent && attempt + 1 < cfg.max_attempts {
                    s == (PolicyStep::Retry {
                        delay_ms: spec_delay_ms(*cfg, attempt as nat, None, jitter_ms) as u64,
                    })
                } else {
                    s == PolicyStep::Finish(
                        Result::<Response, Error>::Err(Error::Transport { message: m }),
                    )
                }
            },
            TransportEvent::Delivered(r) => {
                if idempotent && spec_status_is_transient(r.status) && attempt + 1
                    < cfg.max_attempts {
                    s == (PolicyStep::Retry {
                        delay_ms: spec_delay_ms(
                            *cfg,
                            attempt as nat,
                            spec_retry_after_hint_ms(r),
                            jitter_ms,
                        ) as u64,
                    })
                } else {
                    s == PolicyStep::Finish(Result::<Response, Error>::Ok(r))
                }
            },
        },
{
    match ev {
        TransportEvent::Cancelled => PolicyStep::Finish(Err(Error::Cancelled)),
        TransportEvent::TransportFailure(m) => {
            if idempotent && attempt < cfg.max_attempts - 1 {
                let delay_ms = compute_delay_ms(cfg, attempt, None, jitter_ms);
                PolicyStep::Retry { delay_ms }
            } else {
                PolicyStep::Finish(Err(Error::Transport { message: m }))
            }
        },
        TransportEvent::Delivered(r) => {
            let transient = crate::errors::status_is_transient(r.status);
            if idempotent && transient && attempt < cfg.max_attempts - 1 {
                let hint = retry_after_hint_ms(&r);
                let delay_ms = compute_delay_ms(cfg, attempt, hint, jitter_ms);
                PolicyStep::Retry { delay_ms }
            } else {
                PolicyStep::Finish(Ok(r))
            }
        },
    }
}

/// What the telemetry policy records of one finished call. The record is
/// derived from borrowed values, so recording can alter nothing.
#[derive(Debug)]
pub struct TelemetryRecord {
    pub method: crate::message::Method,
    pub url: String,
    pub elapsed_ms: u64,
    pub status: Option<u16>,
    pub error: Option<crate::errors::ErrorKind>,
}

/// Records method, URL and outcome of a finished call.
pub fn telemetry_record(req: &Request, outcome: &Result<Response, Error>, elapsed_ms: u64) -> (r:
    TelemetryRecord)
    ensures
        r.method == req.method,
        r.url@ == crate::requrl::spec_render(req.url.base@, req.url.spec_pairs()),
        r.elapsed_ms == elapsed_ms,
        match outcome {
            Ok(resp) => r.status == Some(resp.status) && r.error is None,
            Err(e) => r.status is None && r.error == Some(crate::errors::spec_kind_of(*e)),
        },
{
    let (status, error) = match outcome {
        Ok(resp) => (Some(resp.status), None),
        Err(e) => (None, Some(e.kind())),
    };
    TelemetryRecord { method: req.method, url: req.url.render(), elapsed_ms, status, error }
}

/// The auth policy's challenge rule: a credential challenge forces one
/// token invalidation and one resubmission per request, and only one.
pub fn on_auth_challenge(status: u16, already_retried: bool) -> (r: bool)
    ensures
        r == (status == 401 && !already_retried),
{
    status == 401 && !already_retried
}

/// The report of a run with the credential challenge handled: the final
/// outcome, whether the one forced invalidation happened, and the
/// transport invocations of both runs together.
#[derive(Debug)]
pub struct AuthRunReport {
    pub outcome: Result<Response, Error>,
    pub invalidated: bool,
    pub attempts: u64,
}

/// Runs the chain and applies the credential-challenge rule: if the run
/// hands back a challenge response, the cached token for `scope` is
/// invalidated — this one forced invalidation and no other — and the
/// request is resubmitted exactly once more, with the fresh bearer.
/// Whatever the resubmission returns, a second challenge included, is
/// surfaced; without a challenge the cache is untouched and the first
/// outcome stands.
pub fn send_with_reauth(
    cfg: &RetryConfig,
    req: &Request,
    cache: &mut TokenCache,
    scope: &str,
    bearer: Option<&str>,
    fresh_bearer: Option<&str>,
    events: Vec<TransportEvent>,
    retry_events: Vec<TransportEvent>,
) -> (r: AuthRunReport)
    requires
        cfg.wf(),
        req.wf(),
        old(cache).wf(),
        events@.len() >= cfg.max_attempts,
        retry_events@.len() >= cfg.max_attempts,
    ensures
        final(cache).wf(),
        ({
            let first = spec_run(*cfg, req.idempotent, events@);
            if first.0 matches Ok(resp) && resp.status == 401 {
                &&& r.invalidated
                &&& (match old(cache).spec_entry(scope@) {
                    Some(e) => final(cache).spec_entry(scope@) == Some(
                        crate::token_cache::EntryModel {
                            token: None,
                            inflight: e.inflight,
                            last: e.last,
                        },
                    ),
                    None => final(cache).spec_entry(scope@) is None,
                })
                &&& forall|k2: Seq<char>|
                    k2 != scope@ ==> final(cache).spec_entry(k2) == old(cache).spec_entry(k2)
                &&& r.outcome == spec_run(*cfg, req.idempotent, retry_events@).0
                &&& r.attempts == first.1 + spec_run(*cfg, req.idempotent, retry_events@).1
            } else {
                &&& !r.invalidated
                &&& *final(cache) == *old(cache)
                &&& r.outcome == first.0
                &&& r.attempts == first.1
            }
        }),
{
    let report = send_scripted(cfg, req, bearer, events);
    let challenged = match &report.outcome {
        Ok(resp) => on_auth_challenge(resp.status, false),
        Err(_) => false,
    };
    if challenged {
        cache.invalidate(scope);
        let second = send_scripted(cfg, req, fresh_bearer, retry_events);
        AuthRunReport {
            outcome: second.outcome,
            invalidated: true,
            attempts: report.attempts as u64 + second.attempts as u64,
        }
    } else {
        AuthRunReport {
            outcome: report.outcome,
            invalidated: false,
            attempts: report.attempts as u64,
        }
    }
}

/// For all idempotent requests: when the first `k` transport invocations
/// fail at the transport level, `k` is within the attempt budget, and
/// invocation `k` delivers a response whose status is not transient, the
/// run returns that response and makes exactly `k + 1` transport
/// invocations.
pub proof fn lemma_idempotent_eventual_success(
    cfg: RetryConfig,
    events: Seq<TransportEvent>,
    k: nat,
    resp: Response,
)
    requires
        cfg.wf(),
        k < cfg.max_attempts,
        k < events.len(),
        forall|i: int| 0 <= i < k ==> (#[trigger] events[i]) matches TransportEvent::TransportFailure(_),
        events[k as int] == TransportEvent::Delivered(resp),
        !spec_status_is_transient(resp.status),
    ensures
        spec_run(cfg, true, events) == (Result::<Response, Error>::Ok(resp), (k + 1) as nat),
{
    lemma_run_skips_failures(cfg, events, k, resp, 0);
}

proof fn lemma_run_skips_failures(
    cfg: RetryConfig,
    events: Seq<TransportEvent>,
    k: nat,
    resp: Response,
    a: nat,
)
    requires
        cfg.wf(),
        k < cfg.max_attempts,
        k < events.len(),
        a <= k,
        forall|i: int| 0 <= i < k ==> (#[trigger] events[i]) matches TransportEvent::TransportFailure(_),
        events[k as int] == TransportEvent::Delivered(resp),
        !spec_status_is_transient(resp.status),
    ensures
        spec_run_from(cfg, true, events, a) == (Result::<Response, Error>::Ok(resp), (k + 1) as nat),
    decreases k - a,
{
    if a == k {
    } else {
        assert(events[a as int] matches TransportEvent::TransportFailure(_));
        lemma_run_skips_failures(cfg, events, k, resp, a + 1);
    }
}

/// For all non-idempotent requests: a transport failure on the first
/// invocation is surfaced after exactly one attempt, whatever the retry
/// configuration.
pub proof fn lemma_non_idempotent_no_retry(
    cfg: RetryConfig,
    events: Seq<TransportEvent>,
    m: String,
)
    requires
        cfg.wf(),
        events.len() >= 1,
        events[0] == TransportEvent::TransportFailure(m),
    ensures
        spec_run(cfg, false, events) == (
            Result::<Response, Error>::Err(Error::Transport { message: m }),
            1nat,
        ),
{
}

/// Round-trip of the body: every attempt a run derives — whatever token
/// each was given — replays exactly the caller's body bytes.
pub proof fn lemma_attempts_replay_body(
    req: Request,
    bearers: Seq<Option<Seq<char>>>,
    sent: Seq<Request>,
)
    requires
        sent.len() == bearers.len(),
        forall|i: int|
            0 <= i < sent.len() ==> spec_prepared(req, bearers[i], #[trigger] sent[i]),
    ensures
        forall|i: int| 0 <= i < sent.len() ==> (#[trigger] sent[i]).body@ == req.body@,
{
}

} // verus!

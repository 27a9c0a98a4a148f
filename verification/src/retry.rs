//! The retry policy's arithmetic: a bounded attempt budget and an
//! exponential backoff delay with jitter, clamped by a maximum, with a
//! server-supplied retry-after hint taking precedence.

use vstd::arithmetic::power::pow;
use vstd::math::min;
use vstd::prelude::*;

verus! {

/// The retry policy's configuration. The defaults are deliberate,
/// documented choices: no normative bound is imposed from outside.
#[derive(Clone, Copy, Debug, PartialEq, Eq, Structural)]
pub struct RetryConfig {
    /// Total attempts, the first one included. At least 1.
    pub max_attempts: u32,
    /// Delay before the first resubmission, in milliseconds.
    pub base_delay_ms: u64,
    /// Growth factor of the delay from one resubmission to the next.
    pub backoff_factor: u64,
    /// Upper bound on any single delay, in milliseconds.
    pub max_delay_ms: u64,
}

impl RetryConfig {
    pub open spec fn wf(&self) -> bool {
        self.max_attempts >= 1 && self.backoff_factor >= 1
    }

    pub fn new(max_attempts: u32, base_delay_ms: u64, backoff_factor: u64, max_delay_ms: u64) -> (r:
        RetryConfig)
        requires
            max_attempts >= 1,
            backoff_factor >= 1,
        ensures
            r == (RetryConfig { max_attempts, base_delay_ms, backoff_factor, max_delay_ms }),
            r.wf(),
    {
        RetryConfig { max_attempts, base_delay_ms, backoff_factor, max_delay_ms }
    }
}

/// The deliberate defaults: three attempts, 800 ms base delay, doubling,
/// one minute cap.
pub open spec fn spec_default_retry() -> RetryConfig {
    RetryConfig { max_attempts: 3, base_delay_ms: 800, backoff_factor: 2, max_delay_ms: 60000 }
}

impl Default for RetryConfig {
    /// Three attempts, 800 ms base delay, doubling, one minute cap.
    fn default() -> (r: RetryConfig)
        ensures
            r == spec_default_retry(),
            r.wf(),
    {
        RetryConfig { max_attempts: 3, base_delay_ms: 800, backoff_factor: 2, max_delay_ms: 60000 }
    }
}

/// The exponential delay before resubmission number `attempt + 1`:
/// `base * factor^attempt`, clamped by the maximum.
pub open spec fn spec_backoff_ms(cfg: RetryConfig, attempt: nat) -> int {
    min(
        cfg.base_delay_ms * pow(cfg.backoff_factor as int, attempt),
        cfg.max_delay_ms as int,
    )
}

/// The delay actually waited: a server hint, clamped, overrides the
/// backoff; otherwise the backoff plus the caller's jitter, clamped.
pub open spec fn spec_delay_ms(
    cfg: RetryConfig,
    attempt: nat,
    retry_after_ms: Option<u64>,
    jitter_ms: u64,
) -> int {
    match retry_after_ms {
        Some(h) => min(h as int, cfg.max_delay_ms as int),
        None => min(
            cfg.base_delay_ms * pow(cfg.backoff_factor as int, attempt) + jitter_ms,
            cfg.max_delay_ms as int,
        ),
    }
}

/// Computes the delay before the next resubmission. `attempt` is the
/// number of attempts already made beyond the first; `jitter_ms` is
/// caller-supplied entropy, ignored when the server sent a hint.
pub fn compute_delay_ms(
    cfg: &RetryConfig,
    attempt: u32,
    retry_after_ms: Option<u64>,
    jitter_ms: u64,
) -> (d: u64)
    requires
        cfg.wf(),
    ensures
        d == spec_delay_ms(*cfg, attempt as nat, retry_after_ms, jitter_ms),
{
    match retry_after_ms {
        Some(h) => {
            if h > cfg.max_delay_ms {
                cfg.max_delay_ms
            } else {
                h
            }
        },
        None => {
            let cap = cfg.max_delay_ms;
            let mut d: u64 = if cfg.base_delay_ms > cap {
                cap
            } else {
                cfg.base_delay_ms
            };
            let mut i: u32 = 0;
            proof {
                assert(pow(cfg.backoff_factor as int, 0) == 1) by {
                    vstd::arithmetic::power::lemma_pow0(cfg.backoff_factor as int);
                }
            }
            while i < attempt
                invariant
                    cfg.wf(),
                    cap == cfg.max_delay_ms,
                    i <= attempt,
                    d == spec_backoff_ms(*cfg, i as nat),
                decreases attempt - i,
            {
                proof {
                    lemma_backoff_step(*cfg, i as nat);
                }
                let next = match d.checked_mul(cfg.backoff_factor) {
                    Some(x) => {
                        if x > cap {
                            cap
                        } else {
                            x
                        }
                    },
                    None => cap,
                };
                d = next;
                i += 1;
            }
            proof {
                lemma_backoff_nonneg(*cfg, attempt as nat);
            }
            match d.checked_add(jitter_ms) {
                Some(x) => {
                    if x > cap {
                        cap
                    } else {
                        x
                    }
                },
                None => cap,
            }
        },
    }
}

/// One multiplication step of the clamped backoff: clamping before or
/// after multiplying by the factor gives the same clamped value.
proof fn lemma_backoff_step(cfg: RetryConfig, i: nat)
    requires
        cfg.wf(),
    ensures
        min(spec_backoff_ms(cfg, i) * cfg.backoff_factor, cfg.max_delay_ms as int)
            == spec_backoff_ms(cfg, i + 1),
        spec_backoff_ms(cfg, i) >= 0,
{
    let b = cfg.base_delay_ms as int;
    let f = cfg.backoff_factor as int;
    let c = cfg.max_delay_ms as int;
    let p = pow(f, i);
    assert(p >= 1) by {
        vstd::arithmetic::power::lemma_pow_positive(f, i);
    }
    assert(pow(f, i + 1) == p * f) by {
        vstd::arithmetic::power::lemma_pow1(f);
        vstd::arithmetic::power::lemma_pow_adds(f, i, 1nat);
    }
    assert(b * p >= 0) by (nonlinear_arith)
        requires
            b >= 0 && p >= 1,
    ;
    if b * p <= c {
        assert(min(b * p, c) * f == b * (p * f)) by (nonlinear_arith)
            requires
                b * p <= c,
        ;
    } else {
        assert(c * f >= c) by (nonlinear_arith)
            requires
                f >= 1 && c >= 0,
        ;
        assert(b * (p * f) >= b * p) by (nonlinear_arith)
            requires
                f >= 1 && b >= 0 && p >= 1,
        ;
    }
}

proof fn lemma_backoff_nonneg(cfg: RetryConfig, i: nat)
    requires
        cfg.wf(),
    ensures
        spec_backoff_ms(cfg, i) >= 0,
{
    lemma_backoff_step(cfg, i);
}

} // verus!

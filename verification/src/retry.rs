//! Retry policy: attempt budget and exponential backoff with cap and
//! optional jitter.

use vstd::prelude::*;

use crate::errors::LogtailError;
use crate::errors::retryable;

verus! {

/// Retry policy for log delivery.
///
/// `max_retries` attempts beyond the first are permitted, so a delivery
/// makes at most `max_retries + 1` attempts. Delays between attempts
/// follow an exponential backoff capped at `max_delay_ms`, optionally
/// randomized by jitter.
pub struct RetryConfig {
    pub max_retries: u32,
    pub base_delay_ms: u64,
    pub max_delay_ms: u64,
    pub jitter: bool,
}

impl Default for RetryConfig {
    /// Default policy: 3 retries, 1 second base delay, 5 second cap,
    /// jitter on.
    fn default() -> (r: Self)
        ensures
            r.max_retries == 3,
            r.base_delay_ms == 1000,
            r.max_delay_ms == 5000,
            r.jitter == true,
    {
        RetryConfig { max_retries: 3, base_delay_ms: 1000, max_delay_ms: 5000, jitter: true }
    }
}

/// 2 to the power `e`.
pub open spec fn pow2_nat(e: nat) -> nat
    decreases e,
{
    if e == 0 {
        1
    } else {
        2 * pow2_nat((e - 1) as nat)
    }
}

proof fn lemma_pow2_nat_increases(a: nat, b: nat)
    requires
        a <= b,
    ensures
        pow2_nat(a) <= pow2_nat(b),
    decreases b,
{
    if a < b {
        lemma_pow2_nat_increases(a, (b - 1) as nat);
    }
}

/// The exponential delay for a zero-based attempt index, saturating at
/// `max`: the smaller of `base * 2^attempt` and `max`.
pub open spec fn capped_delay_ms(base: u64, max: u64, attempt: nat) -> u64 {
    if base * pow2_nat(attempt) >= max {
        max
    } else {
        (base * pow2_nat(attempt)) as u64
    }
}

/// The delay inserted after a retryable failure at a zero-based attempt
/// index. With jitter off it is the capped exponential delay; with
/// jitter on (and a positive cap) it is drawn from `[0, cap)` using the
/// given entropy.
pub open spec fn backoff_delay_ms(cfg: RetryConfig, attempt: nat, entropy: u64) -> u64 {
    let capped = capped_delay_ms(cfg.base_delay_ms, cfg.max_delay_ms, attempt);
    if cfg.jitter && capped > 0 {
        ((entropy as int) % (capped as int)) as u64
    } else {
        capped
    }
}

/// Once the exponential delay has reached the cap, it stays there for
/// every later attempt.
proof fn lemma_capped_stays_saturated(base: u64, max: u64, i: nat, j: nat)
    requires
        i <= j,
        capped_delay_ms(base, max, i) == max,
    ensures
        capped_delay_ms(base, max, j) == max,
{
    assert(base * pow2_nat(i) >= max);
    lemma_pow2_nat_increases(i, j);
    assert(base * pow2_nat(i) <= base * pow2_nat(j)) by (nonlinear_arith)
        requires pow2_nat(i) <= pow2_nat(j)
    {
    }
}

/// Computes the backoff delay in milliseconds for the given zero-based
/// attempt index, using `entropy` as the jitter source.
pub fn compute_delay_ms(cfg: &RetryConfig, attempt: u32, entropy: u64) -> (r: u64)
    ensures
        r == backoff_delay_ms(*cfg, attempt as nat, entropy),
{
    let base = cfg.base_delay_ms;
    let max = cfg.max_delay_ms;
    let mut d: u64 = if base >= max {
        max
    } else {
        base
    };
    let mut i: u32 = 0;
    proof {
        assert(pow2_nat(0) == 1);
        assert(base * pow2_nat(0) == base) by (nonlinear_arith)
            requires pow2_nat(0) == 1
        {
        }
        assert(d == capped_delay_ms(base, max, 0));
    }
    while i < attempt && d < max
        invariant
            i <= attempt,
            d == capped_delay_ms(base, max, i as nat),
            d <= max,
        decreases attempt - i,
    {
        assert(base * pow2_nat(i as nat) < max);
        let d2: u64 = if d > max / 2 {
            max
        } else {
            d * 2
        };
        proof {
            assert(pow2_nat((i + 1) as nat) == 2 * pow2_nat(i as nat));
            assert(base * pow2_nat((i + 1) as nat) == 2 * (base * pow2_nat(i as nat)))
                by (nonlinear_arith)
                requires pow2_nat((i + 1) as nat) == 2 * pow2_nat(i as nat)
            {
            }
        }
        d = d2;
        i = i + 1;
    }
    proof {
        if i < attempt {
            lemma_capped_stays_saturated(base, max, i as nat, attempt as nat);
        }
    }
    let capped = d;
    if cfg.jitter && capped > 0 {
        entropy % capped
    } else {
        capped
    }
}

/// Whether a failed attempt at the given zero-based index is followed by
/// another attempt: the failure must be transient and the retry budget
/// must not be exhausted.
pub open spec fn should_retry(e: LogtailError, attempt: u32, max_retries: u32) -> bool {
    retryable(e) && attempt < max_retries
}

/// Decides whether to retry after a failure at the given zero-based
/// attempt index.
pub fn decide_retry(e: &LogtailError, attempt: u32, max_retries: u32) -> (r: bool)
    ensures
        r == should_retry(*e, attempt, max_retries),
{
    e.is_retryable() && attempt < max_retries
}

/// With a retry budget of zero, every failure is terminal on the first
/// attempt, regardless of its retryability.
pub proof fn lemma_zero_budget_never_retries(e: LogtailError, attempt: u32)
    ensures
        !should_retry(e, attempt, 0),
{
}

/// A non-retryable failure is terminal at once, whatever the budget:
/// serialization failures and HTTP statuses below 500 are never retried.
pub proof fn lemma_non_retryable_is_terminal(e: LogtailError, attempt: u32, max_retries: u32)
    requires
        !retryable(e),
    ensures
        !should_retry(e, attempt, max_retries),
{
}

/// Backoff law: the capped delay is the smaller of `base * 2^attempt`
/// and `max`; with jitter off the final delay equals it, and with jitter
/// on (and a positive cap) the final delay lies strictly below it.
pub proof fn lemma_backoff_delay_formula(cfg: RetryConfig, attempt: nat, entropy: u64)
    ensures
        capped_delay_ms(cfg.base_delay_ms, cfg.max_delay_ms, attempt) as int == vstd::math::min(
            (cfg.base_delay_ms * pow2_nat(attempt)) as int,
            cfg.max_delay_ms as int,
        ),
        !cfg.jitter ==> backoff_delay_ms(cfg, attempt, entropy) == capped_delay_ms(
            cfg.base_delay_ms,
            cfg.max_delay_ms,
            attempt,
        ),
        cfg.jitter && capped_delay_ms(cfg.base_delay_ms, cfg.max_delay_ms, attempt) > 0
            ==> backoff_delay_ms(cfg, attempt, entropy) < capped_delay_ms(
            cfg.base_delay_ms,
            cfg.max_delay_ms,
            attempt,
        ),
{
}

} // verus!

//! The retry policy: exponential backoff with a cap and optional jitter.
use vstd::prelude::*;

verus! {

/// Errors that may be worth retrying.
pub trait RetryableError {
    /// Whether this error should trigger a retry.
    fn is_retryable(&self) -> bool;
}

/// Configuration of the retry loop, delays in milliseconds.
#[derive(Debug, Clone, Copy, PartialEq, Eq, Hash, Structural)]
pub struct RetryConfig {
    /// Attempts in total, the first one included.
    pub max_attempts: u32,
    /// Delay after the first failed attempt.
    pub initial_delay_ms: u64,
    /// The cap on any delay.
    pub max_delay_ms: u64,
    /// The factor the delay grows by per attempt.
    pub backoff_multiplier: u32,
    /// Whether the delay is jittered.
    pub use_jitter: bool,
}

impl Default for RetryConfig {
    /// Three attempts, 100 ms initial delay doubling up to five seconds,
    /// jitter on.
    fn default() -> (r: Self)
        ensures
            r == (RetryConfig {
                max_attempts: 3,
                initial_delay_ms: 100,
                max_delay_ms: 5000,
                backoff_multiplier: 2,
                use_jitter: true,
            }),
    {
        RetryConfig {
            max_attempts: 3,
            initial_delay_ms: 100,
            max_delay_ms: 5000,
            backoff_multiplier: 2,
            use_jitter: true,
        }
    }
}

/// The base delay before jitter for a one-indexed attempt: the initial
/// delay grown by the multiplier per completed attempt, capped at the
/// maximum.
pub open spec fn spec_base_delay(c: RetryConfig, attempt: u32) -> u64
    decreases attempt,
{
    if attempt <= 1 {
        if c.initial_delay_ms <= c.max_delay_ms {
            c.initial_delay_ms
        } else {
            c.max_delay_ms
        }
    } else {
        let prev = spec_base_delay(c, (attempt - 1) as u32);
        if prev * c.backoff_multiplier <= c.max_delay_ms {
            (prev * c.backoff_multiplier) as u64
        } else {
            c.max_delay_ms
        }
    }
}

/// Relies on fastrand::u64 over an inclusive range: a value drawn
/// between the bounds. The draw is random, so only the bounds are
/// promised.
#[verifier::external_body]
fn rand_u64_between(lo: u64, hi: u64) -> (r: u64)
    requires
        lo <= hi,
    ensures
        lo <= r <= hi,
{
    fastrand::u64(lo..=hi)
}

impl RetryConfig {
    /// The default configuration limited to the given number of attempts.
    pub fn new(max_attempts: u32) -> (r: Self)
        ensures
            r == (RetryConfig { max_attempts, ..RetryConfig::spec_default() }),
    {
        RetryConfig { max_attempts, ..RetryConfig::default() }
    }

    /// The default configuration.
    pub open spec fn spec_default() -> RetryConfig {
        RetryConfig {
            max_attempts: 3,
            initial_delay_ms: 100,
            max_delay_ms: 5000,
            backoff_multiplier: 2,
            use_jitter: true,
        }
    }

    /// The base delay before jitter for a one-indexed attempt.
    pub fn base_delay(&self, attempt: u32) -> (r: u64)
        ensures
            r == spec_base_delay(*self, attempt),
    {
        let mut d: u64 = if self.initial_delay_ms <= self.max_delay_ms {
            self.initial_delay_ms
        } else {
            self.max_delay_ms
        };
        let mut k: u32 = 1;
        while k < attempt
            invariant
                1 <= k,
                attempt >= 1 ==> k <= attempt,
                attempt < 1 ==> k == 1,
                d == spec_base_delay(*self, k),
                d <= self.max_delay_ms,
            decreases attempt - k,
        {
            let m = self.backoff_multiplier as u64;
            let next: u64;
            if m == 0 {
                next = 0;
            } else if d <= self.max_delay_ms / m {
                proof {
                    assert(d * m <= (self.max_delay_ms / m) * m <= self.max_delay_ms) by (nonlinear_arith)
                        requires
                            m > 0,
                            d <= self.max_delay_ms / m,
                    ;
                }
                next = d * m;
            } else {
                proof {
                    assert(d * m > self.max_delay_ms) by (nonlinear_arith)
                        requires
                            m > 0,
                            d > self.max_delay_ms / m,
                    ;
                }
                next = self.max_delay_ms;
            }
            d = next;
            k = k + 1;
        }
        d
    }

    /// The actual delay for an attempt: the base delay, jittered when
    /// configured between half and one and a half times the base, and
    /// always clamped to the configured maximum.
    pub fn calculate_delay(&self, attempt: u32) -> (r: u64)
        ensures
            !self.use_jitter ==> r == spec_base_delay(*self, attempt),
            self.use_jitter ==> spec_base_delay(*self, attempt) / 2 <= r <= spec_base_delay(
                *self,
                attempt,
            ) + spec_base_delay(*self, attempt) / 2,
            r <= self.max_delay_ms,
    {
        let d = self.base_delay(attempt);
        proof {
            lemma_base_delay_capped(*self, attempt);
        }
        if !self.use_jitter {
            return d;
        }
        let half = d / 2;
        let low = d - half;
        let max_add = 0xffff_ffff_ffff_ffffu64 - low;
        let hi = if half + half <= max_add {
            half + half
        } else {
            max_add
        };
        let jitter = rand_u64_between(0, hi);
        let jittered = low + jitter;
        if jittered <= self.max_delay_ms {
            jittered
        } else {
            self.max_delay_ms
        }
    }
}

/// The base delay never exceeds the configured maximum.
proof fn lemma_base_delay_capped(c: RetryConfig, attempt: u32)
    ensures
        spec_base_delay(c, attempt) <= c.max_delay_ms,
    decreases attempt,
{
    if attempt > 1 {
        lemma_base_delay_capped(c, (attempt - 1) as u32);
    }
}

/// Whether the retry loop goes on after a failed attempt: only when the
/// error is retryable and attempts remain.
pub open spec fn spec_should_retry(attempt: u32, max_attempts: u32, retryable: bool) -> bool {
    retryable && attempt < max_attempts
}

/// Decide whether to retry after the given one-indexed failed attempt.
pub fn should_retry(attempt: u32, max_attempts: u32, retryable: bool) -> (r: bool)
    ensures
        r == spec_should_retry(attempt, max_attempts, retryable),
{
    retryable && attempt < max_attempts
}

} // verus!

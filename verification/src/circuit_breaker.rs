//! The circuit breaker: a three-state gate in front of the upstream,
//! with failure and success thresholds and a cooldown.
use vstd::prelude::*;
use crate::clock::now_millis;

verus! {

/// The three states of the breaker.
#[derive(Debug, Clone, Copy, PartialEq, Eq, Hash, Structural)]
pub enum CircuitState {
    /// Normal operation: requests pass.
    Closed,
    /// Failing: requests are rejected until the cooldown elapses.
    Open,
    /// Probing: requests pass while the breaker tests recovery.
    HalfOpen,
}

/// Thresholds and windows of the breaker, in milliseconds.
#[derive(Debug, Clone, Copy, PartialEq, Eq, Hash, Structural)]
pub struct CircuitBreakerConfig {
    /// Consecutive failures in Closed state that open the circuit.
    pub failure_threshold: u32,
    /// Successes in HalfOpen state that close the circuit.
    pub success_threshold: u32,
    /// How long an Open circuit rejects before it admits a probe.
    pub timeout_duration: u64,
    /// The window over which failures are counted.
    pub window_duration: u64,
}

impl Default for CircuitBreakerConfig {
    /// Five failures open the circuit, two successes close it again,
    /// and the cooldown is one minute.
    fn default() -> (r: Self)
        ensures
            r.failure_threshold == 5,
            r.success_threshold == 2,
            r.timeout_duration == 60000,
            r.window_duration == 60000,
    {
        CircuitBreakerConfig {
            failure_threshold: 5,
            success_threshold: 2,
            timeout_duration: 60000,
            window_duration: 60000,
        }
    }
}

/// The breaker: its configuration and its counters.
#[derive(Debug, Clone, Copy, PartialEq, Eq, Structural)]
pub struct CircuitBreaker {
    pub config: CircuitBreakerConfig,
    pub state: CircuitState,
    pub failure_count: u32,
    pub success_count: u32,
    pub last_failure_time: u64,
    pub state_changed_time: u64,
}

/// A counter bumped by one, stopping at its maximum.
pub open spec fn bump32(x: u32) -> u32 {
    if x < 0xffff_ffffu32 {
        (x + 1) as u32
    } else {
        x
    }
}

/// Milliseconds elapsed from `from` to `now`, zero when time ran backwards.
pub open spec fn elapsed(now: u64, from: u64) -> u64 {
    if now >= from {
        (now - from) as u64
    } else {
        0
    }
}

/// What `allow_request` at time `now` does to the breaker, and whether
/// it admits the request.
pub open spec fn spec_allow(b: CircuitBreaker, now: u64) -> (CircuitBreaker, bool) {
    match b.state {
        CircuitState::Closed => (b, true),
        CircuitState::Open => {
            if now >= b.state_changed_time && now - b.state_changed_time
                >= b.config.timeout_duration {
                (
                    CircuitBreaker {
                        state: CircuitState::HalfOpen,
                        success_count: 0,
                        state_changed_time: now,
                        ..b
                    },
                    true,
                )
            } else {
                (b, false)
            }
        },
        CircuitState::HalfOpen => (b, true),
    }
}

/// What recording a success at time `now` does to the breaker.
pub open spec fn spec_record_success(b: CircuitBreaker, now: u64) -> CircuitBreaker {
    match b.state {
        CircuitState::Closed => CircuitBreaker { failure_count: 0, ..b },
        CircuitState::HalfOpen => {
            if bump32(b.success_count) >= b.config.success_threshold {
                CircuitBreaker {
                    state: CircuitState::Closed,
                    failure_count: 0,
                    success_count: 0,
                    state_changed_time: now,
                    ..b
                }
            } else {
                CircuitBreaker { success_count: bump32(b.success_count), ..b }
            }
        },
        CircuitState::Open => b,
    }
}

/// What recording a failure at time `now` does to the breaker.
pub open spec fn spec_record_failure(b: CircuitBreaker, now: u64) -> CircuitBreaker {
    match b.state {
        CircuitState::Closed => {
            if bump32(b.failure_count) >= b.config.failure_threshold {
                CircuitBreaker {
                    state: CircuitState::Open,
                    failure_count: bump32(b.failure_count),
                    last_failure_time: now,
                    state_changed_time: now,
                    ..b
                }
            } else {
                CircuitBreaker {
                    failure_count: bump32(b.failure_count),
                    last_failure_time: now,
                    ..b
                }
            }
        },
        CircuitState::HalfOpen => CircuitBreaker {
            state: CircuitState::Open,
            success_count: 0,
            state_changed_time: now,
            ..b
        },
        CircuitState::Open => CircuitBreaker { last_failure_time: now, ..b },
    }
}

impl CircuitBreaker {
    /// A closed breaker with the default configuration.
    pub fn new() -> (r: Self)
        ensures
            r == Self::spec_new(CircuitBreakerConfig {
                failure_threshold: 5,
                success_threshold: 2,
                timeout_duration: 60000,
                window_duration: 60000,
            }),
    {
        Self::with_config(CircuitBreakerConfig::default())
    }

    /// A closed breaker with zeroed counters under the given configuration.
    pub open spec fn spec_new(config: CircuitBreakerConfig) -> CircuitBreaker {
        CircuitBreaker {
            config,
            state: CircuitState::Closed,
            failure_count: 0,
            success_count: 0,
            last_failure_time: 0,
            state_changed_time: 0,
        }
    }

    /// A closed breaker with the given configuration.
    pub fn with_config(config: CircuitBreakerConfig) -> (r: Self)
        ensures
            r == Self::spec_new(config),
    {
        CircuitBreaker {
            config,
            state: CircuitState::Closed,
            failure_count: 0,
            success_count: 0,
            last_failure_time: 0,
            state_changed_time: 0,
        }
    }

    /// Decide at time `now` whether a request may pass: Closed and
    /// HalfOpen admit it; Open rejects it until the cooldown has elapsed
    /// since the circuit opened (a clock reading before that moment
    /// always rejects), then moves to HalfOpen and admits a probe.
    pub fn allow_request_at(&mut self, now: u64) -> (r: bool)
        ensures
            (*final(self), r) == spec_allow(*old(self), now),
    {
        match self.state {
            CircuitState::Closed => true,
            CircuitState::Open => {
                if now >= self.state_changed_time && now - self.state_changed_time
                    >= self.config.timeout_duration {
                    self.state = CircuitState::HalfOpen;
                    self.success_count = 0;
                    self.state_changed_time = now;
                    true
                } else {
                    false
                }
            },
            CircuitState::HalfOpen => true,
        }
    }

    /// Decide at the current time whether a request may pass.
    pub fn allow_request(&mut self) -> (r: bool)
        ensures
            exists|now: u64| (*final(self), r) == #[trigger] spec_allow(*old(self), now),
    {
        let now = now_millis();
        self.allow_request_at(now)
    }

    /// Record a successful call at time `now`.
    pub fn record_success_at(&mut self, now: u64)
        ensures
            *final(self) == spec_record_success(*old(self), now),
    {
        match self.state {
            CircuitState::Closed => {
                self.failure_count = 0;
            },
            CircuitState::HalfOpen => {
                let bumped = if self.success_count < 0xffff_ffffu32 {
                    self.success_count + 1
                } else {
                    self.success_count
                };
                if bumped >= self.config.success_threshold {
                    self.state = CircuitState::Closed;
                    self.failure_count = 0;
                    self.success_count = 0;
                    self.state_changed_time = now;
                } else {
                    self.success_count = bumped;
                }
            },
            CircuitState::Open => {},
        }
    }

    /// Record a successful call at the current time.
    pub fn record_success(&mut self)
        ensures
            exists|now: u64| *final(self) == #[trigger] spec_record_success(*old(self), now),
    {
        let now = now_millis();
        self.record_success_at(now);
    }

    /// Record a failed call at time `now`.
    pub fn record_failure_at(&mut self, now: u64)
        ensures
            *final(self) == spec_record_failure(*old(self), now),
    {
        match self.state {
            CircuitState::Closed => {
                let bumped = if self.failure_count < 0xffff_ffffu32 {
                    self.failure_count + 1
                } else {
                    self.failure_count
                };
                self.failure_count = bumped;
                self.last_failure_time = now;
                if bumped >= self.config.failure_threshold {
                    self.state = CircuitState::Open;
                    self.state_changed_time = now;
                }
            },
            CircuitState::HalfOpen => {
                self.state = CircuitState::Open;
                self.success_count = 0;
                self.state_changed_time = now;
            },
            CircuitState::Open => {
                self.last_failure_time = now;
            },
        }
    }

    /// Record a failed call at the current time.
    pub fn record_failure(&mut self)
        ensures
            exists|now: u64| *final(self) == #[trigger] spec_record_failure(*old(self), now),
    {
        let now = now_millis();
        self.record_failure_at(now);
    }

    /// The current state of the breaker.
    pub fn state(&self) -> (r: CircuitState)
        ensures
            r == self.state,
    {
        self.state
    }

    /// The current count of consecutive failures.
    pub fn failure_count(&self) -> (r: u32)
        ensures
            r == self.failure_count,
    {
        self.failure_count
    }

    /// Close the breaker and zero its counters.
    pub fn reset(&mut self)
        ensures
            *final(self) == (CircuitBreaker {
                state: CircuitState::Closed,
                failure_count: 0,
                success_count: 0,
                state_changed_time: final(self).state_changed_time,
                ..*old(self)
            }),
    {
        let now = now_millis();
        self.state = CircuitState::Closed;
        self.state_changed_time = now;
        self.failure_count = 0;
        self.success_count = 0;
    }
}

/// The breaker after `k` failures recorded at time `now`.
pub open spec fn iter_failures(b: CircuitBreaker, k: nat, now: u64) -> CircuitBreaker
    decreases k,
{
    if k == 0 {
        b
    } else {
        spec_record_failure(iter_failures(b, (k - 1) as nat, now), now)
    }
}

/// While fewer failures than the threshold have been recorded, the
/// breaker stays Closed and counts them.
proof fn lemma_failures_count_up(b: CircuitBreaker, k: nat, now: u64)
    requires
        b.state == CircuitState::Closed,
        b.failure_count == 0,
        k < b.config.failure_threshold,
    ensures
        iter_failures(b, k, now) == (CircuitBreaker {
            failure_count: k as u32,
            last_failure_time: if k == 0 { b.last_failure_time } else { now },
            ..b
        }),
    decreases k,
{
    if k > 0 {
        lemma_failures_count_up(b, (k - 1) as nat, now);
    } else {
        assert(iter_failures(b, 0, now) == b);
    }
}

/// After `failure_threshold` consecutive failures in the Closed state the
/// circuit is Open: every `allow_request` before the cooldown elapses is
/// rejected and changes nothing, and the first one at or after the
/// cooldown is admitted and leaves the breaker HalfOpen.
pub proof fn lemma_breaker_opens_after_threshold(b: CircuitBreaker, now: u64)
    requires
        b.state == CircuitState::Closed,
        b.failure_count == 0,
        b.config.failure_threshold > 0,
    ensures
        ({
            let opened = iter_failures(b, b.config.failure_threshold as nat, now);
            &&& opened.state == CircuitState::Open
            &&& opened.state_changed_time == now
            &&& forall|t: u64|
                (t as int) < now + b.config.timeout_duration ==> #[trigger] spec_allow(opened, t)
                    == (opened, false)
            &&& forall|t: u64|
                (t as int) >= now + b.config.timeout_duration ==> #[trigger] spec_allow(opened, t)
                    == (
                    CircuitBreaker {
                        state: CircuitState::HalfOpen,
                        success_count: 0,
                        state_changed_time: t,
                        ..opened
                    },
                    true,
                )
        }),
{
    let n = b.config.failure_threshold as nat;
    lemma_failures_count_up(b, (n - 1) as nat, now);
    assert(iter_failures(b, n, now) == spec_record_failure(iter_failures(b, (n - 1) as nat, now), now));
}

} // verus!

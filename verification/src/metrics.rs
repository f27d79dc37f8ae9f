//! Counters over the outbound calls: totals, successes, failures,
//! retries, breaker rejections, and cumulative response time.
use vstd::prelude::*;
use crate::clock::now_millis;

verus! {

/// A value bumped by one, stopping at the maximum of u64.
pub open spec fn bump64(x: u64) -> u64 {
    if x < 0xffff_ffff_ffff_ffffu64 {
        (x + 1) as u64
    } else {
        x
    }
}

/// A sum that stops at the maximum of u64.
pub open spec fn sat_add64(x: u64, y: u64) -> u64 {
    if x + y <= 0xffff_ffff_ffff_ffffu64 {
        (x + y) as u64
    } else {
        0xffff_ffff_ffff_ffffu64
    }
}

/// Per-process counters over the outbound calls.
#[derive(Debug, Clone, Copy, PartialEq, Eq, Structural)]
pub struct ApiMetrics {
    pub total_requests: u64,
    pub successful_requests: u64,
    pub failed_requests: u64,
    pub total_response_time_ms: u64,
    pub total_retries: u64,
    pub circuit_breaker_rejections: u64,
    pub last_request_time: u64,
}

/// A point-in-time copy of the counters.
#[derive(Debug, Clone, Copy, PartialEq, Eq, Structural)]
pub struct MetricsSnapshot {
    pub total_requests: u64,
    pub successful_requests: u64,
    pub failed_requests: u64,
    pub total_response_time_ms: u64,
    pub total_retries: u64,
    pub circuit_breaker_rejections: u64,
}

impl ApiMetrics {
    /// No outcome was recorded for more requests than were started.
    pub open spec fn wf(self) -> bool {
        self.successful_requests + self.failed_requests <= self.total_requests
    }

    /// Requests started whose outcome has not been recorded yet.
    pub open spec fn in_flight(self) -> int {
        self.total_requests - self.successful_requests - self.failed_requests
    }

    /// Fresh counters, all zero.
    pub fn new() -> (r: Self)
        ensures
            r == (ApiMetrics {
                total_requests: 0,
                successful_requests: 0,
                failed_requests: 0,
                total_response_time_ms: 0,
                total_retries: 0,
                circuit_breaker_rejections: 0,
                last_request_time: 0,
            }),
            r.wf(),
            r.in_flight() == 0,
    {
        ApiMetrics {
            total_requests: 0,
            successful_requests: 0,
            failed_requests: 0,
            total_response_time_ms: 0,
            total_retries: 0,
            circuit_breaker_rejections: 0,
            last_request_time: 0,
        }
    }

    /// Count a request as started at time `now` and hand back the start
    /// time, to be passed to `record_success_at` or `record_failure_at`.
    pub fn record_request_start_at(&mut self, now: u64) -> (r: u64)
        requires
            old(self).wf(),
        ensures
            r == now,
            *final(self) == (ApiMetrics {
                total_requests: bump64(old(self).total_requests),
                last_request_time: now,
                ..*old(self)
            }),
            final(self).wf(),
            old(self).total_requests < 0xffff_ffff_ffff_ffffu64 ==> final(self).in_flight() == old(
                self,
            ).in_flight() + 1,
    {
        let bumped = if self.total_requests < 0xffff_ffff_ffff_ffffu64 {
            self.total_requests + 1
        } else {
            self.total_requests
        };
        self.total_requests = bumped;
        self.last_request_time = now;
        now
    }

    /// Count a request as started at the current time.
    pub fn record_request_start(&mut self) -> (r: u64)
        requires
            old(self).wf(),
        ensures
            *final(self) == (ApiMetrics {
                total_requests: bump64(old(self).total_requests),
                last_request_time: final(self).last_request_time,
                ..*old(self)
            }),
            final(self).wf(),
            old(self).total_requests < 0xffff_ffff_ffff_ffffu64 ==> final(self).in_flight() == old(
                self,
            ).in_flight() + 1,
    {
        let now = now_millis();
        self.record_request_start_at(now)
    }

    /// Count a started request as successful and add its response time.
    pub fn record_success_at(&mut self, start_time: u64, now: u64)
        requires
            old(self).wf(),
            old(self).in_flight() >= 1,
        ensures
            *final(self) == (ApiMetrics {
                successful_requests: (old(self).successful_requests + 1) as u64,
                total_response_time_ms: sat_add64(
                    old(self).total_response_time_ms,
                    crate::circuit_breaker::elapsed(now, start_time),
                ),
                ..*old(self)
            }),
            final(self).wf(),
            final(self).in_flight() == old(self).in_flight() - 1,
    {
        let duration = if now >= start_time {
            now - start_time
        } else {
            0
        };
        self.successful_requests = self.successful_requests + 1;
        self.total_response_time_ms = if self.total_response_time_ms <= 0xffff_ffff_ffff_ffffu64
            - duration {
            self.total_response_time_ms + duration
        } else {
            0xffff_ffff_ffff_ffffu64
        };
    }

    /// Count a started request as successful, stamped at the current time.
    pub fn record_success(&mut self, start_time: u64)
        requires
            old(self).wf(),
            old(self).in_flight() >= 1,
        ensures
            *final(self) == (ApiMetrics {
                successful_requests: (old(self).successful_requests + 1) as u64,
                total_response_time_ms: final(self).total_response_time_ms,
                ..*old(self)
            }),
            final(self).wf(),
            final(self).in_flight() == old(self).in_flight() - 1,
    {
        let now = now_millis();
        self.record_success_at(start_time, now);
    }

    /// Count a started request as failed and add its response time.
    pub fn record_failure_at(&mut self, start_time: u64, now: u64)
        requires
            old(self).wf(),
            old(self).in_flight() >= 1,
        ensures
            *final(self) == (ApiMetrics {
                failed_requests: (old(self).failed_requests + 1) as u64,
                total_response_time_ms: sat_add64(
                    old(self).total_response_time_ms,
                    crate::circuit_breaker::elapsed(now, start_time),
                ),
                ..*old(self)
            }),
            final(self).wf(),
            final(self).in_flight() == old(self).in_flight() - 1,
    {
        let duration = if now >= start_time {
            now - start_time
        } else {
            0
        };
        self.failed_requests = self.failed_requests + 1;
        self.total_response_time_ms = if self.total_response_time_ms <= 0xffff_ffff_ffff_ffffu64
            - duration {
            self.total_response_time_ms + duration
        } else {
            0xffff_ffff_ffff_ffffu64
        };
    }

    /// Count a started request as failed, stamped at the current time.
    pub fn record_failure(&mut self, start_time: u64)
        requires
            old(self).wf(),
            old(self).in_flight() >= 1,
        ensures
            *final(self) == (ApiMetrics {
                failed_requests: (old(self).failed_requests + 1) as u64,
                total_response_time_ms: final(self).total_response_time_ms,
                ..*old(self)
            }),
            final(self).wf(),
            final(self).in_flight() == old(self).in_flight() - 1,
    {
        let now = now_millis();
        self.record_failure_at(start_time, now);
    }

    /// Count one retry.
    pub fn record_retry(&mut self)
        ensures
            *final(self) == (ApiMetrics {
                total_retries: bump64(old(self).total_retries),
                ..*old(self)
            }),
    {
        self.total_retries = if self.total_retries < 0xffff_ffff_ffff_ffffu64 {
            self.total_retries + 1
        } else {
            self.total_retries
        };
    }

    /// Count one request the breaker rejected.
    pub fn record_circuit_breaker_rejection(&mut self)
        ensures
            *final(self) == (ApiMetrics {
                circuit_breaker_rejections: bump64(old(self).circuit_breaker_rejections),
                ..*old(self)
            }),
    {
        self.circuit_breaker_rejections = if self.circuit_breaker_rejections
            < 0xffff_ffff_ffff_ffffu64 {
            self.circuit_breaker_rejections + 1
        } else {
            self.circuit_breaker_rejections
        };
    }

    /// The number of requests started.
    pub fn total_requests(&self) -> (r: u64)
        ensures
            r == self.total_requests,
    {
        self.total_requests
    }

    /// The number of requests recorded as successful.
    pub fn successful_requests(&self) -> (r: u64)
        ensures
            r == self.successful_requests,
    {
        self.successful_requests
    }

    /// The number of requests recorded as failed.
    pub fn failed_requests(&self) -> (r: u64)
        ensures
            r == self.failed_requests,
    {
        self.failed_requests
    }

    /// The number of retries recorded.
    pub fn total_retries(&self) -> (r: u64)
        ensures
            r == self.total_retries,
    {
        self.total_retries
    }

    /// The number of requests the breaker rejected.
    pub fn circuit_breaker_rejections(&self) -> (r: u64)
        ensures
            r == self.circuit_breaker_rejections,
    {
        self.circuit_breaker_rejections
    }

    /// A consistent by-value copy of the counters.
    pub fn snapshot(&self) -> (r: MetricsSnapshot)
        ensures
            r == (MetricsSnapshot {
                total_requests: self.total_requests,
                successful_requests: self.successful_requests,
                failed_requests: self.failed_requests,
                total_response_time_ms: self.total_response_time_ms,
                total_retries: self.total_retries,
                circuit_breaker_rejections: self.circuit_breaker_rejections,
            }),
    {
        MetricsSnapshot {
            total_requests: self.total_requests,
            successful_requests: self.successful_requests,
            failed_requests: self.failed_requests,
            total_response_time_ms: self.total_response_time_ms,
            total_retries: self.total_retries,
            circuit_breaker_rejections: self.circuit_breaker_rejections,
        }
    }

    /// Zero every counter but the time of the last request.
    pub fn reset(&mut self)
        ensures
            *final(self) == (ApiMetrics {
                total_requests: 0,
                successful_requests: 0,
                failed_requests: 0,
                total_response_time_ms: 0,
                total_retries: 0,
                circuit_breaker_rejections: 0,
                last_request_time: old(self).last_request_time,
            }),
            final(self).wf(),
    {
        self.total_requests = 0;
        self.successful_requests = 0;
        self.failed_requests = 0;
        self.total_response_time_ms = 0;
        self.total_retries = 0;
        self.circuit_breaker_rejections = 0;
    }
}

/// When no request is in flight, the requests started split exactly into
/// the successful and the failed ones.
pub proof fn lemma_metrics_balance(m: ApiMetrics)
    requires
        m.wf(),
        m.in_flight() == 0,
    ensures
        m.total_requests == m.successful_requests + m.failed_requests,
{
}

} // verus!

//! The health report: the service's view of itself, the upstream
//! connectivity probe, and the breaker's state, folded into one status.
use vstd::prelude::*;
use crate::circuit_breaker::CircuitState;
use crate::domain::clone_opt_string;

verus! {

/// The outcome of probing the upstream inventory.
#[derive(Debug)]
pub struct NetBoxHealth {
    pub connected: bool,
    pub response_time_ms: Option<u64>,
    pub error: Option<String>,
}

impl Clone for NetBoxHealth {
    fn clone(&self) -> (r: Self)
        ensures
            r.connected == self.connected,
            r.response_time_ms == self.response_time_ms,
            r.error.deep_view() == self.error.deep_view(),
    {
        NetBoxHealth {
            connected: self.connected,
            response_time_ms: self.response_time_ms,
            error: clone_opt_string(&self.error),
        }
    }
}

/// The breaker's state as reported by the health endpoint.
#[derive(Debug)]
pub struct CircuitBreakerHealth {
    pub state: String,
    pub failure_count: u32,
}

/// The full health report.
#[derive(Debug)]
pub struct HealthStatus {
    pub status: String,
    pub service: String,
    pub version: String,
    pub timestamp: String,
    pub netbox: Option<NetBoxHealth>,
    pub circuit_breaker: Option<CircuitBreakerHealth>,
}

/// The name of a breaker state.
pub open spec fn spec_state_name(s: CircuitState) -> Seq<char> {
    match s {
        CircuitState::Closed => "Closed"@,
        CircuitState::Open => "Open"@,
        CircuitState::HalfOpen => "HalfOpen"@,
    }
}

/// Render the name of a breaker state.
pub fn state_name(s: CircuitState) -> (r: String)
    ensures
        r@ == spec_state_name(s),
{
    match s {
        CircuitState::Closed => String::from_str("Closed"),
        CircuitState::Open => String::from_str("Open"),
        CircuitState::HalfOpen => String::from_str("HalfOpen"),
    }
}

/// Whether the service counts as degraded: the upstream probe failed,
/// or the breaker is Open.
pub open spec fn spec_degraded(upstream: Option<NetBoxHealth>, breaker: Option<CircuitState>) -> bool {
    (upstream matches Some(u) && !u.connected) || breaker == Some(CircuitState::Open)
}

/// Fold the upstream probe and the breaker state into the health
/// report: the status is `degraded` exactly when the upstream is
/// unreachable or the breaker is Open, and `healthy` otherwise; a
/// degraded report maps to HTTP 503, a healthy one to 200.
pub fn evaluate_health(
    upstream: Option<NetBoxHealth>,
    breaker: Option<(CircuitState, u32)>,
    timestamp: String,
) -> (r: HealthStatus)
    ensures
        spec_degraded(
            upstream,
            match breaker {
                Some(b) => Some(b.0),
                None => None,
            },
        ) ==> r.status@ == "degraded"@,
        !spec_degraded(
            upstream,
            match breaker {
                Some(b) => Some(b.0),
                None => None,
            },
        ) ==> r.status@ == "healthy"@,
        r.service@ == "NetGate"@,
        r.timestamp@ == timestamp@,
        r.netbox is Some <==> upstream is Some,
        (match (r.circuit_breaker, breaker) {
            (Some(cb), Some(b)) => cb.state@ == spec_state_name(b.0) && cb.failure_count == b.1,
            (None, None) => true,
            _ => false,
        }),
{
    let degraded = match &upstream {
        Some(u) => !u.connected,
        None => false,
    } || match &breaker {
        Some((s, _)) => *s == CircuitState::Open,
        None => false,
    };
    let status = if degraded {
        String::from_str("degraded")
    } else {
        String::from_str("healthy")
    };
    let circuit_breaker = match breaker {
        Some((s, failure_count)) => Some(
            CircuitBreakerHealth { state: state_name(s), failure_count },
        ),
        None => None,
    };
    HealthStatus {
        status,
        service: String::from_str("NetGate"),
        version: String::from_str("1.0.0"),
        timestamp,
        netbox: upstream,
        circuit_breaker,
    }
}

impl HealthStatus {
    /// The HTTP status the report maps to: 200 when healthy, 503 when
    /// degraded.
    pub fn http_status(&self) -> (r: u16)
        ensures
            self.status@ == "healthy"@ ==> r == 200,
            self.status@ != "healthy"@ ==> r == 503,
    {
        if crate::strutil::str_eq(self.status.as_str(), "healthy") {
            200
        } else {
            503
        }
    }
}

} // verus!

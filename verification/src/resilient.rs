//! The resilient client's decision core: the circuit breaker, the call
//! metrics, the degradation cache and the retry policy, composed around
//! an outbound call whose transport runs outside this crate. A caller
//! opens an attempt with `begin_call`, performs the transport, and
//! reports the outcome back.
use vstd::prelude::*;
use crate::circuit_breaker::{CircuitBreaker, CircuitBreakerConfig, CircuitState, spec_allow, spec_record_success, spec_record_failure};
use crate::degradation::DegradationCache;
use crate::metrics::{ApiMetrics, MetricsSnapshot};
use crate::models::NetBoxSite;
use crate::cache::KeyContent;
use crate::retry::RetryConfig;

verus! {

/// The state the resilient client keeps around its outbound calls.
pub struct ResilientClientCore {
    pub circuit_breaker: CircuitBreaker,
    pub metrics: ApiMetrics,
    pub cache: DegradationCache,
    pub retry_config: RetryConfig,
}

impl ResilientClientCore {
    pub open spec fn wf(self) -> bool {
        self.metrics.wf() && self.cache.wf()
    }

    /// A core with the default breaker, retry policy, and a five-minute
    /// degradation cache.
    pub fn new() -> (r: Self)
        ensures
            r.wf(),
            r.circuit_breaker.state == CircuitState::Closed,
            r.metrics.total_requests == 0,
            r.metrics.in_flight() == 0,
    {
        ResilientClientCore {
            circuit_breaker: CircuitBreaker::new(),
            metrics: ApiMetrics::new(),
            cache: DegradationCache::default(),
            retry_config: RetryConfig::default(),
        }
    }

    /// A core with custom breaker, retry and cache configuration.
    pub fn with_config(
        circuit_breaker_config: CircuitBreakerConfig,
        retry_config: RetryConfig,
        cache_ttl: u64,
    ) -> (r: Self)
        ensures
            r.wf(),
            r.circuit_breaker == CircuitBreaker::spec_new(circuit_breaker_config),
            r.retry_config == retry_config,
            r.metrics.in_flight() == 0,
    {
        ResilientClientCore {
            circuit_breaker: CircuitBreaker::with_config(circuit_breaker_config),
            metrics: ApiMetrics::new(),
            cache: DegradationCache::new(cache_ttl),
            retry_config,
        }
    }

    /// Open an outbound attempt at time `now`. When the breaker admits
    /// it, the request is counted as started and its start time handed
    /// back; when the breaker rejects it, the rejection is counted and
    /// nothing else changes.
    pub fn begin_call(&mut self, now: u64) -> (r: Option<u64>)
        requires
            old(self).wf(),
        ensures
            final(self).wf(),
            r is Some <==> spec_allow(old(self).circuit_breaker, now).1,
            final(self).circuit_breaker == spec_allow(old(self).circuit_breaker, now).0,
            final(self).cache == old(self).cache,
            final(self).retry_config == old(self).retry_config,
            r matches Some(start) ==> start == now && final(self).metrics == (ApiMetrics {
                total_requests: crate::metrics::bump64(old(self).metrics.total_requests),
                last_request_time: now,
                ..old(self).metrics
            }),
            r is Some && old(self).metrics.total_requests < 0xffff_ffff_ffff_ffffu64 ==> final(self).metrics.in_flight() == old(self).metrics.in_flight() + 1,
            r is None ==> final(self).metrics == (ApiMetrics {
                circuit_breaker_rejections: crate::metrics::bump64(
                    old(self).metrics.circuit_breaker_rejections,
                ),
                ..old(self).metrics
            }),
            r is None ==> final(self).metrics.in_flight() == old(self).metrics.in_flight(),
    {
        if self.circuit_breaker.allow_request_at(now) {
            let start = self.metrics.record_request_start_at(now);
            Some(start)
        } else {
            self.metrics.record_circuit_breaker_rejection();
            None
        }
    }

    /// Report a successful read of a site: the breaker and the metrics
    /// record the success and the copy goes into the degradation cache.
    pub fn on_site_read_success(&mut self, start: u64, now: u64, id: i32, site: &NetBoxSite)
        requires
            old(self).wf(),
            old(self).metrics.in_flight() >= 1,
        ensures
            final(self).wf(),
            final(self).circuit_breaker == spec_record_success(old(self).circuit_breaker, now),
            final(self).metrics.successful_requests == old(self).metrics.successful_requests + 1,
            final(self).metrics.in_flight() == old(self).metrics.in_flight() - 1,
            final(self).cache.sites.has_key(KeyContent::Site(id)),
            final(self).cache.sites.entry_of(KeyContent::Site(id)).value@ == site@,
            forall|kc: KeyContent|
                kc != KeyContent::Site(id) ==> #[trigger] final(self).cache.sites.has_key(kc)
                    == old(self).cache.sites.has_key(kc),
            forall|kc: KeyContent|
                kc != KeyContent::Site(id) && old(self).cache.sites.has_key(kc) ==> #[trigger] final(self).cache.sites.entry_of(kc) == old(self).cache.sites.entry_of(kc),
            final(self).cache.devices == old(self).cache.devices,
            final(self).cache.site_lists == old(self).cache.site_lists,
            final(self).cache.device_lists == old(self).cache.device_lists,
            final(self).retry_config == old(self).retry_config,
    {
        self.circuit_breaker.record_success_at(now);
        self.metrics.record_success_at(start, now);
        let copy = site.clone();
        self.cache.cache_site(id, copy, now);
    }

    /// Report a failed read of a site: the breaker and the metrics record
    /// the failure, and the degradation cache may serve a stale copy.
    pub fn on_site_read_failure(&mut self, start: u64, now: u64, id: i32) -> (r: Option<NetBoxSite>)
        requires
            old(self).wf(),
            old(self).metrics.in_flight() >= 1,
        ensures
            final(self).wf(),
            final(self).circuit_breaker == spec_record_failure(old(self).circuit_breaker, now),
            final(self).metrics.failed_requests == old(self).metrics.failed_requests + 1,
            final(self).metrics.in_flight() == old(self).metrics.in_flight() - 1,
            r is Some <==> old(self).cache.sites.has_key(KeyContent::Site(id)) && now <= old(self).cache.sites.entry_of(KeyContent::Site(id)).expires_at,
            r matches Some(v) ==> v@ == old(self).cache.sites.entry_of(
                KeyContent::Site(id),
            ).value@,
            r is Some || !old(self).cache.sites.has_key(KeyContent::Site(id)) ==> final(self).cache.sites.entries() == old(self).cache.sites.entries(),
            r is None && old(self).cache.sites.has_key(KeyContent::Site(id)) ==> final(self).cache.sites.entries() == old(self).cache.sites.entries().remove(
                old(self).cache.sites.idx_of(KeyContent::Site(id)),
            ),
            final(self).cache.devices == old(self).cache.devices,
            final(self).cache.site_lists == old(self).cache.site_lists,
            final(self).cache.device_lists == old(self).cache.device_lists,
            final(self).retry_config == old(self).retry_config,
    {
        self.circuit_breaker.record_failure_at(now);
        self.metrics.record_failure_at(start, now);
        self.cache.get_site(id, now)
    }

    /// Serve a rejected read from the degradation cache, if it can.
    pub fn fallback_site(&mut self, id: i32, now: u64) -> (r: Option<NetBoxSite>)
        requires
            old(self).wf(),
        ensures
            final(self).wf(),
            r is Some <==> old(self).cache.sites.has_key(KeyContent::Site(id)) && now <= old(self).cache.sites.entry_of(KeyContent::Site(id)).expires_at,
            r matches Some(v) ==> v@ == old(self).cache.sites.entry_of(
                KeyContent::Site(id),
            ).value@,
            r is Some || !old(self).cache.sites.has_key(KeyContent::Site(id)) ==> final(self).cache.sites.entries() == old(self).cache.sites.entries(),
            r is None && old(self).cache.sites.has_key(KeyContent::Site(id)) ==> final(self).cache.sites.entries() == old(self).cache.sites.entries().remove(
                old(self).cache.sites.idx_of(KeyContent::Site(id)),
            ),
            final(self).cache.devices == old(self).cache.devices,
            final(self).cache.site_lists == old(self).cache.site_lists,
            final(self).cache.device_lists == old(self).cache.device_lists,
            final(self).circuit_breaker == old(self).circuit_breaker,
            final(self).metrics == old(self).metrics,
            final(self).retry_config == old(self).retry_config,
    {
        self.cache.get_site(id, now)
    }

    /// Report a successful write that created a site: the breaker and
    /// the metrics record the success, and the created resource is put
    /// into the degradation cache so later reads can fall back to it.
    pub fn on_site_write_success(&mut self, start: u64, now: u64, site: &NetBoxSite)
        requires
            old(self).wf(),
            old(self).metrics.in_flight() >= 1,
        ensures
            final(self).wf(),
            final(self).circuit_breaker == spec_record_success(old(self).circuit_breaker, now),
            final(self).metrics.successful_requests == old(self).metrics.successful_requests + 1,
            final(self).metrics.in_flight() == old(self).metrics.in_flight() - 1,
            site@.id matches Some(id) ==> final(self).cache.sites.has_key(KeyContent::Site(id))
                && final(self).cache.sites.entry_of(KeyContent::Site(id)).value@ == site@,
            site@.id is None ==> final(self).cache == old(self).cache,
            site@.id matches Some(id) ==> forall|kc: KeyContent|
                kc != KeyContent::Site(id) ==> #[trigger] final(self).cache.sites.has_key(kc)
                    == old(self).cache.sites.has_key(kc),
            site@.id matches Some(id) ==> forall|kc: KeyContent|
                kc != KeyContent::Site(id) && old(self).cache.sites.has_key(kc) ==> #[trigger] final(self).cache.sites.entry_of(kc) == old(self).cache.sites.entry_of(kc),
            final(self).cache.devices == old(self).cache.devices,
            final(self).cache.site_lists == old(self).cache.site_lists,
            final(self).cache.device_lists == old(self).cache.device_lists,
            final(self).retry_config == old(self).retry_config,
    {
        self.circuit_breaker.record_success_at(now);
        self.metrics.record_success_at(start, now);
        if let Some(id) = site.id {
            let copy = site.clone();
            self.cache.cache_site(id, copy, now);
        }
    }

    /// Report a failed write: the breaker and the metrics record the
    /// failure; writes never fall back to the cache.
    pub fn on_write_failure(&mut self, start: u64, now: u64)
        requires
            old(self).wf(),
            old(self).metrics.in_flight() >= 1,
        ensures
            final(self).wf(),
            final(self).circuit_breaker == spec_record_failure(old(self).circuit_breaker, now),
            final(self).metrics.failed_requests == old(self).metrics.failed_requests + 1,
            final(self).metrics.in_flight() == old(self).metrics.in_flight() - 1,
            final(self).cache == old(self).cache,
            final(self).retry_config == old(self).retry_config,
    {
        self.circuit_breaker.record_failure_at(now);
        self.metrics.record_failure_at(start, now);
    }

    /// A consistent copy of the call metrics.
    pub fn metrics(&self) -> (r: MetricsSnapshot)
        ensures
            r.total_requests == self.metrics.total_requests,
            r.successful_requests == self.metrics.successful_requests,
            r.failed_requests == self.metrics.failed_requests,
            r.total_retries == self.metrics.total_retries,
            r.circuit_breaker_rejections == self.metrics.circuit_breaker_rejections,
    {
        self.metrics.snapshot()
    }

    /// The breaker's current state.
    pub fn circuit_breaker_state(&self) -> (r: CircuitState)
        ensures
            r == self.circuit_breaker.state,
    {
        self.circuit_breaker.state()
    }

    /// Drop every degradation-cache entry.
    pub fn clear_cache(&mut self)
        requires
            old(self).wf(),
        ensures
            final(self).wf() == (final(self).metrics.wf() && final(self).cache.wf()),
            final(self).cache.wf(),
            final(self).circuit_breaker == old(self).circuit_breaker,
            final(self).metrics == old(self).metrics,
            final(self).cache.sites.entries().len() == 0,
            final(self).cache.devices.entries().len() == 0,
            final(self).cache.site_lists.entries().len() == 0,
            final(self).cache.device_lists.entries().len() == 0,
    {
        self.cache.clear_all();
    }
}


/// The cache key of an optional numeric filter: its decimal value, or
/// `none` when absent.
pub open spec fn spec_opt_filter_key(v: Option<int>) -> Seq<char> {
    match v {
        Some(n) => crate::virtual_models::int_decimal(n),
        None => "none"@,
    }
}

/// The degradation-cache key of a site-list query: the tenant, limit
/// and offset filters, each rendered as a decimal or as `none`.
pub open spec fn spec_site_list_key(
    tenant_id: Option<i32>,
    limit: Option<u32>,
    offset: Option<u32>,
) -> Seq<char> {
    "sites:tenant:"@ + spec_opt_filter_key(
        match tenant_id {
            Some(t) => Some(t as int),
            None => None,
        },
    ) + ":limit:"@ + spec_opt_filter_key(
        match limit {
            Some(l) => Some(l as int),
            None => None,
        },
    ) + ":offset:"@ + spec_opt_filter_key(
        match offset {
            Some(o) => Some(o as int),
            None => None,
        },
    )
}

/// Build the degradation-cache key of a site-list query.
pub fn site_list_cache_key(tenant_id: Option<i32>, limit: Option<u32>, offset: Option<u32>) -> (r:
    String)
    ensures
        r@ == spec_site_list_key(tenant_id, limit, offset),
{
    let t = match tenant_id {
        Some(t) => crate::virtual_models::i32_to_string(t),
        None => String::from_str("none"),
    };
    let l = match limit {
        Some(l) => crate::strutil::u64_to_string(l as u64),
        None => String::from_str("none"),
    };
    let o = match offset {
        Some(o) => crate::strutil::u64_to_string(o as u64),
        None => String::from_str("none"),
    };
    String::from_str("sites:tenant:").concat(t.as_str()).concat(":limit:").concat(
        l.as_str(),
    ).concat(":offset:").concat(o.as_str())
}

impl ResilientClientCore {
    /// Report a successful site-list read: the breaker and the metrics
    /// record the success and the list goes into the degradation cache
    /// under its query key.
    pub fn on_site_list_read_success(
        &mut self,
        start: u64,
        now: u64,
        key: String,
        sites: Vec<NetBoxSite>,
    )
        requires
            old(self).wf(),
            old(self).metrics.in_flight() >= 1,
        ensures
            final(self).wf(),
            final(self).circuit_breaker == spec_record_success(old(self).circuit_breaker, now),
            final(self).metrics.successful_requests == old(self).metrics.successful_requests + 1,
            final(self).metrics.in_flight() == old(self).metrics.in_flight() - 1,
            final(self).cache.site_lists.has_key(KeyContent::SiteList(key@)),
            final(self).cache.site_lists.entry_of(KeyContent::SiteList(key@)).value@
                == sites@.map_values(|s: NetBoxSite| s@),
            forall|kc: KeyContent|
                kc != KeyContent::SiteList(key@) ==> #[trigger] final(self).cache.site_lists.has_key(
                    kc,
                ) == old(self).cache.site_lists.has_key(kc),
            forall|kc: KeyContent|
                kc != KeyContent::SiteList(key@) && old(self).cache.site_lists.has_key(kc)
                    ==> #[trigger] final(self).cache.site_lists.entry_of(kc) == old(self).cache.site_lists.entry_of(kc),
            final(self).cache.sites == old(self).cache.sites,
            final(self).cache.devices == old(self).cache.devices,
            final(self).cache.device_lists == old(self).cache.device_lists,
            final(self).retry_config == old(self).retry_config,
    {
        self.circuit_breaker.record_success_at(now);
        self.metrics.record_success_at(start, now);
        self.cache.cache_site_list(key, sites, now);
    }

    /// Report a failed site-list read: the breaker and the metrics record
    /// the failure, and the degradation cache may serve a stale list.
    pub fn on_site_list_read_failure(&mut self, start: u64, now: u64, key: &str) -> (r: Option<
        Vec<NetBoxSite>,
    >)
        requires
            old(self).wf(),
            old(self).metrics.in_flight() >= 1,
        ensures
            final(self).wf(),
            final(self).circuit_breaker == spec_record_failure(old(self).circuit_breaker, now),
            final(self).metrics.failed_requests == old(self).metrics.failed_requests + 1,
            final(self).metrics.in_flight() == old(self).metrics.in_flight() - 1,
            r is Some <==> old(self).cache.site_lists.has_key(KeyContent::SiteList(key@)) && now
                <= old(self).cache.site_lists.entry_of(KeyContent::SiteList(key@)).expires_at,
            r matches Some(v) ==> v@.map_values(|s: NetBoxSite| s@) == old(self).cache.site_lists.entry_of(KeyContent::SiteList(key@)).value@,
            r is Some || !old(self).cache.site_lists.has_key(KeyContent::SiteList(key@)) ==> final(self).cache.site_lists.entries() == old(self).cache.site_lists.entries(),
            r is None && old(self).cache.site_lists.has_key(KeyContent::SiteList(key@)) ==> final(self).cache.site_lists.entries() == old(self).cache.site_lists.entries().remove(
                old(self).cache.site_lists.idx_of(KeyContent::SiteList(key@)),
            ),
            final(self).cache.sites == old(self).cache.sites,
            final(self).cache.devices == old(self).cache.devices,
            final(self).cache.device_lists == old(self).cache.device_lists,
            final(self).retry_config == old(self).retry_config,
    {
        self.circuit_breaker.record_failure_at(now);
        self.metrics.record_failure_at(start, now);
        self.cache.get_site_list(key, now)
    }

    /// Serve a rejected site-list read from the degradation cache, if it
    /// can.
    pub fn fallback_site_list(&mut self, key: &str, now: u64) -> (r: Option<Vec<NetBoxSite>>)
        requires
            old(self).wf(),
        ensures
            final(self).wf(),
            r is Some <==> old(self).cache.site_lists.has_key(KeyContent::SiteList(key@)) && now
                <= old(self).cache.site_lists.entry_of(KeyContent::SiteList(key@)).expires_at,
            r matches Some(v) ==> v@.map_values(|s: NetBoxSite| s@) == old(self).cache.site_lists.entry_of(KeyContent::SiteList(key@)).value@,
            r is Some || !old(self).cache.site_lists.has_key(KeyContent::SiteList(key@)) ==> final(self).cache.site_lists.entries() == old(self).cache.site_lists.entries(),
            r is None && old(self).cache.site_lists.has_key(KeyContent::SiteList(key@)) ==> final(self).cache.site_lists.entries() == old(self).cache.site_lists.entries().remove(
                old(self).cache.site_lists.idx_of(KeyContent::SiteList(key@)),
            ),
            final(self).cache.sites == old(self).cache.sites,
            final(self).cache.devices == old(self).cache.devices,
            final(self).cache.device_lists == old(self).cache.device_lists,
            final(self).circuit_breaker == old(self).circuit_breaker,
            final(self).metrics == old(self).metrics,
            final(self).retry_config == old(self).retry_config,
    {
        self.cache.get_site_list(key, now)
    }
}

} // verus!

//! End-to-end scenarios over the verified cores: the order pipeline,
//! the breaker, the caches and the tenant access layer working together.
use netgate::cache::{Cache, CacheKey};
use netgate::cache_strategy::{CacheConfig, InvalidationStrategy};
use netgate::cached_client::CachedClientCore;
use netgate::circuit_breaker::{CircuitBreakerConfig, CircuitState};
use netgate::domain::CreateSiteOrder;
use netgate::errors::AppError;
use netgate::health::{evaluate_health, NetBoxHealth};
use netgate::resilient::site_list_cache_key;
use netgate::models::{NetBoxSite, SiteStatus};
use netgate::order_service::OrderService;
use netgate::resilient::ResilientClientCore;
use netgate::retry::RetryConfig;
use netgate::tenant_access::{TenantAccessControl, TenantMappingService};
use netgate::workflow::OrderState;

fn site(id: i32, tenant: Option<i32>) -> NetBoxSite {
    NetBoxSite {
        id: Some(id),
        name: format!("Site {}", id),
        tenant,
        status: Some(SiteStatus::Active),
        ..Default::default()
    }
}

/// Happy path: a valid order runs the pipeline, the upstream creates
/// the site, and the workflow ends Completed with the inventory id.
#[test]
fn scenario_happy_path_site_order() {
    let mut service = OrderService::new();
    let order = CreateSiteOrder {
        name: "Test Site".to_string(),
        description: Some("d".to_string()),
        address: Some("123 Main".to_string()),
    };

    let (order_id, request) = service.prepare_site_order(order, "t1".to_string()).unwrap();
    assert_eq!(order_id.chars().count(), 36);
    assert_eq!(request.name, "Test Site");
    assert_eq!(request.physical_address, Some("123 Main".to_string()));

    let created = NetBoxSite {
        id: Some(123),
        name: "Test Site".to_string(),
        status: Some(SiteStatus::Active),
        ..Default::default()
    };
    let result = service
        .complete_site_order(order_id.clone(), "t1".to_string(), created)
        .unwrap();

    assert_eq!(result.tenant_id, "t1");
    assert_eq!(result.netbox_site.id, Some(123));
    assert_eq!(result.workflow_state, OrderState::Completed);
    let w = service.workflow_manager.get_order(&order_id).unwrap();
    assert_eq!(w.state, OrderState::Completed);
    assert_eq!(w.netbox_site_id, Some(123));
}

/// Validation rejection: an empty name yields a validation error and
/// creates no workflow.
#[test]
fn scenario_validation_rejection() {
    let mut service = OrderService::new();
    let order = CreateSiteOrder { name: "".to_string(), description: None, address: None };

    let err = service.prepare_site_order(order, "t1".to_string()).unwrap_err();
    assert_eq!(err.status_code(), 400);
    assert!(service.workflow_manager.get_tenant_orders("t1").is_empty());
}

/// Upstream failure: after retries are exhausted the workflow ends
/// Failed with an error message, and the error surfaces.
#[test]
fn scenario_upstream_failure_marks_failed() {
    let mut service = OrderService::new();
    let order = CreateSiteOrder {
        name: "Test Site".to_string(),
        description: None,
        address: None,
    };
    let (order_id, _request) = service.prepare_site_order(order, "t1".to_string()).unwrap();

    let err = service.fail_site_order(
        &order_id,
        AppError::Internal("HTTP 500: server error".to_string()),
    );
    assert_eq!(err.status_code(), 500);

    let w = service.workflow_manager.get_order(&order_id).unwrap();
    assert_eq!(w.state, OrderState::Failed);
    assert!(w.error_message.is_some());
}

/// Breaker opens: five failures open the circuit; the sixth attempt is
/// rejected without reaching the upstream and the rejection is counted.
#[test]
fn scenario_breaker_opens_after_five_failures() {
    let mut core = ResilientClientCore::with_config(
        CircuitBreakerConfig { failure_threshold: 5, ..Default::default() },
        RetryConfig::default(),
        300000,
    );

    for i in 0..5u64 {
        let start = core.begin_call(i).expect("closed breaker admits the call");
        core.on_site_read_failure(start, i, 1);
    }
    assert_eq!(core.circuit_breaker_state(), CircuitState::Open);

    // the sixth observable attempt is rejected by the breaker
    assert!(core.begin_call(6).is_none());
    let m = core.metrics();
    assert!(m.circuit_breaker_rejections >= 1);
    assert_eq!(m.total_requests, 5);
}

/// Tenant isolation: with t1 mapped to 10 and t2 to 20, a three-site
/// list keeps exactly the two tenant-10 sites for t1, and a foreign
/// site read is unauthorized.
#[test]
fn scenario_tenant_isolation() {
    let mut mapping = TenantMappingService::new();
    mapping.register_mapping("t1".to_string(), 10);
    mapping.register_mapping("t2".to_string(), 20);
    let access = TenantAccessControl::new(mapping);

    let upstream = vec![site(1, Some(10)), site(2, Some(20)), site(3, Some(10))];
    let filtered = access.filter_sites_by_tenant(&"t1".to_string(), upstream).unwrap();
    assert_eq!(filtered.len(), 2);
    assert!(filtered.iter().all(|s| s.tenant == Some(10)));

    let foreign = site(2, Some(20));
    let err = access.verify_site_access(&"t1".to_string(), &foreign).unwrap_err();
    assert_eq!(err.status_code(), 401);
}

/// Cache invalidation under WriteBack: a read misses then hits; a
/// successful create invalidates the site key, so the next read misses
/// again.
#[test]
fn scenario_cache_invalidation_write_back() {
    let config = CacheConfig::new(60000).with_invalidation_strategy(InvalidationStrategy::WriteBack);
    let mut cached = CachedClientCore::with_config(config);

    // first read: miss, then the fetched value is stored
    assert!(cached.lookup_site(1, 0).is_none());
    cached.store_site(1, site(1, Some(10)), 0);

    // second read: hit
    assert!(cached.lookup_site(1, 1).is_some());

    // lists are cached too
    cached.store_site_list("tenant=10".to_string(), vec![site(1, Some(10))], 1);
    assert!(cached.lookup_site_list("tenant=10", 2).is_some());

    // a successful create invalidates the site key and every site list
    cached.on_site_created(1);
    assert!(cached.lookup_site(1, 2).is_none());
    assert!(cached.lookup_site_list("tenant=10", 2).is_none());

    let m = cached.cache_metrics();
    assert!(m.hits >= 2);
    assert!(m.misses >= 2);
    assert!(m.invalidations >= 1);
}

/// Degradation fallback: a successful read primes the cache; when the
/// upstream starts failing, the read still returns the cached value
/// while the metrics record the failure.
#[test]
fn scenario_degradation_fallback() {
    let mut core = ResilientClientCore::new();

    // prime the degradation cache with a successful read
    let start = core.begin_call(0).unwrap();
    core.on_site_read_success(start, 1, 1, &site(1, Some(10)));

    // the upstream now fails; the cached copy is served instead
    let start = core.begin_call(2).unwrap();
    let fallback = core.on_site_read_failure(start, 3, 1);
    assert!(fallback.is_some());
    assert_eq!(fallback.unwrap().id, Some(1));

    let m = core.metrics();
    assert_eq!(m.total_requests, 2);
    assert_eq!(m.successful_requests, 1);
    assert_eq!(m.failed_requests, 1);
    assert_eq!(m.total_requests, m.successful_requests + m.failed_requests);
}

/// A bounded cache never exceeds its size, whatever is inserted.
#[test]
fn cache_never_exceeds_bound() {
    let mut cache: Cache<u32> = Cache::with_max_size(60000, 5);
    for i in 0..20 {
        cache.put(CacheKey::Site(i), i as u32, i as u64);
        assert!(cache.size() <= 5);
    }
    assert_eq!(cache.size(), 5);
}

/// A cache hit at time `now` always comes from an entry whose expiry is
/// at or after `now`.
#[test]
fn cache_hit_is_always_fresh() {
    let mut cache: Cache<u32> = Cache::new(100);
    cache.put(CacheKey::Site(1), 11, 0);
    assert!(cache.get(&CacheKey::Site(1), 100).is_some());
    assert!(cache.get(&CacheKey::Site(1), 101).is_none());
}

/// The breaker admits exactly the configured number of failures before
/// opening, and the cooldown admits a probe into HalfOpen.
#[test]
fn breaker_cooldown_admits_single_probe_state() {
    let mut core = ResilientClientCore::with_config(
        CircuitBreakerConfig {
            failure_threshold: 2,
            success_threshold: 1,
            timeout_duration: 100,
            window_duration: 100,
        },
        RetryConfig::default(),
        300000,
    );
    let start = core.begin_call(0).unwrap();
    core.on_write_failure(start, 0);
    let start = core.begin_call(1).unwrap();
    core.on_write_failure(start, 1);
    assert_eq!(core.circuit_breaker_state(), CircuitState::Open);

    // before the cooldown: rejected
    assert!(core.begin_call(50).is_none());
    // at the cooldown: admitted, breaker half-open
    assert!(core.begin_call(101).is_some());
    assert_eq!(core.circuit_breaker_state(), CircuitState::HalfOpen);
}

/// Writes do not fall back to the degradation cache: a failed write
/// surfaces even when a cached copy exists.
#[test]
fn write_failures_have_no_fallback() {
    let mut core = ResilientClientCore::new();
    let start = core.begin_call(0).unwrap();
    core.on_site_read_success(start, 1, 1, &site(1, Some(10)));

    let start = core.begin_call(2).unwrap();
    core.on_write_failure(start, 3);
    let m = core.metrics();
    assert_eq!(m.failed_requests, 1);
}

/// A successful create lands in the degradation cache so later reads
/// can fall back to it.
#[test]
fn create_populates_degradation_cache() {
    let mut core = ResilientClientCore::new();
    let start = core.begin_call(0).unwrap();
    core.on_site_write_success(start, 1, &site(9, Some(10)));

    let cached = core.fallback_site(9, 2);
    assert!(cached.is_some());
    assert_eq!(cached.unwrap().id, Some(9));
}

/// The health report is degraded exactly when the upstream probe failed
/// or the breaker is Open, and maps to 503 then.
#[test]
fn health_report_reflects_upstream_and_breaker() {
    let healthy = evaluate_health(
        Some(NetBoxHealth { connected: true, response_time_ms: Some(12), error: None }),
        Some((CircuitState::Closed, 0)),
        "2025-01-01T00:00:00Z".to_string(),
    );
    assert_eq!(healthy.status, "healthy");
    assert_eq!(healthy.http_status(), 200);
    assert_eq!(healthy.service, "NetGate");

    let upstream_down = evaluate_health(
        Some(NetBoxHealth {
            connected: false,
            response_time_ms: None,
            error: Some("timed out".to_string()),
        }),
        Some((CircuitState::Closed, 3)),
        "2025-01-01T00:00:00Z".to_string(),
    );
    assert_eq!(upstream_down.status, "degraded");
    assert_eq!(upstream_down.http_status(), 503);

    let breaker_open = evaluate_health(
        Some(NetBoxHealth { connected: true, response_time_ms: Some(5), error: None }),
        Some((CircuitState::Open, 5)),
        "2025-01-01T00:00:00Z".to_string(),
    );
    assert_eq!(breaker_open.status, "degraded");
    assert_eq!(breaker_open.http_status(), 503);
    assert_eq!(breaker_open.circuit_breaker.unwrap().state, "Open");
}

/// Site-list reads build a stable cache key out of the query filters,
/// with absent filters spelled out rather than collapsed onto a value.
#[test]
fn site_list_cache_key_is_exact() {
    assert_eq!(
        site_list_cache_key(Some(10), Some(1), None),
        "sites:tenant:10:limit:1:offset:none"
    );
    assert_eq!(
        site_list_cache_key(None, None, Some(0)),
        "sites:tenant:none:limit:none:offset:0"
    );
    // an explicit zero filter is distinct from an absent one
    assert_ne!(
        site_list_cache_key(Some(0), None, None),
        site_list_cache_key(None, None, None)
    );
}

/// A failing list read serves the cached list for the same query key.
#[test]
fn site_list_degradation_fallback() {
    let mut core = ResilientClientCore::new();
    let key = site_list_cache_key(Some(10), None, None);

    let start = core.begin_call(0).unwrap();
    core.on_site_list_read_success(start, 1, key.clone(), vec![site(1, Some(10)), site(3, Some(10))]);

    let start = core.begin_call(2).unwrap();
    let fallback = core.on_site_list_read_failure(start, 3, &key);
    assert!(fallback.is_some());
    assert_eq!(fallback.unwrap().len(), 2);

    // a different query key has no cached list
    let other = site_list_cache_key(Some(20), None, None);
    assert!(core.fallback_site_list(&other, 4).is_none());
}

use netgate::circuit_breaker::{CircuitBreaker, CircuitBreakerConfig, CircuitState};
use netgate::degradation::{
    degrade_site_list_retrieval, degrade_site_retrieval, DegradationCache, DegradationStrategy,
};
use netgate::metrics::ApiMetrics;
use netgate::models::{DeviceStatus, NetBoxDevice, NetBoxSite, SiteStatus};
use netgate::retry::{should_retry, RetryConfig};

fn create_test_site(id: i32) -> NetBoxSite {
    NetBoxSite {
        id: Some(id),
        name: format!("Site {}", id),
        status: Some(SiteStatus::Active),
        ..Default::default()
    }
}

fn create_test_device(id: i32) -> NetBoxDevice {
    NetBoxDevice {
        id: Some(id),
        name: Some(format!("Device {}", id)),
        status: Some(DeviceStatus::Active),
        ..Default::default()
    }
}

#[test]
fn test_circuit_breaker_starts_closed() {
    let mut cb = CircuitBreaker::new();
    assert_eq!(cb.state(), CircuitState::Closed);
    assert!(cb.allow_request());
}

#[test]
fn test_circuit_breaker_opens_after_threshold() {
    let mut cb = CircuitBreaker::new();
    let threshold = cb.config.failure_threshold;

    for _ in 0..threshold {
        cb.record_failure();
    }

    assert_eq!(cb.state(), CircuitState::Open);
    assert!(!cb.allow_request());
}

#[test]
fn test_circuit_breaker_resets_on_success() {
    let mut cb = CircuitBreaker::new();

    cb.record_failure();
    cb.record_failure();

    cb.record_success();
    assert_eq!(cb.failure_count(), 0);
    assert_eq!(cb.state(), CircuitState::Closed);
}

#[test]
fn test_circuit_breaker_transitions_to_half_open() {
    let config = CircuitBreakerConfig { timeout_duration: 100, ..Default::default() };
    let mut cb = CircuitBreaker::with_config(config);

    // Open the circuit at time 0
    for _ in 0..cb.config.failure_threshold {
        cb.record_failure_at(0);
    }
    assert_eq!(cb.state(), CircuitState::Open);

    // Before the cooldown elapses the breaker rejects
    assert!(!cb.allow_request_at(50));
    assert_eq!(cb.state(), CircuitState::Open);

    // At the cooldown it admits a probe and goes half-open
    assert!(cb.allow_request_at(150));
    assert_eq!(cb.state(), CircuitState::HalfOpen);
}

#[test]
fn test_circuit_breaker_closes_after_success_threshold() {
    let config = CircuitBreakerConfig {
        timeout_duration: 100,
        success_threshold: 2,
        ..Default::default()
    };
    let mut cb = CircuitBreaker::with_config(config);

    for _ in 0..cb.config.failure_threshold {
        cb.record_failure_at(0);
    }

    cb.allow_request_at(150);

    cb.record_success_at(160);
    assert_eq!(cb.state(), CircuitState::HalfOpen);

    cb.record_success_at(170);
    assert_eq!(cb.state(), CircuitState::Closed);
}

#[test]
fn test_circuit_breaker_failure_in_half_open_opens_again() {
    let config = CircuitBreakerConfig { timeout_duration: 100, ..Default::default() };
    let mut cb = CircuitBreaker::with_config(config);

    for _ in 0..cb.config.failure_threshold {
        cb.record_failure_at(0);
    }

    cb.allow_request_at(150);
    assert_eq!(cb.state(), CircuitState::HalfOpen);

    cb.record_failure_at(160);
    assert_eq!(cb.state(), CircuitState::Open);
}

#[test]
fn test_circuit_breaker_reset() {
    let mut cb = CircuitBreaker::new();

    for _ in 0..cb.config.failure_threshold {
        cb.record_failure();
    }
    assert_eq!(cb.state(), CircuitState::Open);

    cb.reset();
    assert_eq!(cb.state(), CircuitState::Closed);
    assert_eq!(cb.failure_count(), 0);
}

#[test]
fn test_metrics_initial_state() {
    let metrics = ApiMetrics::new();
    assert_eq!(metrics.total_requests(), 0);
    assert_eq!(metrics.successful_requests(), 0);
    assert_eq!(metrics.failed_requests(), 0);
}

#[test]
fn test_metrics_record_success() {
    let mut metrics = ApiMetrics::new();
    let start = metrics.record_request_start_at(100);
    metrics.record_success_at(start, 120);

    assert_eq!(metrics.total_requests(), 1);
    assert_eq!(metrics.successful_requests(), 1);
    assert_eq!(metrics.failed_requests(), 0);
    assert_eq!(metrics.total_response_time_ms, 20);
}

#[test]
fn test_metrics_record_failure() {
    let mut metrics = ApiMetrics::new();
    let start = metrics.record_request_start();
    metrics.record_failure(start);

    assert_eq!(metrics.total_requests(), 1);
    assert_eq!(metrics.successful_requests(), 0);
    assert_eq!(metrics.failed_requests(), 1);
}

#[test]
fn test_metrics_success_rate() {
    let mut metrics = ApiMetrics::new();

    // Record 3 successes and 1 failure
    for _ in 0..3 {
        let start = metrics.record_request_start();
        metrics.record_success(start);
    }
    let start = metrics.record_request_start();
    metrics.record_failure(start);

    assert_eq!(metrics.total_requests(), 4);
    assert_eq!(metrics.successful_requests(), 3);
    assert_eq!(metrics.failed_requests(), 1);
    // with no request in flight, the totals balance exactly
    assert_eq!(
        metrics.total_requests(),
        metrics.successful_requests() + metrics.failed_requests()
    );
}

#[test]
fn test_metrics_retries() {
    let mut metrics = ApiMetrics::new();
    metrics.record_retry();
    metrics.record_retry();

    assert_eq!(metrics.total_retries(), 2);
}

#[test]
fn test_metrics_circuit_breaker_rejections() {
    let mut metrics = ApiMetrics::new();
    metrics.record_circuit_breaker_rejection();
    metrics.record_circuit_breaker_rejection();

    assert_eq!(metrics.circuit_breaker_rejections(), 2);
}

#[test]
fn test_metrics_snapshot() {
    let mut metrics = ApiMetrics::new();
    let start = metrics.record_request_start();
    metrics.record_success(start);

    let snapshot = metrics.snapshot();
    assert_eq!(snapshot.total_requests, 1);
    assert_eq!(snapshot.successful_requests, 1);
}

#[test]
fn test_metrics_reset() {
    let mut metrics = ApiMetrics::new();
    let start = metrics.record_request_start();
    metrics.record_success(start);
    metrics.record_retry();

    assert_eq!(metrics.total_requests(), 1);
    assert_eq!(metrics.total_retries(), 1);

    metrics.reset();
    assert_eq!(metrics.total_requests(), 0);
    assert_eq!(metrics.total_retries(), 0);
}

#[test]
fn test_retry_config_calculate_delay() {
    let config = RetryConfig {
        max_attempts: 3,
        initial_delay_ms: 100,
        max_delay_ms: 1000,
        backoff_multiplier: 2,
        use_jitter: false,
    };

    assert_eq!(config.calculate_delay(1), 100);
    assert_eq!(config.calculate_delay(2), 200);
    assert_eq!(config.calculate_delay(3), 400);
}

#[test]
fn test_retry_config_respects_max_delay() {
    let config = RetryConfig {
        max_attempts: 5,
        initial_delay_ms: 1000,
        max_delay_ms: 2000,
        backoff_multiplier: 2,
        use_jitter: false,
    };

    assert!(config.calculate_delay(4) <= 2000);
}

#[test]
fn test_retry_jitter_stays_within_bounds() {
    let config = RetryConfig {
        max_attempts: 3,
        initial_delay_ms: 100,
        max_delay_ms: 1000,
        backoff_multiplier: 2,
        use_jitter: true,
    };
    for _ in 0..50 {
        let d = config.calculate_delay(2);
        assert!(d >= 100 && d <= 300, "jittered delay {} out of [100, 300]", d);
    }
}

#[test]
fn test_should_retry_decision() {
    assert!(should_retry(1, 3, true));
    assert!(should_retry(2, 3, true));
    assert!(!should_retry(3, 3, true));
    assert!(!should_retry(1, 3, false));
}

#[test]
fn test_cache_site_and_retrieve() {
    let mut cache = DegradationCache::new(60000);
    let site = create_test_site(1);

    cache.cache_site(1, site, 0);
    let retrieved = cache.get_site(1, 10);

    assert!(retrieved.is_some());
    assert_eq!(retrieved.unwrap().id, Some(1));
}

#[test]
fn test_cache_expires() {
    let mut cache = DegradationCache::new(10);
    let site = create_test_site(1);

    cache.cache_site(1, site, 0);

    let retrieved = cache.get_site(1, 20);
    assert!(retrieved.is_none());
}

#[test]
fn test_cache_device_and_retrieve() {
    let mut cache = DegradationCache::new(60000);
    let device = create_test_device(1);

    cache.cache_device(1, device, 0);
    let retrieved = cache.get_device(1, 10);

    assert!(retrieved.is_some());
    assert_eq!(retrieved.unwrap().id, Some(1));
}

#[test]
fn test_cache_site_list() {
    let mut cache = DegradationCache::new(60000);
    let sites = vec![create_test_site(1), create_test_site(2)];

    cache.cache_site_list("key1".to_string(), sites, 0);
    let retrieved = cache.get_site_list("key1", 10);

    assert!(retrieved.is_some());
    assert_eq!(retrieved.unwrap().len(), 2);
}

#[test]
fn test_degrade_site_retrieval_use_cache() {
    let mut cache = DegradationCache::new(60000);
    let site = create_test_site(1);
    cache.cache_site(1, site, 0);

    let result = degrade_site_retrieval(&mut cache, 1, DegradationStrategy::UseCache, 10).unwrap();
    assert!(result.is_some());
}

#[test]
fn test_degrade_site_retrieval_return_empty() {
    let mut cache = DegradationCache::new(60000);
    let result =
        degrade_site_retrieval(&mut cache, 1, DegradationStrategy::ReturnEmpty, 0).unwrap();
    assert!(result.is_none());
}

#[test]
fn test_degrade_site_retrieval_return_error() {
    let mut cache = DegradationCache::new(60000);
    let result = degrade_site_retrieval(&mut cache, 1, DegradationStrategy::ReturnError, 0);
    assert!(result.is_err());
}

#[test]
fn test_degrade_site_list_retrieval_use_cache() {
    let mut cache = DegradationCache::new(60000);
    let sites = vec![create_test_site(1), create_test_site(2)];
    cache.cache_site_list("key1".to_string(), sites, 0);

    let result =
        degrade_site_list_retrieval(&mut cache, "key1", DegradationStrategy::UseCache, 10).unwrap();
    assert_eq!(result.len(), 2);
}

#[test]
fn test_clear_expired() {
    let mut cache = DegradationCache::new(10);
    cache.cache_site(1, create_test_site(1), 0);
    cache.clear_expired(20);

    assert!(cache.get_site(1, 20).is_none());
}

#[test]
fn test_clear_all() {
    let mut cache = DegradationCache::new(60000);
    cache.cache_site(1, create_test_site(1), 0);
    cache.cache_device(1, create_test_device(1), 0);

    cache.clear_all();

    assert!(cache.get_site(1, 0).is_none());
    assert!(cache.get_device(1, 0).is_none());
}

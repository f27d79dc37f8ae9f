use netgate::cache::{Cache, CacheKey};
use netgate::cached_client::CachedClientCore;
use netgate::cache_metrics::CacheMetrics;
use netgate::cache_strategy::{get_invalidation_keys, CacheConfig, InvalidationStrategy};

#[test]
fn test_invalidation_strategy_never() {
    let key = CacheKey::Site(1);
    let keys = get_invalidation_keys(&key, InvalidationStrategy::Never);
    assert!(keys.is_empty());
}

#[test]
fn test_invalidation_strategy_write_through() {
    let key = CacheKey::Site(1);
    let keys = get_invalidation_keys(&key, InvalidationStrategy::WriteThrough);
    assert_eq!(keys.len(), 1);
    assert_eq!(keys[0], CacheKey::Site(1));
}

#[test]
fn test_invalidation_strategy_write_back() {
    let key = CacheKey::Site(1);
    let keys = get_invalidation_keys(&key, InvalidationStrategy::WriteBack);
    assert_eq!(keys.len(), 2);
    assert!(keys.contains(&CacheKey::Site(1)));
    assert!(keys.contains(&CacheKey::SiteList("*".to_string())));
}

#[test]
fn test_invalidation_strategy_type_based() {
    let key = CacheKey::Device(7);
    let keys = get_invalidation_keys(&key, InvalidationStrategy::TypeBased);
    assert_eq!(keys.len(), 1);
    assert_eq!(keys[0], CacheKey::DeviceList("*".to_string()));
}

#[test]
fn test_cache_config_default() {
    let config = CacheConfig::default();
    assert_eq!(config.default_ttl, 300000);
    assert_eq!(config.max_size, Some(1000));
    assert_eq!(config.invalidation_strategy, InvalidationStrategy::WriteThrough);
}

#[test]
fn test_cache_config_builder() {
    let config = CacheConfig::new(60000)
        .with_max_size(500)
        .with_invalidation_strategy(InvalidationStrategy::WriteBack)
        .with_metrics(false);

    assert_eq!(config.default_ttl, 60000);
    assert_eq!(config.max_size, Some(500));
    assert_eq!(config.invalidation_strategy, InvalidationStrategy::WriteBack);
    assert!(!config.enable_metrics);
}

#[test]
fn test_cache_put_and_get() {
    let mut cache: Cache<u32> = Cache::new(60000);
    cache.put(CacheKey::Site(1), 11, 0);

    let value = cache.get(&CacheKey::Site(1), 10);
    assert_eq!(value, Some(11));
}

#[test]
fn test_cache_expiration() {
    let mut cache: Cache<u32> = Cache::new(10);
    cache.put(CacheKey::Site(1), 11, 0);

    // Value should be available before the time-to-live elapses
    assert!(cache.get(&CacheKey::Site(1), 5).is_some());

    // Value should be expired afterwards, and removed on first touch
    assert!(cache.get(&CacheKey::Site(1), 20).is_none());
    assert_eq!(cache.size(), 0);
}

#[test]
fn test_cache_invalidation() {
    let mut cache: Cache<u32> = Cache::new(60000);
    cache.put(CacheKey::Site(1), 11, 0);
    cache.invalidate(&CacheKey::Site(1));

    assert!(cache.get(&CacheKey::Site(1), 0).is_none());
}

#[test]
fn test_cache_max_size() {
    let mut cache: Cache<u32> = Cache::with_max_size(60000, 2);
    cache.put(CacheKey::Site(1), 11, 0);
    cache.put(CacheKey::Site(2), 22, 1);

    // Cache is now full (2 entries)
    assert_eq!(cache.size(), 2);

    // Adding a third entry evicts the oldest (first in, first out)
    cache.put(CacheKey::Site(3), 33, 2);

    assert_eq!(cache.size(), 2);
    assert!(cache.get(&CacheKey::Site(1), 3).is_none());
    assert!(cache.get(&CacheKey::Site(2), 3).is_some());
    assert!(cache.get(&CacheKey::Site(3), 3).is_some());
}

#[test]
fn test_cache_stats() {
    let mut cache: Cache<u32> = Cache::new(60000);
    cache.put(CacheKey::Site(1), 11, 0);
    cache.put(CacheKey::Site(2), 22, 0);

    let stats = cache.stats(10);
    assert_eq!(stats.total_entries, 2);
    assert_eq!(stats.valid_entries, 2);
    assert_eq!(stats.expired_entries, 0);
}

#[test]
fn test_cache_evict_expired() {
    let mut cache: Cache<u32> = Cache::new(10);
    cache.put(CacheKey::Site(1), 11, 0);
    cache.put(CacheKey::Site(2), 22, 0);

    let evicted = cache.evict_expired(20);
    assert_eq!(evicted, 2);
    assert_eq!(cache.size(), 0);
}

#[test]
fn test_cache_replaces_existing_key_without_eviction() {
    let mut cache: Cache<u32> = Cache::with_max_size(60000, 2);
    cache.put(CacheKey::Site(1), 11, 0);
    cache.put(CacheKey::Site(2), 22, 0);
    cache.put(CacheKey::Site(1), 99, 1);
    assert_eq!(cache.size(), 2);
    assert_eq!(cache.get(&CacheKey::Site(1), 2), Some(99));
    assert_eq!(cache.get(&CacheKey::Site(2), 2), Some(22));
}

#[test]
fn test_cache_metrics() {
    let mut metrics = CacheMetrics::new();

    metrics.record_hit();
    metrics.record_hit();
    metrics.record_miss();
    metrics.record_put();
    metrics.record_eviction();
    metrics.record_invalidation();

    let snapshot = metrics.snapshot();
    assert_eq!(snapshot.hits, 2);
    assert_eq!(snapshot.misses, 1);
    assert_eq!(snapshot.puts, 1);
    assert_eq!(snapshot.evictions, 1);
    assert_eq!(snapshot.invalidations, 1);
    assert_eq!(snapshot.total_requests, 3);
}

#[test]
fn test_cache_metrics_reset() {
    let mut metrics = CacheMetrics::new();
    metrics.record_hit();
    metrics.record_miss();

    let snapshot = metrics.snapshot();
    assert_eq!(snapshot.total_requests, 2);

    metrics.reset();
    let snapshot = metrics.snapshot();
    assert_eq!(snapshot.total_requests, 0);
}

#[test]
fn test_cached_client_creation() {
    let cached = CachedClientCore::new();
    let m = cached.cache_metrics();
    assert_eq!(m.hits, 0);
    assert_eq!(m.misses, 0);
    assert_eq!(m.puts, 0);
    assert_eq!(m.total_requests, 0);
}

#[test]
fn test_cached_client_with_config() {
    let config = CacheConfig::new(60000)
        .with_max_size(100)
        .with_invalidation_strategy(InvalidationStrategy::WriteBack);
    let cached = CachedClientCore::with_config(config);
    assert_eq!(cached.config.default_ttl, 60000);
    assert_eq!(cached.config.max_size, Some(100));
    assert_eq!(cached.config.invalidation_strategy, InvalidationStrategy::WriteBack);
}

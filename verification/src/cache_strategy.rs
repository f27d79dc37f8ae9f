//! Cache configuration and the invalidation strategies: which keys a
//! successful write invalidates.
use vstd::prelude::*;
use crate::cache::{CacheKey, KeyContent};

verus! {

/// How a successful write invalidates cache entries.
#[derive(Debug, Clone, Copy, PartialEq, Eq, Hash, Structural)]
pub enum InvalidationStrategy {
    /// Nothing is invalidated; entries only expire.
    Never,
    /// The single written key is invalidated.
    WriteThrough,
    /// The written key and every list key of its resource type.
    WriteBack,
    /// Every list key of the written key's resource type.
    TypeBased,
}

/// Configuration of the fresh cache, times in milliseconds.
#[derive(Debug, Clone, Copy)]
pub struct CacheConfig {
    pub default_ttl: u64,
    pub max_size: Option<usize>,
    pub invalidation_strategy: InvalidationStrategy,
    pub enable_metrics: bool,
}

impl Default for CacheConfig {
    /// Five minutes of time-to-live, at most a thousand entries,
    /// write-through invalidation, metrics on.
    fn default() -> (r: Self)
        ensures
            r.default_ttl == 300000,
            r.max_size == Some(1000usize),
            r.invalidation_strategy == InvalidationStrategy::WriteThrough,
            r.enable_metrics == true,
    {
        CacheConfig {
            default_ttl: 300000,
            max_size: Some(1000),
            invalidation_strategy: InvalidationStrategy::WriteThrough,
            enable_metrics: true,
        }
    }
}

impl CacheConfig {
    /// The default configuration with the given time-to-live.
    pub fn new(default_ttl: u64) -> (r: Self)
        ensures
            r.default_ttl == default_ttl,
            r.max_size == Some(1000usize),
            r.invalidation_strategy == InvalidationStrategy::WriteThrough,
            r.enable_metrics == true,
    {
        CacheConfig { default_ttl, ..CacheConfig::default() }
    }

    /// The same configuration with the given size bound.
    pub fn with_max_size(self, max_size: usize) -> (r: Self)
        ensures
            r == (CacheConfig { max_size: Some(max_size), ..self }),
    {
        CacheConfig { max_size: Some(max_size), ..self }
    }

    /// The same configuration with the given invalidation strategy.
    pub fn with_invalidation_strategy(self, strategy: InvalidationStrategy) -> (r: Self)
        ensures
            r == (CacheConfig { invalidation_strategy: strategy, ..self }),
    {
        CacheConfig { invalidation_strategy: strategy, ..self }
    }

    /// The same configuration with metrics switched on or off.
    pub fn with_metrics(self, enable: bool) -> (r: Self)
        ensures
            r == (CacheConfig { enable_metrics: enable, ..self }),
    {
        CacheConfig { enable_metrics: enable, ..self }
    }
}

/// The keys a write to `key` invalidates under each strategy. The list
/// keys use the query `*`, standing for every list of that type.
pub open spec fn spec_invalidation_keys(key: KeyContent, strategy: InvalidationStrategy) -> Seq<
    KeyContent,
> {
    match strategy {
        InvalidationStrategy::Never => Seq::empty(),
        InvalidationStrategy::WriteThrough => seq![key],
        InvalidationStrategy::WriteBack => match key {
            KeyContent::Site(id) => seq![KeyContent::Site(id), KeyContent::SiteList("*"@)],
            KeyContent::Device(id) => seq![KeyContent::Device(id), KeyContent::DeviceList("*"@)],
            _ => seq![key],
        },
        InvalidationStrategy::TypeBased => match key {
            KeyContent::Site(_) => seq![KeyContent::SiteList("*"@)],
            KeyContent::Device(_) => seq![KeyContent::DeviceList("*"@)],
            _ => seq![key],
        },
    }
}

/// The cache keys a write to `key` invalidates under the strategy.
pub fn get_invalidation_keys(key: &CacheKey, strategy: InvalidationStrategy) -> (r: Vec<CacheKey>)
    ensures
        r@.map_values(|k: CacheKey| k@) == spec_invalidation_keys(key@, strategy),
{
    let mut out: Vec<CacheKey> = Vec::new();
    match strategy {
        InvalidationStrategy::Never => {},
        InvalidationStrategy::WriteThrough => {
            out.push(key.clone());
        },
        InvalidationStrategy::WriteBack => {
            match key {
                CacheKey::Site(id) => {
                    out.push(CacheKey::Site(*id));
                    out.push(CacheKey::SiteList(String::from_str("*")));
                },
                CacheKey::Device(id) => {
                    out.push(CacheKey::Device(*id));
                    out.push(CacheKey::DeviceList(String::from_str("*")));
                },
                _ => {
                    out.push(key.clone());
                },
            }
        },
        InvalidationStrategy::TypeBased => {
            match key {
                CacheKey::Site(_) => {
                    out.push(CacheKey::SiteList(String::from_str("*")));
                },
                CacheKey::Device(_) => {
                    out.push(CacheKey::DeviceList(String::from_str("*")));
                },
                _ => {
                    out.push(key.clone());
                },
            }
        },
    }
    proof {
        assert(out@.map_values(|k: CacheKey| k@) =~= spec_invalidation_keys(key@, strategy));
    }
    out
}

} // verus!

//! The cached read façade: a fresh cache with counters in front of the
//! resilient client, with strategy-driven invalidation on writes. The
//! transport itself runs outside this crate: a caller looks up first,
//! stores what a miss fetched, and reports writes for invalidation.
use vstd::prelude::*;
use crate::cache::{Cache, CacheKey, CacheStats, EntryContent, KeyContent};
use crate::cache_metrics::{CacheMetrics, CacheMetricsSnapshot};
use crate::cache_strategy::{CacheConfig, InvalidationStrategy};
use crate::degradation::SiteListEntry;
use crate::models::NetBoxSite;

verus! {

/// Counts over both caches and the cache counters.
#[derive(Debug, Clone, Copy, PartialEq, Eq, Structural)]
pub struct CacheClientStats {
    pub site_cache: CacheStats,
    pub site_list_cache: CacheStats,
    pub metrics: CacheMetricsSnapshot,
}

/// The fresh-cache state in front of the resilient client.
pub struct CachedClientCore {
    pub site_cache: Cache<NetBoxSite>,
    pub site_list_cache: Cache<SiteListEntry>,
    pub metrics: CacheMetrics,
    pub config: CacheConfig,
}

impl CachedClientCore {
    pub open spec fn wf(self) -> bool {
        &&& self.site_cache.wf()
        &&& self.site_list_cache.wf()
        &&& self.site_cache.spec_max_size() == self.config.max_size
        &&& self.site_list_cache.spec_max_size() == self.config.max_size
        &&& self.site_cache.spec_default_ttl() == self.config.default_ttl
        &&& self.site_list_cache.spec_default_ttl() == self.config.default_ttl
    }

    /// A cached client under the given configuration.
    pub fn with_config(config: CacheConfig) -> (r: Self)
        ensures
            r.wf(),
            r.site_cache.entries().len() == 0,
            r.site_list_cache.entries().len() == 0,
            r.config == config,
            r.metrics == (CacheMetrics { hits: 0, misses: 0, evictions: 0, invalidations: 0, puts: 0 }),
    {
        let site_cache = match config.max_size {
            Some(m) => Cache::with_max_size(config.default_ttl, m),
            None => Cache::new(config.default_ttl),
        };
        let site_list_cache = match config.max_size {
            Some(m) => Cache::with_max_size(config.default_ttl, m),
            None => Cache::new(config.default_ttl),
        };
        CachedClientCore { site_cache, site_list_cache, metrics: CacheMetrics::new(), config }
    }

    /// A cached client under the default configuration.
    pub fn new() -> (r: Self)
        ensures
            r.wf(),
            r.site_cache.entries().len() == 0,
            r.site_list_cache.entries().len() == 0,
    {
        Self::with_config(CacheConfig::default())
    }

    /// Look a site up in the fresh cache, counting the hit or miss.
    pub fn lookup_site(&mut self, id: i32, now: u64) -> (r: Option<NetBoxSite>)
        requires
            old(self).wf(),
        ensures
            final(self).wf(),
            r is Some <==> old(self).site_cache.has_key(KeyContent::Site(id)) && now <= old(self).site_cache.entry_of(KeyContent::Site(id)).expires_at,
            r matches Some(v) ==> v@ == old(self).site_cache.entry_of(
                KeyContent::Site(id),
            ).value@,
            r is Some || !old(self).site_cache.has_key(KeyContent::Site(id)) ==> final(self).site_cache.entries() == old(self).site_cache.entries(),
            r is None && old(self).site_cache.has_key(KeyContent::Site(id)) ==> final(self).site_cache.entries() == old(self).site_cache.entries().remove(
                old(self).site_cache.idx_of(KeyContent::Site(id)),
            ),
            old(self).config.enable_metrics ==> (r is Some ==> final(self).metrics.hits
                == crate::metrics::bump64(old(self).metrics.hits)) && (r is None ==> final(self).metrics.misses == crate::metrics::bump64(old(self).metrics.misses)),
            final(self).site_list_cache == old(self).site_list_cache,
            final(self).config == old(self).config,
    {
        let key = CacheKey::site(id);
        let r = self.site_cache.get(&key, now);
        proof {
            if r is Some {
                crate::degradation::lemma_cloned_site(
                    old(self).site_cache.entry_of(KeyContent::Site(id)).value,
                    r->0,
                );
            }
        }
        if self.config.enable_metrics {
            match &r {
                Some(_) => self.metrics.record_hit(),
                None => self.metrics.record_miss(),
            }
        }
        r
    }

    /// Store a fetched site in the fresh cache, counting the put.
    pub fn store_site(&mut self, id: i32, site: NetBoxSite, now: u64)
        requires
            old(self).wf(),
        ensures
            final(self).wf(),
            final(self).site_cache.has_key(KeyContent::Site(id)),
            final(self).site_cache.entry_of(KeyContent::Site(id)).value == site,
            final(self).site_cache.entry_of(KeyContent::Site(id)).expires_at
                == crate::cache::sat_add_u64(now, old(self).config.default_ttl),
            old(self).site_cache.has_key(KeyContent::Site(id)) ==> final(self).site_cache.entries()
                == old(self).site_cache.entries().update(
                old(self).site_cache.idx_of(KeyContent::Site(id)),
                final(self).site_cache.entry_of(KeyContent::Site(id)),
            ),
            !old(self).site_cache.has_key(KeyContent::Site(id)) ==> final(self).site_cache.entries()
                == crate::cache::evict_for_new_key(
                old(self).site_cache.entries(),
                old(self).config.max_size,
            ).push(final(self).site_cache.entry_of(KeyContent::Site(id))),
            forall|kc: KeyContent|
                kc != KeyContent::Site(id) && #[trigger] final(self).site_cache.has_key(kc) ==> old(self).site_cache.has_key(kc) && final(self).site_cache.entry_of(kc) == old(self).site_cache.entry_of(kc),
            (match old(self).config.max_size {
                Some(m) => old(self).site_cache.entries().len() <= m && m >= 1 ==> final(self).site_cache.entries().len() <= m,
                None => true,
            }),
            old(self).config.enable_metrics ==> final(self).metrics.puts == crate::metrics::bump64(
                old(self).metrics.puts,
            ),
            final(self).site_list_cache == old(self).site_list_cache,
            final(self).config == old(self).config,
    {
        let key = CacheKey::site(id);
        self.site_cache.put(key, site, now);
        if self.config.enable_metrics {
            self.metrics.record_put();
        }
    }

    /// Look a site-list query up in the fresh cache, counting the hit
    /// or miss.
    pub fn lookup_site_list(&mut self, query: &str, now: u64) -> (r: Option<Vec<NetBoxSite>>)
        requires
            old(self).wf(),
        ensures
            final(self).wf(),
            r is Some <==> old(self).site_list_cache.has_key(KeyContent::SiteList(query@)) && now
                <= old(self).site_list_cache.entry_of(KeyContent::SiteList(query@)).expires_at,
            r matches Some(v) ==> v@.map_values(|s: NetBoxSite| s@) == old(self).site_list_cache.entry_of(KeyContent::SiteList(query@)).value@,
            final(self).site_cache == old(self).site_cache,
            final(self).config == old(self).config,
    {
        let key = CacheKey::site_list(String::from_str(query));
        let r = self.site_list_cache.get(&key, now);
        let out = match r {
            Some(entry) => {
                proof {
                    crate::degradation::lemma_cloned_site_list(
                        old(self).site_list_cache.entry_of(KeyContent::SiteList(query@)).value,
                        entry,
                    );
                }
                Some(entry.sites)
            },
            None => None,
        };
        if self.config.enable_metrics {
            match &out {
                Some(_) => self.metrics.record_hit(),
                None => self.metrics.record_miss(),
            }
        }
        out
    }

    /// Store a fetched site list in the fresh cache, counting the put.
    pub fn store_site_list(&mut self, query: String, sites: Vec<NetBoxSite>, now: u64)
        requires
            old(self).wf(),
        ensures
            final(self).wf(),
            final(self).site_list_cache.has_key(KeyContent::SiteList(query@)),
            final(self).site_list_cache.entry_of(KeyContent::SiteList(query@)).value@
                == sites@.map_values(|s: NetBoxSite| s@),
            final(self).site_list_cache.entry_of(KeyContent::SiteList(query@)).expires_at
                == crate::cache::sat_add_u64(now, old(self).config.default_ttl),
            forall|kc: KeyContent|
                kc != KeyContent::SiteList(query@) && #[trigger] final(self).site_list_cache.has_key(
                    kc,
                ) ==> old(self).site_list_cache.has_key(kc) && final(self).site_list_cache.entry_of(
                    kc,
                ) == old(self).site_list_cache.entry_of(kc),
            final(self).site_cache == old(self).site_cache,
            final(self).config == old(self).config,
    {
        let key = CacheKey::site_list(query);
        self.site_list_cache.put(key, SiteListEntry { sites }, now);
        if self.config.enable_metrics {
            self.metrics.record_put();
        }
    }

    /// Invalidate after a successful site write, per the configured
    /// strategy: Never touches nothing; WriteThrough removes the site's
    /// entry; WriteBack removes the entry and every site-list entry;
    /// TypeBased removes every site-list entry.
    pub fn on_site_created(&mut self, site_id: i32)
        requires
            old(self).wf(),
        ensures
            final(self).wf(),
            final(self).config == old(self).config,
            old(self).config.invalidation_strategy == InvalidationStrategy::Never ==> final(self).site_cache == old(self).site_cache && final(self).site_list_cache == old(self).site_list_cache,
            old(self).config.invalidation_strategy == InvalidationStrategy::WriteThrough || old(self).config.invalidation_strategy == InvalidationStrategy::WriteBack ==> !final(self).site_cache.has_key(KeyContent::Site(site_id)),
            (old(self).config.invalidation_strategy == InvalidationStrategy::WriteThrough || old(self).config.invalidation_strategy == InvalidationStrategy::WriteBack) && old(self).site_cache.has_key(KeyContent::Site(site_id)) ==> final(self).site_cache.entries() == old(self).site_cache.entries().remove(old(self).site_cache.idx_of(KeyContent::Site(site_id))),
            (old(self).config.invalidation_strategy == InvalidationStrategy::WriteThrough || old(self).config.invalidation_strategy == InvalidationStrategy::WriteBack) && !old(self).site_cache.has_key(KeyContent::Site(site_id)) ==> final(self).site_cache.entries() == old(self).site_cache.entries(),
            final(self).metrics == (if old(self).config.invalidation_strategy == InvalidationStrategy::Never || !old(self).config.enable_metrics {
                old(self).metrics
            } else {
                crate::cache_metrics::CacheMetrics {
                    invalidations: crate::metrics::bump64(old(self).metrics.invalidations),
                    ..old(self).metrics
                }
            }),
            old(self).config.invalidation_strategy == InvalidationStrategy::WriteThrough ==> final(self).site_list_cache == old(self).site_list_cache,
            old(self).config.invalidation_strategy == InvalidationStrategy::WriteBack || old(self).config.invalidation_strategy == InvalidationStrategy::TypeBased ==> final(self).site_list_cache.entries() == old(self).site_list_cache.entries().filter(
                |e: EntryContent<SiteListEntry>| !(e.key is SiteList),
            ),
            old(self).config.invalidation_strategy == InvalidationStrategy::TypeBased ==> final(self).site_cache == old(self).site_cache,
    {
        match self.config.invalidation_strategy {
            InvalidationStrategy::Never => {},
            InvalidationStrategy::WriteThrough => {
                let key = CacheKey::site(site_id);
                self.site_cache.invalidate(&key);
                if self.config.enable_metrics {
                    self.metrics.record_invalidation();
                }
            },
            InvalidationStrategy::WriteBack => {
                let key = CacheKey::site(site_id);
                self.site_cache.invalidate(&key);
                self.site_list_cache.invalidate_site_lists();
                if self.config.enable_metrics {
                    self.metrics.record_invalidation();
                }
            },
            InvalidationStrategy::TypeBased => {
                self.site_list_cache.invalidate_site_lists();
                if self.config.enable_metrics {
                    self.metrics.record_invalidation();
                }
            },
        }
    }

    /// A consistent copy of the cache counters.
    pub fn cache_metrics(&self) -> (r: CacheMetricsSnapshot)
        ensures
            r.hits == self.metrics.hits,
            r.misses == self.metrics.misses,
            r.puts == self.metrics.puts,
            r.evictions == self.metrics.evictions,
            r.invalidations == self.metrics.invalidations,
    {
        self.metrics.snapshot()
    }

    /// Counts over both caches at time `now`.
    pub fn cache_stats(&self, now: u64) -> (r: CacheClientStats)
        ensures
            r.site_cache.total_entries == self.site_cache.entries().len(),
            r.site_list_cache.total_entries == self.site_list_cache.entries().len(),
            r.metrics.hits == self.metrics.hits,
    {
        CacheClientStats {
            site_cache: self.site_cache.stats(now),
            site_list_cache: self.site_list_cache.stats(now),
            metrics: self.metrics.snapshot(),
        }
    }

    /// Drop every entry of both caches.
    pub fn clear_all_caches(&mut self)
        requires
            old(self).wf(),
        ensures
            final(self).wf(),
            final(self).site_cache.entries().len() == 0,
            final(self).site_list_cache.entries().len() == 0,
            final(self).config == old(self).config,
    {
        self.site_cache.clear();
        self.site_list_cache.clear();
    }

    /// Drop every expired entry of both caches and report how many
    /// were dropped.
    pub fn evict_expired(&mut self, now: u64) -> (r: usize)
        requires
            old(self).wf(),
        ensures
            final(self).wf(),
            final(self).site_cache.entries() == old(self).site_cache.entries().filter(
                |e: EntryContent<NetBoxSite>| now <= e.expires_at,
            ),
            final(self).site_list_cache.entries() == old(self).site_list_cache.entries().filter(
                |e: EntryContent<SiteListEntry>| now <= e.expires_at,
            ),
            final(self).config == old(self).config,
    {
        let a = self.site_cache.evict_expired(now);
        let b = self.site_list_cache.evict_expired(now);
        if a <= usize::MAX - b {
            a + b
        } else {
            usize::MAX
        }
    }
}

} // verus!

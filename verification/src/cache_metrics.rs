//! Counters over the fresh cache: hits, misses, puts, evictions and
//! invalidations.
use vstd::prelude::*;
use crate::metrics::bump64;

verus! {

/// Counters the fresh cache maintains.
#[derive(Debug, Clone, Copy, PartialEq, Eq, Structural)]
pub struct CacheMetrics {
    pub hits: u64,
    pub misses: u64,
    pub evictions: u64,
    pub invalidations: u64,
    pub puts: u64,
}

/// A point-in-time copy of the cache counters. The total is the number
/// of lookups: hits plus misses.
#[derive(Debug, Clone, Copy, PartialEq, Eq, Structural)]
pub struct CacheMetricsSnapshot {
    pub hits: u64,
    pub misses: u64,
    pub evictions: u64,
    pub invalidations: u64,
    pub puts: u64,
    pub total_requests: u64,
}

impl CacheMetrics {
    /// Fresh counters, all zero.
    pub fn new() -> (r: Self)
        ensures
            r == (CacheMetrics { hits: 0, misses: 0, evictions: 0, invalidations: 0, puts: 0 }),
    {
        CacheMetrics { hits: 0, misses: 0, evictions: 0, invalidations: 0, puts: 0 }
    }

    /// Count one hit.
    pub fn record_hit(&mut self)
        ensures
            *final(self) == (CacheMetrics { hits: bump64(old(self).hits), ..*old(self) }),
    {
        self.hits = if self.hits < 0xffff_ffff_ffff_ffffu64 {
            self.hits + 1
        } else {
            self.hits
        };
    }

    /// Count one miss.
    pub fn record_miss(&mut self)
        ensures
            *final(self) == (CacheMetrics { misses: bump64(old(self).misses), ..*old(self) }),
    {
        self.misses = if self.misses < 0xffff_ffff_ffff_ffffu64 {
            self.misses + 1
        } else {
            self.misses
        };
    }

    /// Count one eviction.
    pub fn record_eviction(&mut self)
        ensures
            *final(self) == (CacheMetrics { evictions: bump64(old(self).evictions), ..*old(self) }),
    {
        self.evictions = if self.evictions < 0xffff_ffff_ffff_ffffu64 {
            self.evictions + 1
        } else {
            self.evictions
        };
    }

    /// Count one invalidation.
    pub fn record_invalidation(&mut self)
        ensures
            *final(self) == (CacheMetrics {
                invalidations: bump64(old(self).invalidations),
                ..*old(self)
            }),
    {
        self.invalidations = if self.invalidations < 0xffff_ffff_ffff_ffffu64 {
            self.invalidations + 1
        } else {
            self.invalidations
        };
    }

    /// Count one put.
    pub fn record_put(&mut self)
        ensures
            *final(self) == (CacheMetrics { puts: bump64(old(self).puts), ..*old(self) }),
    {
        self.puts = if self.puts < 0xffff_ffff_ffff_ffffu64 {
            self.puts + 1
        } else {
            self.puts
        };
    }

    /// A consistent by-value copy of the counters, with the lookup total.
    pub fn snapshot(&self) -> (r: CacheMetricsSnapshot)
        ensures
            r == (CacheMetricsSnapshot {
                hits: self.hits,
                misses: self.misses,
                evictions: self.evictions,
                invalidations: self.invalidations,
                puts: self.puts,
                total_requests: crate::metrics::sat_add64(self.hits, self.misses),
            }),
    {
        let total = if self.hits <= 0xffff_ffff_ffff_ffffu64 - self.misses {
            self.hits + self.misses
        } else {
            0xffff_ffff_ffff_ffffu64
        };
        CacheMetricsSnapshot {
            hits: self.hits,
            misses: self.misses,
            evictions: self.evictions,
            invalidations: self.invalidations,
            puts: self.puts,
            total_requests: total,
        }
    }

    /// Zero every counter.
    pub fn reset(&mut self)
        ensures
            *final(self) == (CacheMetrics { hits: 0, misses: 0, evictions: 0, invalidations: 0, puts: 0 }),
    {
        self.hits = 0;
        self.misses = 0;
        self.evictions = 0;
        self.invalidations = 0;
        self.puts = 0;
    }
}

} // verus!

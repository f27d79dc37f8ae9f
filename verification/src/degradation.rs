//! The degradation cache: stale-but-available copies of resources,
//! served only when the live path is unavailable.
use vstd::prelude::*;
use crate::cache::{Cache, CacheKey, EntryContent, KeyContent};
use crate::errors::AppError;
use crate::models::{NetBoxSite, NetBoxDevice, SiteContent, DeviceContent};

verus! {

/// A cached list of sites.
pub struct SiteListEntry {
    pub sites: Vec<NetBoxSite>,
}

impl View for SiteListEntry {
    type V = Seq<SiteContent>;

    open spec fn view(&self) -> Seq<SiteContent> {
        self.sites@.map_values(|s: NetBoxSite| s@)
    }
}

impl Clone for SiteListEntry {
    fn clone(&self) -> (r: Self)
        ensures
            r@ == self@,
    {
        let mut out: Vec<NetBoxSite> = Vec::new();
        let mut i: usize = 0;
        while i < self.sites.len()
            invariant
                i <= self.sites@.len(),
                out@.len() == i,
                forall|k: int| 0 <= k < i ==> #[trigger] out@[k]@ == self.sites@[k]@,
            decreases self.sites@.len() - i,
        {
            out.push(self.sites[i].clone());
            i += 1;
        }
        let r = SiteListEntry { sites: out };
        proof {
            assert(r@ =~= self@);
        }
        r
    }
}

/// A cached list of devices.
pub struct DeviceListEntry {
    pub devices: Vec<NetBoxDevice>,
}

impl View for DeviceListEntry {
    type V = Seq<DeviceContent>;

    open spec fn view(&self) -> Seq<DeviceContent> {
        self.devices@.map_values(|d: NetBoxDevice| d@)
    }
}

impl Clone for DeviceListEntry {
    fn clone(&self) -> (r: Self)
        ensures
            r@ == self@,
    {
        let mut out: Vec<NetBoxDevice> = Vec::new();
        let mut i: usize = 0;
        while i < self.devices.len()
            invariant
                i <= self.devices@.len(),
                out@.len() == i,
                forall|k: int| 0 <= k < i ==> #[trigger] out@[k]@ == self.devices@[k]@,
            decreases self.devices@.len() - i,
        {
            out.push(self.devices[i].clone());
            i += 1;
        }
        let r = DeviceListEntry { devices: out };
        proof {
            assert(r@ =~= self@);
        }
        r
    }
}

/// The degradation cache: one map per resource kind, each entry stamped
/// when it was cached and treated as absent once older than the
/// time-to-live.
pub struct DegradationCache {
    pub sites: Cache<NetBoxSite>,
    pub devices: Cache<NetBoxDevice>,
    pub site_lists: Cache<SiteListEntry>,
    pub device_lists: Cache<DeviceListEntry>,
}

impl DegradationCache {
    /// Every map keeps its keys unique, and none carries a size bound:
    /// degradation entries leave only by expiry or an explicit clear.
    pub open spec fn wf(self) -> bool {
        &&& self.sites.wf()
        &&& self.devices.wf()
        &&& self.site_lists.wf()
        &&& self.device_lists.wf()
        &&& self.sites.spec_max_size() is None
        &&& self.devices.spec_max_size() is None
        &&& self.site_lists.spec_max_size() is None
        &&& self.device_lists.spec_max_size() is None
    }

    /// A degradation cache whose entries live for `ttl` milliseconds.
    pub fn new(ttl: u64) -> (r: Self)
        ensures
            r.wf(),
            r.sites.entries() == Seq::<EntryContent<NetBoxSite>>::empty(),
            r.devices.entries() == Seq::<EntryContent<NetBoxDevice>>::empty(),
            r.site_lists.entries() == Seq::<EntryContent<SiteListEntry>>::empty(),
            r.device_lists.entries() == Seq::<EntryContent<DeviceListEntry>>::empty(),
            r.sites.spec_default_ttl() == ttl,
            r.devices.spec_default_ttl() == ttl,
            r.site_lists.spec_default_ttl() == ttl,
            r.device_lists.spec_default_ttl() == ttl,
    {
        DegradationCache {
            sites: Cache::new(ttl),
            devices: Cache::new(ttl),
            site_lists: Cache::new(ttl),
            device_lists: Cache::new(ttl),
        }
    }

    /// A degradation cache with the default five-minute time-to-live.
    pub fn default() -> (r: Self)
        ensures
            r.wf(),
            r.sites.entries() == Seq::<EntryContent<NetBoxSite>>::empty(),
            r.devices.entries() == Seq::<EntryContent<NetBoxDevice>>::empty(),
            r.site_lists.entries() == Seq::<EntryContent<SiteListEntry>>::empty(),
            r.device_lists.entries() == Seq::<EntryContent<DeviceListEntry>>::empty(),
            r.sites.spec_default_ttl() == 300000,
    {
        Self::new(300000)
    }

    /// The cached copy of a site, when one is present and still fresh;
    /// an expired copy is dropped.
    pub fn get_site(&mut self, id: i32, now: u64) -> (r: Option<NetBoxSite>)
        requires
            old(self).wf(),
        ensures
            final(self).wf(),
            r is Some <==> old(self).sites.has_key(KeyContent::Site(id)) && now <= old(self).sites.entry_of(KeyContent::Site(id)).expires_at,
            r matches Some(v) ==> v@ == old(self).sites.entry_of(KeyContent::Site(id)).value@,
            r is Some || !old(self).sites.has_key(KeyContent::Site(id)) ==> final(self).sites.entries() == old(self).sites.entries(),
            r is None && old(self).sites.has_key(KeyContent::Site(id)) ==> final(self).sites.entries() == old(self).sites.entries().remove(
                old(self).sites.idx_of(KeyContent::Site(id)),
            ),
            final(self).devices == old(self).devices,
            final(self).site_lists == old(self).site_lists,
            final(self).device_lists == old(self).device_lists,
    {
        let key = CacheKey::site(id);
        let r = self.sites.get(&key, now);
        proof {
            if r is Some {
                crate::degradation::lemma_cloned_site(
                    old(self).sites.entry_of(KeyContent::Site(id)).value,
                    r->0,
                );
            }
        }
        r
    }

    /// Record a fresh copy of a site.
    pub fn cache_site(&mut self, id: i32, site: NetBoxSite, now: u64)
        requires
            old(self).wf(),
        ensures
            final(self).wf(),
            final(self).sites.has_key(KeyContent::Site(id)),
            final(self).sites.entry_of(KeyContent::Site(id)).value == site,
            final(self).sites.entry_of(KeyContent::Site(id)).expires_at
                == crate::cache::sat_add_u64(now, old(self).sites.spec_default_ttl()),
            old(self).sites.has_key(KeyContent::Site(id)) ==> final(self).sites.entries() == old(self).sites.entries().update(
                old(self).sites.idx_of(KeyContent::Site(id)),
                final(self).sites.entry_of(KeyContent::Site(id)),
            ),
            !old(self).sites.has_key(KeyContent::Site(id)) ==> final(self).sites.entries() == old(self).sites.entries().push(final(self).sites.entry_of(KeyContent::Site(id))),
            forall|kc2: crate::cache::KeyContent|
                kc2 != KeyContent::Site(id) ==> #[trigger] final(self).sites.has_key(kc2) == old(self).sites.has_key(kc2),
            forall|kc: crate::cache::KeyContent|
                kc != KeyContent::Site(id) ==> #[trigger] final(self).sites.has_key(kc) == old(self).sites.has_key(kc),
            forall|kc: crate::cache::KeyContent|
                kc != KeyContent::Site(id) && old(self).sites.has_key(kc) ==> #[trigger] final(self).sites.entry_of(kc) == old(self).sites.entry_of(kc),
            final(self).devices == old(self).devices,
            final(self).site_lists == old(self).site_lists,
            final(self).device_lists == old(self).device_lists,
    {
        let key = CacheKey::site(id);
        self.sites.put(key, site, now);
        proof {
            assert forall|kc: crate::cache::KeyContent|
                kc != KeyContent::Site(id) && old(self).sites.has_key(kc) implies #[trigger] self.sites.entry_of(
                kc,
            ) == old(self).sites.entry_of(kc) by {
                assert(self.sites.has_key(kc));
            }
        }
    }

    /// The cached copy of a device, when one is present and still fresh.
    pub fn get_device(&mut self, id: i32, now: u64) -> (r: Option<NetBoxDevice>)
        requires
            old(self).wf(),
        ensures
            final(self).wf(),
            r is Some <==> old(self).devices.has_key(KeyContent::Device(id)) && now <= old(self).devices.entry_of(KeyContent::Device(id)).expires_at,
            r matches Some(v) ==> v@ == old(self).devices.entry_of(KeyContent::Device(id)).value@,
            r is Some || !old(self).devices.has_key(KeyContent::Device(id)) ==> final(self).devices.entries() == old(self).devices.entries(),
            r is None && old(self).devices.has_key(KeyContent::Device(id)) ==> final(self).devices.entries() == old(self).devices.entries().remove(
                old(self).devices.idx_of(KeyContent::Device(id)),
            ),
            final(self).sites == old(self).sites,
            final(self).site_lists == old(self).site_lists,
            final(self).device_lists == old(self).device_lists,
    {
        let key = CacheKey::device(id);
        let r = self.devices.get(&key, now);
        proof {
            if r is Some {
                crate::degradation::lemma_cloned_device(
                    old(self).devices.entry_of(KeyContent::Device(id)).value,
                    r->0,
                );
            }
        }
        r
    }

    /// Record a fresh copy of a device.
    pub fn cache_device(&mut self, id: i32, device: NetBoxDevice, now: u64)
        requires
            old(self).wf(),
        ensures
            final(self).wf(),
            final(self).devices.has_key(KeyContent::Device(id)),
            final(self).devices.entry_of(KeyContent::Device(id)).value == device,
            final(self).devices.entry_of(KeyContent::Device(id)).expires_at
                == crate::cache::sat_add_u64(now, old(self).devices.spec_default_ttl()),
            forall|kc: crate::cache::KeyContent|
                kc != KeyContent::Device(id) ==> #[trigger] final(self).devices.has_key(kc) == old(self).devices.has_key(kc),
            forall|kc: crate::cache::KeyContent|
                kc != KeyContent::Device(id) && old(self).devices.has_key(kc) ==> #[trigger] final(self).devices.entry_of(kc) == old(self).devices.entry_of(kc),
            final(self).sites == old(self).sites,
            final(self).site_lists == old(self).site_lists,
            final(self).device_lists == old(self).device_lists,
    {
        let key = CacheKey::device(id);
        self.devices.put(key, device, now);
        proof {
            assert forall|kc: crate::cache::KeyContent|
                kc != KeyContent::Device(id) && old(self).devices.has_key(kc) implies #[trigger] self.devices.entry_of(
                kc,
            ) == old(self).devices.entry_of(kc) by {
                assert(self.devices.has_key(kc));
            }
        }
    }

    /// The cached result of a site-list query, when present and fresh.
    pub fn get_site_list(&mut self, key: &str, now: u64) -> (r: Option<Vec<NetBoxSite>>)
        requires
            old(self).wf(),
        ensures
            final(self).wf(),
            r is Some <==> old(self).site_lists.has_key(KeyContent::SiteList(key@)) && now <= old(self).site_lists.entry_of(KeyContent::SiteList(key@)).expires_at,
            r matches Some(v) ==> v@.map_values(|s: NetBoxSite| s@) == old(self).site_lists.entry_of(KeyContent::SiteList(key@)).value@,
            r is Some || !old(self).site_lists.has_key(KeyContent::SiteList(key@)) ==> final(self).site_lists.entries() == old(self).site_lists.entries(),
            r is None && old(self).site_lists.has_key(KeyContent::SiteList(key@)) ==> final(self).site_lists.entries() == old(self).site_lists.entries().remove(
                old(self).site_lists.idx_of(KeyContent::SiteList(key@)),
            ),
            final(self).sites == old(self).sites,
            final(self).devices == old(self).devices,
            final(self).device_lists == old(self).device_lists,
    {
        let k = CacheKey::site_list(String::from_str(key));
        let r = self.site_lists.get(&k, now);
        match r {
            Some(entry) => {
                proof {
                    crate::degradation::lemma_cloned_site_list(
                        old(self).site_lists.entry_of(KeyContent::SiteList(key@)).value,
                        entry,
                    );
                }
                Some(entry.sites)
            },
            None => None,
        }
    }

    /// Record the result of a site-list query.
    pub fn cache_site_list(&mut self, key: String, sites: Vec<NetBoxSite>, now: u64)
        requires
            old(self).wf(),
        ensures
            final(self).wf(),
            final(self).site_lists.has_key(KeyContent::SiteList(key@)),
            final(self).site_lists.entry_of(KeyContent::SiteList(key@)).value@ == sites@.map_values(
                |s: NetBoxSite| s@,
            ),
            final(self).site_lists.entry_of(KeyContent::SiteList(key@)).expires_at
                == crate::cache::sat_add_u64(now, old(self).site_lists.spec_default_ttl()),
            forall|kc: crate::cache::KeyContent|
                kc != KeyContent::SiteList(key@) ==> #[trigger] final(self).site_lists.has_key(kc)
                    == old(self).site_lists.has_key(kc),
            forall|kc: crate::cache::KeyContent|
                kc != KeyContent::SiteList(key@) && old(self).site_lists.has_key(kc)
                    ==> #[trigger] final(self).site_lists.entry_of(kc) == old(self).site_lists.entry_of(kc),
            final(self).sites == old(self).sites,
            final(self).devices == old(self).devices,
            final(self).device_lists == old(self).device_lists,
    {
        let ghost kv = key@;
        let k = CacheKey::site_list(key);
        self.site_lists.put(k, SiteListEntry { sites }, now);
        proof {
            assert forall|kc: crate::cache::KeyContent|
                kc != KeyContent::SiteList(kv) && old(self).site_lists.has_key(kc)
                implies #[trigger] self.site_lists.entry_of(kc) == old(self).site_lists.entry_of(
                kc,
            ) by {
                assert(self.site_lists.has_key(kc));
            }
        }
    }

    /// The cached result of a device-list query, when present and fresh.
    pub fn get_device_list(&mut self, key: &str, now: u64) -> (r: Option<Vec<NetBoxDevice>>)
        requires
            old(self).wf(),
        ensures
            final(self).wf(),
            r is Some <==> old(self).device_lists.has_key(KeyContent::DeviceList(key@)) && now
                <= old(self).device_lists.entry_of(KeyContent::DeviceList(key@)).expires_at,
            r matches Some(v) ==> v@.map_values(|d: NetBoxDevice| d@) == old(self).device_lists.entry_of(KeyContent::DeviceList(key@)).value@,
            r is Some || !old(self).device_lists.has_key(KeyContent::DeviceList(key@)) ==> final(self).device_lists.entries() == old(self).device_lists.entries(),
            r is None && old(self).device_lists.has_key(KeyContent::DeviceList(key@)) ==> final(self).device_lists.entries() == old(self).device_lists.entries().remove(
                old(self).device_lists.idx_of(KeyContent::DeviceList(key@)),
            ),
            final(self).sites == old(self).sites,
            final(self).devices == old(self).devices,
            final(self).site_lists == old(self).site_lists,
    {
        let k = CacheKey::device_list(String::from_str(key));
        let r = self.device_lists.get(&k, now);
        match r {
            Some(entry) => {
                proof {
                    crate::degradation::lemma_cloned_device_list(
                        old(self).device_lists.entry_of(KeyContent::DeviceList(key@)).value,
                        entry,
                    );
                }
                Some(entry.devices)
            },
            None => None,
        }
    }

    /// Record the result of a device-list query.
    pub fn cache_device_list(&mut self, key: String, devices: Vec<NetBoxDevice>, now: u64)
        requires
            old(self).wf(),
        ensures
            final(self).wf(),
            final(self).device_lists.has_key(KeyContent::DeviceList(key@)),
            final(self).device_lists.entry_of(KeyContent::DeviceList(key@)).value@
                == devices@.map_values(|d: NetBoxDevice| d@),
            final(self).device_lists.entry_of(KeyContent::DeviceList(key@)).expires_at
                == crate::cache::sat_add_u64(now, old(self).device_lists.spec_default_ttl()),
            forall|kc: crate::cache::KeyContent|
                kc != KeyContent::DeviceList(key@) ==> #[trigger] final(self).device_lists.has_key(
                    kc,
                ) == old(self).device_lists.has_key(kc),
            forall|kc: crate::cache::KeyContent|
                kc != KeyContent::DeviceList(key@) && old(self).device_lists.has_key(kc)
                    ==> #[trigger] final(self).device_lists.entry_of(kc) == old(self).device_lists.entry_of(kc),
            final(self).sites == old(self).sites,
            final(self).devices == old(self).devices,
            final(self).site_lists == old(self).site_lists,
    {
        let ghost kv = key@;
        let k = CacheKey::device_list(key);
        self.device_lists.put(k, DeviceListEntry { devices }, now);
        proof {
            assert forall|kc: crate::cache::KeyContent|
                kc != KeyContent::DeviceList(kv) && old(self).device_lists.has_key(kc)
                implies #[trigger] self.device_lists.entry_of(kc) == old(self).device_lists.entry_of(kc) by {
                assert(self.device_lists.has_key(kc));
            }
        }
    }

    /// Drop every entry already expired at time `now`.
    pub fn clear_expired(&mut self, now: u64)
        requires
            old(self).wf(),
        ensures
            final(self).wf(),
            final(self).sites.entries() == old(self).sites.entries().filter(
                |e: EntryContent<NetBoxSite>| now <= e.expires_at,
            ),
            final(self).devices.entries() == old(self).devices.entries().filter(
                |e: EntryContent<NetBoxDevice>| now <= e.expires_at,
            ),
            final(self).site_lists.entries() == old(self).site_lists.entries().filter(
                |e: EntryContent<SiteListEntry>| now <= e.expires_at,
            ),
            final(self).device_lists.entries() == old(self).device_lists.entries().filter(
                |e: EntryContent<DeviceListEntry>| now <= e.expires_at,
            ),
    {
        self.sites.evict_expired(now);
        self.devices.evict_expired(now);
        self.site_lists.evict_expired(now);
        self.device_lists.evict_expired(now);
    }

    /// Drop every entry.
    pub fn clear_all(&mut self)
        requires
            old(self).wf(),
        ensures
            final(self).wf(),
            final(self).sites.entries() == Seq::<EntryContent<NetBoxSite>>::empty(),
            final(self).devices.entries() == Seq::<EntryContent<NetBoxDevice>>::empty(),
            final(self).site_lists.entries() == Seq::<EntryContent<SiteListEntry>>::empty(),
            final(self).device_lists.entries() == Seq::<EntryContent<DeviceListEntry>>::empty(),
    {
        self.sites.clear();
        self.devices.clear();
        self.site_lists.clear();
        self.device_lists.clear();
    }
}

/// A clone of a site carries the same content.
pub proof fn lemma_cloned_site(a: NetBoxSite, b: NetBoxSite)
    requires
        vstd::pervasive::cloned::<NetBoxSite>(a, b),
    ensures
        b@ == a@,
{
}

/// A clone of a device carries the same content.
pub proof fn lemma_cloned_device(a: NetBoxDevice, b: NetBoxDevice)
    requires
        vstd::pervasive::cloned::<NetBoxDevice>(a, b),
    ensures
        b@ == a@,
{
}

/// A clone of a site list carries the same content.
pub proof fn lemma_cloned_site_list(a: SiteListEntry, b: SiteListEntry)
    requires
        vstd::pervasive::cloned::<SiteListEntry>(a, b),
    ensures
        b@ == a@,
{
}

/// A clone of a device list carries the same content.
pub proof fn lemma_cloned_device_list(a: DeviceListEntry, b: DeviceListEntry)
    requires
        vstd::pervasive::cloned::<DeviceListEntry>(a, b),
    ensures
        b@ == a@,
{
}

/// How a read degrades when the live path is unavailable.
#[derive(Debug, Clone, Copy, PartialEq, Eq, Structural)]
pub enum DegradationStrategy {
    /// Serve the cached copy if one is available.
    UseCache,
    /// Serve an empty result.
    ReturnEmpty,
    /// Fail.
    ReturnError,
    /// Serve whatever partial data the cache has.
    ReturnPartial,
}

/// Degrade a single-site read: the cache strategies serve a fresh cached
/// copy or nothing, ReturnEmpty serves nothing, and ReturnError fails.
pub fn degrade_site_retrieval(
    cache: &mut DegradationCache,
    site_id: i32,
    strategy: DegradationStrategy,
    now: u64,
) -> (r: Result<Option<NetBoxSite>, AppError>)
    requires
        old(cache).wf(),
    ensures
        final(cache).wf(),
        strategy == DegradationStrategy::ReturnError <==> r is Err,
        r is Err ==> r matches Err(AppError::Internal(_)),
        strategy == DegradationStrategy::ReturnEmpty ==> r == Ok::<Option<NetBoxSite>, AppError>(
            None,
        ),
        (strategy == DegradationStrategy::UseCache || strategy
            == DegradationStrategy::ReturnPartial) ==> (r matches Ok(o) && (o is Some <==> old(
            cache,
        ).sites.has_key(KeyContent::Site(site_id)) && now <= old(cache).sites.entry_of(
            KeyContent::Site(site_id),
        ).expires_at)),
        (strategy == DegradationStrategy::UseCache || strategy
            == DegradationStrategy::ReturnPartial) ==> (r matches Ok(o) && (o matches Some(v)
            ==> v@ == old(cache).sites.entry_of(KeyContent::Site(site_id)).value@)),
{
    match strategy {
        DegradationStrategy::UseCache => Ok(cache.get_site(site_id, now)),
        DegradationStrategy::ReturnEmpty => Ok(None),
        DegradationStrategy::ReturnError => Err(
            AppError::Internal(String::from_str("Service unavailable")),
        ),
        DegradationStrategy::ReturnPartial => Ok(cache.get_site(site_id, now)),
    }
}

/// Degrade a site-list read: the cache strategies serve the fresh cached
/// list or an empty one, ReturnEmpty serves an empty list, and
/// ReturnError fails.
pub fn degrade_site_list_retrieval(
    cache: &mut DegradationCache,
    cache_key: &str,
    strategy: DegradationStrategy,
    now: u64,
) -> (r: Result<Vec<NetBoxSite>, AppError>)
    requires
        old(cache).wf(),
    ensures
        final(cache).wf(),
        strategy == DegradationStrategy::ReturnError <==> r is Err,
        r is Err ==> r matches Err(AppError::Internal(_)),
        strategy == DegradationStrategy::ReturnEmpty ==> (r matches Ok(v) && v@.len() == 0),
        (strategy == DegradationStrategy::UseCache || strategy
            == DegradationStrategy::ReturnPartial) ==> (r matches Ok(v) && (if old(
            cache,
        ).site_lists.has_key(KeyContent::SiteList(cache_key@)) && now <= old(
            cache,
        ).site_lists.entry_of(KeyContent::SiteList(cache_key@)).expires_at {
            v@.map_values(|s: NetBoxSite| s@) == old(cache).site_lists.entry_of(
                KeyContent::SiteList(cache_key@),
            ).value@
        } else {
            v@.len() == 0
        })),
{
    match strategy {
        DegradationStrategy::UseCache => {
            match cache.get_site_list(cache_key, now) {
                Some(sites) => Ok(sites),
                None => Ok(Vec::new()),
            }
        },
        DegradationStrategy::ReturnEmpty => Ok(Vec::new()),
        DegradationStrategy::ReturnError => Err(
            AppError::Internal(String::from_str("Service unavailable")),
        ),
        DegradationStrategy::ReturnPartial => {
            match cache.get_site_list(cache_key, now) {
                Some(sites) => Ok(sites),
                None => Ok(Vec::new()),
            }
        },
    }
}

} // verus!

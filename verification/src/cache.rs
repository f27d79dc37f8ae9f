//! The fresh cache: a TTL map with a size bound, explicit first-in
//! first-out eviction, strategy-driven invalidation, and counters.
use vstd::prelude::*;
use vstd::pervasive::cloned;
use vstd::std_specs::cmp::PartialEqSpec;
use crate::strutil::string_eq;
use crate::metrics::bump64;

verus! {

/// The mathematical content of a cache key.
pub enum KeyContent {
    Site(i32),
    Device(i32),
    SiteList(Seq<char>),
    DeviceList(Seq<char>),
}

/// A key of the fresh cache: one resource by id, or one list query.
#[derive(Debug, Eq)]
pub enum CacheKey {
    Site(i32),
    Device(i32),
    SiteList(String),
    DeviceList(String),
}

impl View for CacheKey {
    type V = KeyContent;

    open spec fn view(&self) -> KeyContent {
        match self {
            CacheKey::Site(id) => KeyContent::Site(*id),
            CacheKey::Device(id) => KeyContent::Device(*id),
            CacheKey::SiteList(q) => KeyContent::SiteList(q@),
            CacheKey::DeviceList(q) => KeyContent::DeviceList(q@),
        }
    }
}

impl PartialEq for CacheKey {
    fn eq(&self, other: &Self) -> (r: bool) {
        match (self, other) {
            (CacheKey::Site(a), CacheKey::Site(b)) => *a == *b,
            (CacheKey::Device(a), CacheKey::Device(b)) => *a == *b,
            (CacheKey::SiteList(a), CacheKey::SiteList(b)) => a.eq(b),
            (CacheKey::DeviceList(a), CacheKey::DeviceList(b)) => a.eq(b),
            _ => false,
        }
    }
}

impl vstd::std_specs::cmp::PartialEqSpecImpl for CacheKey {
    open spec fn obeys_eq_spec() -> bool {
        true
    }

    open spec fn eq_spec(&self, other: &Self) -> bool {
        self@ == other@
    }
}

impl Clone for CacheKey {
    fn clone(&self) -> (r: Self)
        ensures
            r@ == self@,
    {
        match self {
            CacheKey::Site(id) => CacheKey::Site(*id),
            CacheKey::Device(id) => CacheKey::Device(*id),
            CacheKey::SiteList(q) => CacheKey::SiteList(q.clone()),
            CacheKey::DeviceList(q) => CacheKey::DeviceList(q.clone()),
        }
    }
}

impl CacheKey {
    /// The key of one site.
    pub fn site(id: i32) -> (r: Self)
        ensures
            r@ == KeyContent::Site(id),
    {
        CacheKey::Site(id)
    }

    /// The key of one device.
    pub fn device(id: i32) -> (r: Self)
        ensures
            r@ == KeyContent::Device(id),
    {
        CacheKey::Device(id)
    }

    /// The key of a site-list query.
    pub fn site_list(query: String) -> (r: Self)
        ensures
            r@ == KeyContent::SiteList(query@),
    {
        CacheKey::SiteList(query)
    }

    /// The key of a device-list query.
    pub fn device_list(query: String) -> (r: Self)
        ensures
            r@ == KeyContent::DeviceList(query@),
    {
        CacheKey::DeviceList(query)
    }
}

/// Decide whether two keys are the same.
pub fn key_eq(a: &CacheKey, b: &CacheKey) -> (r: bool)
    ensures
        r == (a@ == b@),
{
    match (a, b) {
        (CacheKey::Site(x), CacheKey::Site(y)) => *x == *y,
        (CacheKey::Device(x), CacheKey::Device(y)) => *x == *y,
        (CacheKey::SiteList(x), CacheKey::SiteList(y)) => string_eq(x, y),
        (CacheKey::DeviceList(x), CacheKey::DeviceList(y)) => string_eq(x, y),
        _ => false,
    }
}

/// One cache entry: the value with its expiry and creation stamps.
struct CacheEntry<V> {
    value: V,
    expires_at: u64,
    created_at: u64,
}

/// The mathematical content of one entry: the key, the stored value,
/// and when the entry expires and was created.
pub struct EntryContent<V> {
    pub key: KeyContent,
    pub value: V,
    pub expires_at: u64,
    pub created_at: u64,
}

/// An in-memory map with per-entry expiry, insertion-ordered for
/// first-in first-out eviction under the size bound.
pub struct Cache<V> {
    store: Vec<(CacheKey, CacheEntry<V>)>,
    default_ttl: u64,
    max_size: Option<usize>,
}

impl<V> Cache<V> {
    /// The entries, oldest first.
    pub closed spec fn entries(self) -> Seq<EntryContent<V>> {
        self.store@.map_values(
            |e: (CacheKey, CacheEntry<V>)| EntryContent {
                key: e.0@,
                value: e.1.value,
                expires_at: e.1.expires_at,
                created_at: e.1.created_at,
            },
        )
    }

    /// The time-to-live given to entries stored without an explicit one.
    pub closed spec fn spec_default_ttl(self) -> u64 {
        self.default_ttl
    }

    /// The size bound, if one was set.
    pub closed spec fn spec_max_size(self) -> Option<usize> {
        self.max_size
    }

    /// Keys are unique among the entries.
    pub open spec fn wf(self) -> bool {
        forall|i: int, j: int|
            0 <= i < j < self.entries().len() ==> self.entries()[i].key != self.entries()[j].key
    }

    /// Whether an entry with the given key exists.
    pub open spec fn has_key(self, k: KeyContent) -> bool {
        exists|i: int| 0 <= i < self.entries().len() && self.entries()[i].key == k
    }

    /// The index of the entry with the given key.
    pub open spec fn idx_of(self, k: KeyContent) -> int {
        choose|i: int| 0 <= i < self.entries().len() && self.entries()[i].key == k
    }

    /// The entry with the given key.
    pub open spec fn entry_of(self, k: KeyContent) -> EntryContent<V> {
        self.entries()[self.idx_of(k)]
    }

    /// A cache with the given default time-to-live and no size bound.
    pub fn new(default_ttl: u64) -> (r: Self)
        ensures
            r.wf(),
            r.entries() == Seq::<EntryContent<V>>::empty(),
            r.spec_default_ttl() == default_ttl,
            r.spec_max_size() is None,
    {
        Cache { store: Vec::new(), default_ttl, max_size: None }
    }

    /// A cache with the given default time-to-live and size bound.
    pub fn with_max_size(default_ttl: u64, max_size: usize) -> (r: Self)
        ensures
            r.wf(),
            r.entries() == Seq::<EntryContent<V>>::empty(),
            r.spec_default_ttl() == default_ttl,
            r.spec_max_size() == Some(max_size),
    {
        Cache { store: Vec::new(), default_ttl, max_size: Some(max_size) }
    }

    /// With unique keys, any index holding `k` is the index `idx_of` picks.
    proof fn lemma_idx_at(self, k: KeyContent, i: int)
        requires
            self.wf(),
            0 <= i < self.entries().len(),
            self.entries()[i].key == k,
        ensures
            self.has_key(k),
            self.idx_of(k) == i,
    {
        assert(self.has_key(k));
        let j = self.idx_of(k);
        if j != i {
            if j < i {
                assert(self.entries()[j].key != self.entries()[i].key);
            } else {
                assert(self.entries()[i].key != self.entries()[j].key);
            }
        }
    }

    /// Find the index of the entry stored under `key`.
    fn find_idx(&self, key: &CacheKey) -> (r: Option<usize>)
        requires
            self.wf(),
        ensures
            r matches Some(i) ==> i < self.entries().len() && self.has_key(key@) && self.idx_of(
                key@,
            ) == i,
            r is None ==> !self.has_key(key@),
    {
        let mut i: usize = 0;
        while i < self.store.len()
            invariant
                self.wf(),
                i <= self.entries().len(),
                forall|k: int| 0 <= k < i ==> self.entries()[k].key != key@,
            decreases self.entries().len() - i,
        {
            if key_eq(&self.store[i].0, key) {
                proof {
                    self.lemma_idx_at(key@, i as int);
                }
                return Some(i);
            }
            proof {
                assert(self.entries()[i as int].key == self.store@[i as int].0@);
            }
            i += 1;
        }
        None
    }
}

impl<V: Clone> Cache<V> {
    /// Look up `key` at time `now`. A fresh entry is returned (as a
    /// clone) and left in place; an expired entry is removed and counts
    /// as a miss; a hit always has `now` at or before the entry's expiry.
    pub fn get(&mut self, key: &CacheKey, now: u64) -> (r: Option<V>)
        requires
            old(self).wf(),
        ensures
            final(self).wf(),
            r is Some <==> old(self).has_key(key@) && now <= old(self).entry_of(key@).expires_at,
            r matches Some(v) ==> cloned::<V>(old(self).entry_of(key@).value, v),
            !old(self).has_key(key@) ==> final(self).entries() == old(self).entries(),
            old(self).has_key(key@) && now <= old(self).entry_of(key@).expires_at ==> final(self).entries() == old(self).entries(),
            old(self).has_key(key@) && now > old(self).entry_of(key@).expires_at ==> final(self).entries() == old(self).entries().remove(old(self).idx_of(key@)),
            final(self).spec_default_ttl() == old(self).spec_default_ttl(),
            final(self).spec_max_size() == old(self).spec_max_size(),
    {
        let idx = match self.find_idx(key) {
            Some(i) => i,
            None => {
                return None;
            },
        };
        if now > self.store[idx].1.expires_at {
            let ghost pre = *self;
            self.store.remove(idx);
            proof {
                assert(self.entries() =~= pre.entries().remove(idx as int));
                assert forall|i: int, j: int|
                    0 <= i < j < self.entries().len() implies self.entries()[i].key
                    != self.entries()[j].key by {
                    let pi: int = if i < idx as int { i } else { i + 1 };
                    let pj: int = if j < idx as int { j } else { j + 1 };
                    assert(pre.entries()[pi].key != pre.entries()[pj].key);
                }
            }
            return None;
        }
        Some(self.store[idx].1.value.clone())
    }

    /// Store `value` under `key` with the default time-to-live.
    pub fn put(&mut self, key: CacheKey, value: V, now: u64)
        requires
            old(self).wf(),
        ensures
            final(self).wf(),
            final(self).has_key(key@),
            final(self).entry_of(key@).value == value,
            final(self).entry_of(key@).expires_at == sat_add_u64(
                now,
                old(self).spec_default_ttl(),
            ),
            final(self).spec_default_ttl() == old(self).spec_default_ttl(),
            final(self).spec_max_size() == old(self).spec_max_size(),
            (match old(self).spec_max_size() {
                Some(m) => old(self).entries().len() <= m && m >= 1 ==> final(self).entries().len() <= m,
                None => true,
            }),
            old(self).has_key(key@) ==> final(self).entries() == old(self).entries().update(
                old(self).idx_of(key@),
                EntryContent {
                    key: key@,
                    value,
                    expires_at: sat_add_u64(now, old(self).spec_default_ttl()),
                    created_at: now,
                },
            ),
            !old(self).has_key(key@) ==> final(self).entries() == evict_for_new_key(
                old(self).entries(),
                old(self).spec_max_size(),
            ).push(
                EntryContent {
                    key: key@,
                    value,
                    expires_at: sat_add_u64(now, old(self).spec_default_ttl()),
                    created_at: now,
                },
            ),
            forall|kc: KeyContent|
                kc != key@ && #[trigger] final(self).has_key(kc) ==> old(self).has_key(kc) && final(self).entry_of(kc) == old(self).entry_of(kc),
            old(self).spec_max_size() is None ==> forall|kc: KeyContent|
                kc != key@ ==> #[trigger] final(self).has_key(kc) == old(self).has_key(kc),
    {
        let ttl = self.default_ttl;
        self.put_with_ttl(key, value, ttl, now);
    }

    /// Store `value` under `key`, expiring `ttl` after `now`. An existing
    /// entry under the key is replaced in place; a new key may first evict
    /// the oldest entry when the cache is at its size bound. Under a bound
    /// of `m >= 1`, a cache within the bound stays within it.
    pub fn put_with_ttl(&mut self, key: CacheKey, value: V, ttl: u64, now: u64)
        requires
            old(self).wf(),
        ensures
            final(self).wf(),
            final(self).has_key(key@),
            final(self).entry_of(key@).value == value,
            final(self).entry_of(key@).expires_at == sat_add_u64(now, ttl),
            final(self).entry_of(key@).created_at == now,
            final(self).spec_default_ttl() == old(self).spec_default_ttl(),
            final(self).spec_max_size() == old(self).spec_max_size(),
            (match old(self).spec_max_size() {
                Some(m) => old(self).entries().len() <= m && m >= 1 ==> final(self).entries().len() <= m,
                None => true,
            }),
            old(self).has_key(key@) ==> final(self).entries() == old(self).entries().update(
                old(self).idx_of(key@),
                EntryContent { key: key@, value, expires_at: sat_add_u64(now, ttl), created_at: now },
            ),
            !old(self).has_key(key@) ==> final(self).entries() == evict_for_new_key(
                old(self).entries(),
                old(self).spec_max_size(),
            ).push(
                EntryContent { key: key@, value, expires_at: sat_add_u64(now, ttl), created_at: now },
            ),
            forall|kc: KeyContent|
                kc != key@ && #[trigger] final(self).has_key(kc) ==> old(self).has_key(kc) && final(self).entry_of(kc) == old(self).entry_of(kc),
            old(self).spec_max_size() is None ==> forall|kc: KeyContent|
                kc != key@ ==> #[trigger] final(self).has_key(kc) == old(self).has_key(kc),
    {
        let expires_at = if now <= 0xffff_ffff_ffff_ffffu64 - ttl {
            now + ttl
        } else {
            0xffff_ffff_ffff_ffffu64
        };
        let entry = CacheEntry { value, expires_at, created_at: now };
        let ghost ev = EntryContent { key: key@, value: entry.value, expires_at, created_at: now };
        match self.find_idx(&key) {
            Some(i) => {
                let ghost pre = *self;
                self.store.set(i, (key, entry));
                proof {
                    assert(self.entries() =~= pre.entries().update(i as int, ev));
                    assert forall|p: int, q: int|
                        0 <= p < q < self.entries().len() implies self.entries()[p].key
                        != self.entries()[q].key by {
                        assert(pre.entries()[p].key != pre.entries()[q].key);
                    }
                    self.lemma_idx_at(ev.key, i as int);
                    assert forall|kc: KeyContent|
                        kc != ev.key implies #[trigger] self.has_key(kc) == pre.has_key(kc) by {
                        if pre.has_key(kc) {
                            let j = pre.idx_of(kc);
                            assert(pre.entries()[j].key == kc);
                            assert(j != i as int);
                            assert(self.entries()[j].key == kc);
                            assert(self.has_key(kc));
                        }
                        if self.has_key(kc) {
                            let j = self.idx_of(kc);
                            assert(self.entries()[j].key == kc);
                            assert(j != i as int);
                            assert(pre.entries()[j].key == kc);
                            assert(pre.has_key(kc));
                        }
                    }
                }
            },
            None => {
                let ghost pre0 = *self;
                let mut evicted: bool = false;
                if let Some(m) = self.max_size {
                    if self.store.len() >= m && self.store.len() > 0 {
                        self.store.remove(0);
                        evicted = true;
                        proof {
                            assert(self.entries() =~= pre0.entries().remove(0));
                            assert forall|p: int, q: int|
                                0 <= p < q < self.entries().len() implies self.entries()[p].key
                                != self.entries()[q].key by {
                                assert(pre0.entries()[p + 1].key != pre0.entries()[q + 1].key);
                            }
                            assert forall|k: int|
                                0 <= k < self.entries().len() implies self.entries()[k].key
                                != key@ by {
                                assert(pre0.entries()[k + 1].key == self.entries()[k].key);
                                assert(!pre0.has_key(key@));
                                if pre0.entries()[k + 1].key == key@ {
                                    pre0.lemma_idx_at(key@, k + 1);
                                }
                            }
                        }
                    }
                }
                let ghost pre = *self;
                proof {
                    assert forall|k: int|
                        0 <= k < pre.entries().len() implies pre.entries()[k].key != key@ by {
                        if !evicted {
                            if pre.entries()[k].key == key@ {
                                pre.lemma_idx_at(key@, k);
                            }
                        }
                    }
                }
                self.store.push((key, entry));
                proof {
                    assert(self.entries() =~= pre.entries().push(ev));
                    let n = pre.entries().len() as int;
                    assert forall|p: int, q: int|
                        0 <= p < q < self.entries().len() implies self.entries()[p].key
                        != self.entries()[q].key by {
                        if q < n {
                            assert(pre.entries()[p].key != pre.entries()[q].key);
                        } else {
                            assert(self.entries()[q] == ev);
                            assert(pre.entries()[p].key != key@);
                        }
                    }
                    self.lemma_idx_at(ev.key, n);
                    if old(self).spec_max_size() is None {
                        assert forall|kc: KeyContent|
                            kc != ev.key implies #[trigger] self.has_key(kc) == old(self).has_key(
                            kc,
                        ) by {
                            if old(self).has_key(kc) {
                                let j = old(self).idx_of(kc);
                                assert(old(self).entries()[j].key == kc);
                                assert(self.entries()[j].key == kc);
                                assert(self.has_key(kc));
                            }
                            if self.has_key(kc) {
                                let j = self.idx_of(kc);
                                assert(self.entries()[j].key == kc);
                                assert(j != n);
                                assert(old(self).entries()[j].key == kc);
                                assert(old(self).has_key(kc));
                            }
                        }
                    }
                }
            },
        }
    }

    /// Remove the entry stored under `key`, if any.
    pub fn invalidate(&mut self, key: &CacheKey)
        requires
            old(self).wf(),
        ensures
            final(self).wf(),
            !final(self).has_key(key@),
            old(self).has_key(key@) ==> final(self).entries() == old(self).entries().remove(
                old(self).idx_of(key@),
            ),
            !old(self).has_key(key@) ==> final(self).entries() == old(self).entries(),
            final(self).spec_default_ttl() == old(self).spec_default_ttl(),
            final(self).spec_max_size() == old(self).spec_max_size(),
    {
        match self.find_idx(key) {
            Some(i) => {
                let ghost pre = *self;
                self.store.remove(i);
                proof {
                    assert(self.entries() =~= pre.entries().remove(i as int));
                    assert forall|p: int, q: int|
                        0 <= p < q < self.entries().len() implies self.entries()[p].key
                        != self.entries()[q].key by {
                        let pp: int = if p < i as int { p } else { p + 1 };
                        let pq: int = if q < i as int { q } else { q + 1 };
                        assert(pre.entries()[pp].key != pre.entries()[pq].key);
                    }
                    assert forall|k: int|
                        0 <= k < self.entries().len() implies self.entries()[k].key != key@ by {
                        let pk: int = if k < i as int { k } else { k + 1 };
                        assert(self.entries()[k].key == pre.entries()[pk].key);
                        if pre.entries()[pk].key == key@ {
                            pre.lemma_idx_at(key@, pk);
                        }
                    }
                }
            },
            None => {},
        }
    }

    /// Remove every site-list entry.
    pub fn invalidate_site_lists(&mut self)
        requires
            old(self).wf(),
        ensures
            final(self).wf(),
            final(self).entries() == old(self).entries().filter(
                |e: EntryContent<V>| !(e.key is SiteList),
            ),
            final(self).spec_default_ttl() == old(self).spec_default_ttl(),
            final(self).spec_max_size() == old(self).spec_max_size(),
    {
        let ghost pre = *self;
        let ghost pred = |e: EntryContent<V>| !(e.key is SiteList);
        let mut out: Vec<(CacheKey, CacheEntry<V>)> = Vec::new();
        proof {
            assert(pre.entries().take(0) =~= Seq::<EntryContent<V>>::empty());
            assert(pre.entries().skip(0) =~= pre.entries());
            reveal_with_fuel(Seq::filter, 1);
        }
        let n = self.store.len();
        let mut i: usize = 0;
        while i < n
            invariant
                n == pre.entries().len(),
                i <= n,
                self.entries() == pre.entries().skip(i as int),
                self.spec_default_ttl() == pre.spec_default_ttl(),
                self.spec_max_size() == pre.spec_max_size(),
                out@.map_values(
                    |e: (CacheKey, CacheEntry<V>)| EntryContent {
                        key: e.0@,
                        value: e.1.value,
                        expires_at: e.1.expires_at,
                        created_at: e.1.created_at,
                    },
                ) == pre.entries().take(i as int).filter(pred),
                pred == (|e: EntryContent<V>| !(e.key is SiteList)),
            decreases n - i,
        {
            let ghost prefix = pre.entries().take(i as int);
            let ghost mid = *self;
            proof {
                assert(pre.entries().take(i + 1).drop_last() =~= prefix);
                assert(pre.entries().take(i + 1).last() == pre.entries()[i as int]);
                reveal(Seq::filter);
            }
            proof {
                assert(mid.entries().len() == pre.entries().len() - i);
                assert(mid.store@.len() == mid.entries().len());
            }
            let (k, e) = self.store.remove(0);
            proof {
                assert(mid.entries()[0] == pre.entries()[i as int]);
                assert(self.entries() =~= mid.entries().remove(0));
                assert(self.entries() =~= pre.entries().skip(i + 1));
            }
            let keep = match &k {
                CacheKey::SiteList(_) => false,
                _ => true,
            };
            if keep {
                out.push((k, e));
            }
            proof {
                assert(out@.map_values(
                    |e: (CacheKey, CacheEntry<V>)| EntryContent {
                        key: e.0@,
                        value: e.1.value,
                        expires_at: e.1.expires_at,
                        created_at: e.1.created_at,
                    },
                ) =~= pre.entries().take(i + 1).filter(pred));
            }
            i += 1;
        }
        self.store = out;
        proof {
            assert(pre.entries().take(n as int) =~= pre.entries());
            crate::cache::lemma_filter_unique_keys(pre.entries(), pred);
        }
    }

    /// Remove every device-list entry.
    pub fn invalidate_device_lists(&mut self)
        requires
            old(self).wf(),
        ensures
            final(self).wf(),
            final(self).entries() == old(self).entries().filter(
                |e: EntryContent<V>| !(e.key is DeviceList),
            ),
            final(self).spec_default_ttl() == old(self).spec_default_ttl(),
            final(self).spec_max_size() == old(self).spec_max_size(),
    {
        let ghost pre = *self;
        let ghost pred = |e: EntryContent<V>| !(e.key is DeviceList);
        let mut out: Vec<(CacheKey, CacheEntry<V>)> = Vec::new();
        proof {
            assert(pre.entries().take(0) =~= Seq::<EntryContent<V>>::empty());
            assert(pre.entries().skip(0) =~= pre.entries());
            reveal_with_fuel(Seq::filter, 1);
        }
        let n = self.store.len();
        let mut i: usize = 0;
        while i < n
            invariant
                n == pre.entries().len(),
                i <= n,
                self.entries() == pre.entries().skip(i as int),
                self.spec_default_ttl() == pre.spec_default_ttl(),
                self.spec_max_size() == pre.spec_max_size(),
                out@.map_values(
                    |e: (CacheKey, CacheEntry<V>)| EntryContent {
                        key: e.0@,
                        value: e.1.value,
                        expires_at: e.1.expires_at,
                        created_at: e.1.created_at,
                    },
                ) == pre.entries().take(i as int).filter(pred),
                pred == (|e: EntryContent<V>| !(e.key is DeviceList)),
            decreases n - i,
        {
            let ghost prefix = pre.entries().take(i as int);
            let ghost mid = *self;
            proof {
                assert(pre.entries().take(i + 1).drop_last() =~= prefix);
                assert(pre.entries().take(i + 1).last() == pre.entries()[i as int]);
                reveal(Seq::filter);
            }
            proof {
                assert(mid.entries().len() == pre.entries().len() - i);
                assert(mid.store@.len() == mid.entries().len());
            }
            let (k, e) = self.store.remove(0);
            proof {
                assert(mid.entries()[0] == pre.entries()[i as int]);
                assert(self.entries() =~= mid.entries().remove(0));
                assert(self.entries() =~= pre.entries().skip(i + 1));
            }
            let keep = match &k {
                CacheKey::DeviceList(_) => false,
                _ => true,
            };
            if keep {
                out.push((k, e));
            }
            proof {
                assert(out@.map_values(
                    |e: (CacheKey, CacheEntry<V>)| EntryContent {
                        key: e.0@,
                        value: e.1.value,
                        expires_at: e.1.expires_at,
                        created_at: e.1.created_at,
                    },
                ) =~= pre.entries().take(i + 1).filter(pred));
            }
            i += 1;
        }
        self.store = out;
        proof {
            assert(pre.entries().take(n as int) =~= pre.entries());
            crate::cache::lemma_filter_unique_keys(pre.entries(), pred);
        }
    }

    /// Drop every entry.
    pub fn clear(&mut self)
        ensures
            final(self).wf(),
            final(self).entries() == Seq::<EntryContent<V>>::empty(),
            final(self).spec_default_ttl() == old(self).spec_default_ttl(),
            final(self).spec_max_size() == old(self).spec_max_size(),
    {
        self.store = Vec::new();
        proof {
            assert(self.entries() =~= Seq::<EntryContent<V>>::empty());
        }
    }

    /// Remove every entry already expired at time `now` and report how
    /// many were removed.
    pub fn evict_expired(&mut self, now: u64) -> (r: usize)
        requires
            old(self).wf(),
        ensures
            final(self).wf(),
            final(self).entries() == old(self).entries().filter(
                |e: EntryContent<V>| now <= e.expires_at,
            ),
            r == old(self).entries().len() - final(self).entries().len(),
            final(self).spec_default_ttl() == old(self).spec_default_ttl(),
            final(self).spec_max_size() == old(self).spec_max_size(),
    {
        let ghost pre = *self;
        let ghost pred = |e: EntryContent<V>| now <= e.expires_at;
        let mut out: Vec<(CacheKey, CacheEntry<V>)> = Vec::new();
        proof {
            assert(pre.entries().take(0) =~= Seq::<EntryContent<V>>::empty());
            assert(pre.entries().skip(0) =~= pre.entries());
            reveal_with_fuel(Seq::filter, 1);
        }
        let n = self.store.len();
        let mut i: usize = 0;
        while i < n
            invariant
                n == pre.entries().len(),
                i <= n,
                self.entries() == pre.entries().skip(i as int),
                self.spec_default_ttl() == pre.spec_default_ttl(),
                self.spec_max_size() == pre.spec_max_size(),
                out@.map_values(
                    |e: (CacheKey, CacheEntry<V>)| EntryContent {
                        key: e.0@,
                        value: e.1.value,
                        expires_at: e.1.expires_at,
                        created_at: e.1.created_at,
                    },
                ) == pre.entries().take(i as int).filter(pred),
                pred == (|e: EntryContent<V>| now <= e.expires_at),
            decreases n - i,
        {
            let ghost prefix = pre.entries().take(i as int);
            let ghost mid = *self;
            proof {
                assert(pre.entries().take(i + 1).drop_last() =~= prefix);
                assert(pre.entries().take(i + 1).last() == pre.entries()[i as int]);
                reveal(Seq::filter);
            }
            proof {
                assert(mid.entries().len() == pre.entries().len() - i);
                assert(mid.store@.len() == mid.entries().len());
            }
            let (k, e) = self.store.remove(0);
            proof {
                assert(mid.entries()[0] == pre.entries()[i as int]);
                assert(self.entries() =~= mid.entries().remove(0));
                assert(self.entries() =~= pre.entries().skip(i + 1));
            }
            let keep = now <= e.expires_at;
            if keep {
                out.push((k, e));
            }
            proof {
                assert(out@.map_values(
                    |e: (CacheKey, CacheEntry<V>)| EntryContent {
                        key: e.0@,
                        value: e.1.value,
                        expires_at: e.1.expires_at,
                        created_at: e.1.created_at,
                    },
                ) =~= pre.entries().take(i + 1).filter(pred));
            }
            i += 1;
        }
        let kept = out.len();
        self.store = out;
        proof {
            assert(pre.entries().take(n as int) =~= pre.entries());
            crate::cache::lemma_filter_unique_keys(pre.entries(), pred);
            pre.entries().lemma_filter_len(pred);
        }
        n - kept
    }

    /// The number of entries currently stored.
    pub fn size(&self) -> (r: usize)
        ensures
            r == self.entries().len(),
    {
        self.store.len()
    }

    /// Counts over the entries at time `now`: all of them, the ones
    /// still fresh, and the ones already expired.
    pub fn stats(&self, now: u64) -> (r: CacheStats)
        ensures
            r.total_entries == self.entries().len(),
            r.valid_entries + r.expired_entries == r.total_entries,
            r.expired_entries == self.entries().filter(
                |e: EntryContent<V>| now > e.expires_at,
            ).len(),
    {
        let ghost pred = |e: EntryContent<V>| now > e.expires_at;
        proof {
            assert(self.entries().take(0) =~= Seq::<EntryContent<V>>::empty());
            reveal_with_fuel(Seq::filter, 1);
        }
        let n = self.store.len();
        let mut expired: usize = 0;
        let mut i: usize = 0;
        while i < n
            invariant
                n == self.store@.len(),
                i <= n,
                expired == self.entries().take(i as int).filter(pred).len(),
                pred == (|e: EntryContent<V>| now > e.expires_at),
            decreases n - i,
        {
            let ghost prefix = self.entries().take(i as int);
            proof {
                assert(self.entries().take(i + 1).drop_last() =~= prefix);
                assert(self.entries().take(i + 1).last() == self.entries()[i as int]);
                reveal(Seq::filter);
                prefix.lemma_filter_len(pred);
            }
            if now > self.store[i].1.expires_at {
                expired = expired + 1;
            }
            i += 1;
        }
        proof {
            assert(self.entries().take(n as int) =~= self.entries());
            self.entries().lemma_filter_len(pred);
        }
        CacheStats {
            total_entries: n,
            valid_entries: n - expired,
            expired_entries: expired,
        }
    }
}

/// The entries left before a new key is inserted: at the size bound,
/// the oldest entry (first in) is evicted first.
pub open spec fn evict_for_new_key<V>(
    entries: Seq<EntryContent<V>>,
    max_size: Option<usize>,
) -> Seq<EntryContent<V>> {
    match max_size {
        Some(m) => if entries.len() >= m && entries.len() > 0 {
            entries.remove(0)
        } else {
            entries
        },
        None => entries,
    }
}

/// A sum of times that stops at the maximum of u64.
pub open spec fn sat_add_u64(x: u64, y: u64) -> u64 {
    if x + y <= 0xffff_ffff_ffff_ffffu64 {
        (x + y) as u64
    } else {
        0xffff_ffff_ffff_ffffu64
    }
}

/// Filtering entries with unique keys keeps the keys unique.
pub proof fn lemma_filter_unique_keys<V>(s: Seq<EntryContent<V>>, pred: spec_fn(EntryContent<V>) -> bool)
    requires
        forall|i: int, j: int| 0 <= i < j < s.len() ==> s[i].key != s[j].key,
    ensures
        forall|i: int, j: int|
            0 <= i < j < s.filter(pred).len() ==> s.filter(pred)[i].key != s.filter(pred)[j].key,
    decreases s.len(),
{
    reveal(Seq::filter);
    if s.len() > 0 {
        let butlast = s.drop_last();
        lemma_filter_unique_keys(butlast, pred);
        let f = s.filter(pred);
        let fb = butlast.filter(pred);
        assert forall|i: int, j: int|
            0 <= i < j < f.len() implies f[i].key != f[j].key by {
            if pred(s.last()) {
                if j < f.len() - 1 {
                    assert(fb[i].key != fb[j].key);
                } else {
                    assert(f[j] == s.last());
                    assert(fb.contains(f[i])) by {
                        assert(fb[i] == f[i]);
                    }
                    butlast.lemma_filter_contains_rev(pred, f[i]);
                    let m = choose|m: int| 0 <= m < butlast.len() && butlast[m] == f[i];
                    assert(s[m].key != s[s.len() - 1].key);
                }
            } else {
                assert(fb[i].key != fb[j].key);
            }
        }
    }
}

/// Counts over a cache's entries at a point in time.
#[derive(Debug, Clone, Copy, PartialEq, Eq, Structural)]
pub struct CacheStats {
    pub total_entries: usize,
    pub valid_entries: usize,
    pub expired_entries: usize,
}

/// The site cache.
pub type SiteCache = Cache<crate::models::NetBoxSite>;

/// The device cache.
pub type DeviceCache = Cache<crate::models::NetBoxDevice>;

} // verus!

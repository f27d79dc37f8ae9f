//! Domain types: the site order a tenant submits, the site it yields,
//! and the per-tenant store of sites.
use vstd::prelude::*;
use crate::ident::new_order_id;
use crate::strutil::string_eq;

verus! {

/// The mathematical content of a site order.
pub struct OrderContent {
    pub name: Seq<char>,
    pub description: Option<Seq<char>>,
    pub address: Option<Seq<char>>,
}

/// An order to create a site.
#[derive(Debug)]
pub struct CreateSiteOrder {
    pub name: String,
    pub description: Option<String>,
    pub address: Option<String>,
}

impl View for CreateSiteOrder {
    type V = OrderContent;

    open spec fn view(&self) -> OrderContent {
        OrderContent {
            name: self.name@,
            description: self.description.deep_view(),
            address: self.address.deep_view(),
        }
    }
}

impl Clone for CreateSiteOrder {
    fn clone(&self) -> (r: Self)
        ensures
            r@ == self@,
    {
        CreateSiteOrder {
            name: self.name.clone(),
            description: clone_opt_string(&self.description),
            address: clone_opt_string(&self.address),
        }
    }
}

/// Copy an optional string.
pub fn clone_opt_string(o: &Option<String>) -> (r: Option<String>)
    ensures
        r.deep_view() == o.deep_view(),
{
    match o {
        Some(s) => Some(s.clone()),
        None => None,
    }
}

/// The mathematical content of a site record.
pub struct SiteContent {
    pub id: Seq<char>,
    pub name: Seq<char>,
    pub description: Option<Seq<char>>,
    pub address: Option<Seq<char>>,
    pub tenant_id: Seq<char>,
}

/// A site as the gateway records it for a tenant.
#[derive(Debug)]
pub struct Site {
    pub id: String,
    pub name: String,
    pub description: Option<String>,
    pub address: Option<String>,
    pub tenant_id: String,
}

impl View for Site {
    type V = SiteContent;

    open spec fn view(&self) -> SiteContent {
        SiteContent {
            id: self.id@,
            name: self.name@,
            description: self.description.deep_view(),
            address: self.address.deep_view(),
            tenant_id: self.tenant_id@,
        }
    }
}

impl Clone for Site {
    fn clone(&self) -> (r: Self)
        ensures
            r@ == self@,
    {
        Site {
            id: self.id.clone(),
            name: self.name.clone(),
            description: clone_opt_string(&self.description),
            address: clone_opt_string(&self.address),
            tenant_id: self.tenant_id.clone(),
        }
    }
}

impl Site {
    /// Build a site record from an order, under a freshly drawn id.
    pub fn from_order(order: CreateSiteOrder, tenant_id: String) -> (r: Self)
        ensures
            r@.id.len() == 36,
            r@.name == order@.name,
            r@.description == order@.description,
            r@.address == order@.address,
            r@.tenant_id == tenant_id@,
    {
        let id = new_order_id();
        Site {
            id,
            name: order.name.clone(),
            description: clone_opt_string(&order.description),
            address: clone_opt_string(&order.address),
            tenant_id: tenant_id.clone(),
        }
    }
}

/// The application-level tenant identifier.
pub type TenantId = String;

/// The sites recorded for the tenants, grouped per tenant.
pub struct TenantStore {
    entries: Vec<(String, Vec<Site>)>,
}

impl TenantStore {
    /// The stored groups, by view: each tenant id with its sites.
    pub closed spec fn entries(self) -> Seq<(Seq<char>, Seq<SiteContent>)> {
        self.entries@.map_values(
            |e: (String, Vec<Site>)| (e.0@, e.1@.map_values(|s: Site| s@)),
        )
    }

    /// Tenant ids are unique among the groups.
    pub open spec fn wf(self) -> bool {
        forall|i: int, j: int|
            0 <= i < j < self.entries().len() ==> self.entries()[i].0 != self.entries()[j].0
    }

    /// Whether a group for the tenant exists.
    pub open spec fn has_tenant(self, id: Seq<char>) -> bool {
        exists|i: int| 0 <= i < self.entries().len() && self.entries()[i].0 == id
    }

    /// The index of the tenant's group.
    pub open spec fn idx_of(self, id: Seq<char>) -> int {
        choose|i: int| 0 <= i < self.entries().len() && self.entries()[i].0 == id
    }

    /// The sites recorded for the tenant.
    pub open spec fn sites_of(self, id: Seq<char>) -> Seq<SiteContent> {
        if self.has_tenant(id) {
            self.entries()[self.idx_of(id)].1
        } else {
            Seq::empty()
        }
    }

    pub fn new() -> (r: Self)
        ensures
            r.wf(),
            r.entries() == Seq::<(Seq<char>, Seq<SiteContent>)>::empty(),
    {
        TenantStore { entries: Vec::new() }
    }

    /// With unique ids, any index holding `id` is the index `idx_of` picks.
    proof fn lemma_idx_at(self, id: Seq<char>, i: int)
        requires
            self.wf(),
            0 <= i < self.entries().len(),
            self.entries()[i].0 == id,
        ensures
            self.has_tenant(id),
            self.idx_of(id) == i,
    {
        assert(self.has_tenant(id));
        let k = self.idx_of(id);
        if k != i {
            if k < i {
                assert(self.entries()[k].0 != self.entries()[i].0);
            } else {
                assert(self.entries()[i].0 != self.entries()[k].0);
            }
        }
    }

    /// Record one more site for the tenant, at the end of its group.
    pub fn add_site(&mut self, tenant_id: TenantId, site: Site)
        requires
            old(self).wf(),
        ensures
            final(self).wf(),
            final(self).has_tenant(tenant_id@),
            final(self).sites_of(tenant_id@) == old(self).sites_of(tenant_id@).push(site@),
            forall|id: Seq<char>|
                id != tenant_id@ ==> #[trigger] final(self).sites_of(id) == old(self).sites_of(id)
                    && #[trigger] final(self).has_tenant(id) == old(self).has_tenant(id),
    {
        let ghost pre = *self;
        let ghost sv = site@;
        let mut i: usize = 0;
        while i < self.entries.len()
            invariant
                *self == pre,
                pre == *old(self),
                pre.wf(),
                i <= pre.entries().len(),
                site@ == sv,
                forall|k: int| 0 <= k < i ==> pre.entries()[k].0 != tenant_id@,
            decreases pre.entries().len() - i,
        {
            if string_eq(&self.entries[i].0, &tenant_id) {
                proof {
                    pre.lemma_idx_at(tenant_id@, i as int);
                }
                let (key, mut group) = self.entries.remove(i);
                group.push(site);
                self.entries.insert(i, (key, group));
                proof {
                    let postg = pre.entries()[i as int].1.push(sv);
                    assert(self.entries() =~~= pre.entries().update(
                        i as int,
                        (tenant_id@, postg),
                    ));
                    Self::lemma_group_update(pre, *self, i as int, tenant_id@, postg);
                }
                return;
            }
            proof {
                assert(pre.entries()[i as int].0 == pre.entries@[i as int].0@);
            }
            i += 1;
        }
        self.entries.push((tenant_id.clone(), vec_of_one(site)));
        proof {
            assert(self.entries() =~~= pre.entries().push((tenant_id@, seq![sv])));
            assert(!pre.has_tenant(tenant_id@));
            let n = pre.entries().len() as int;
            assert(self.entries()[n].0 == tenant_id@);
            self.lemma_idx_at(tenant_id@, n);
            assert(pre.sites_of(tenant_id@).push(sv) =~= seq![sv]);
            assert forall|id: Seq<char>| id != tenant_id@ implies #[trigger] final(self).sites_of(id)
                == pre.sites_of(id) && #[trigger] final(self).has_tenant(id) == pre.has_tenant(
                id,
            ) by {
                if pre.has_tenant(id) {
                    let k = pre.idx_of(id);
                    self.lemma_idx_at(id, k);
                }
                if self.has_tenant(id) {
                    let k = self.idx_of(id);
                    assert(k != n);
                    pre.lemma_idx_at(id, k);
                }
            }
        }
    }

    /// Updating one group in place, same tenant id, keeps every other
    /// group untouched.
    proof fn lemma_group_update(
        pre: Self,
        post: Self,
        i: int,
        id: Seq<char>,
        group: Seq<SiteContent>,
    )
        requires
            pre.wf(),
            0 <= i < pre.entries().len(),
            pre.entries()[i].0 == id,
            post.entries() == pre.entries().update(i, (id, group)),
        ensures
            post.wf(),
            post.has_tenant(id),
            post.sites_of(id) == group,
            forall|id2: Seq<char>|
                id2 != id ==> #[trigger] post.sites_of(id2) == pre.sites_of(id2)
                    && #[trigger] post.has_tenant(id2) == pre.has_tenant(id2),
    {
        assert(post.entries()[i].0 == id);
        post.lemma_idx_at(id, i);
        assert forall|id2: Seq<char>| id2 != id implies #[trigger] post.sites_of(id2)
            == pre.sites_of(id2) && #[trigger] post.has_tenant(id2) == pre.has_tenant(id2) by {
            if pre.has_tenant(id2) {
                let k = pre.idx_of(id2);
                assert(pre.entries()[k].0 == id2);
                assert(k != i);
                assert(post.entries()[k].0 == id2);
                post.lemma_idx_at(id2, k);
            }
            if post.has_tenant(id2) {
                let k = post.idx_of(id2);
                assert(post.entries()[k].0 == id2);
                assert(k != i);
                assert(pre.entries()[k].0 == id2);
                pre.lemma_idx_at(id2, k);
            }
        }
    }

    /// The sites recorded for the tenant, as copies; empty when the
    /// tenant has none.
    pub fn get_sites(&self, tenant_id: &TenantId) -> (r: Vec<Site>)
        requires
            self.wf(),
        ensures
            r@.map_values(|s: Site| s@) == self.sites_of(tenant_id@),
    {
        let mut i: usize = 0;
        while i < self.entries.len()
            invariant
                self.wf(),
                i <= self.entries().len(),
                forall|k: int| 0 <= k < i ==> self.entries()[k].0 != tenant_id@,
            decreases self.entries().len() - i,
        {
            if string_eq(&self.entries[i].0, tenant_id) {
                proof {
                    self.lemma_idx_at(tenant_id@, i as int);
                }
                return clone_sites(&self.entries[i].1);
            }
            proof {
                assert(self.entries()[i as int].0 == self.entries@[i as int].0@);
            }
            i += 1;
        }
        proof {
            assert(!self.has_tenant(tenant_id@));
            assert(Seq::<Site>::empty().map_values(|s: Site| s@) =~= Seq::<SiteContent>::empty());
        }
        Vec::new()
    }
}

/// A vector holding one site.
fn vec_of_one(site: Site) -> (r: Vec<Site>)
    ensures
        r@.map_values(|s: Site| s@) =~= seq![site@],
{
    let mut v: Vec<Site> = Vec::new();
    v.push(site);
    v
}

/// Copy a vector of sites.
pub fn clone_sites(v: &Vec<Site>) -> (r: Vec<Site>)
    ensures
        r@.map_values(|s: Site| s@) == v@.map_values(|s: Site| s@),
{
    let mut out: Vec<Site> = Vec::new();
    let mut i: usize = 0;
    while i < v.len()
        invariant
            i <= v@.len(),
            out@.len() == i,
            forall|k: int| 0 <= k < i ==> #[trigger] out@[k]@ == v@[k]@,
        decreases v@.len() - i,
    {
        out.push(v[i].clone());
        i += 1;
    }
    proof {
        assert(out@.map_values(|s: Site| s@) =~= v@.map_values(|s: Site| s@));
    }
    out
}

} // verus!

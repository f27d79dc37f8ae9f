//! The tenant access layer: the mapping from application tenants to
//! inventory tenants, and the checks that every resource read or listed
//! belongs to the calling tenant.
use vstd::prelude::*;
use crate::errors::AppError;
use crate::models::{NetBoxSite, NetBoxDevice, SiteContent, DeviceContent};
use crate::strutil::string_eq;

verus! {

/// The application-level tenant identifier.
pub type TenantId = String;

/// The inventory's tenant identifier.
pub type NetBoxTenantId = i32;

/// The mapping from application tenant ids to inventory tenant ids.
pub struct TenantMappingService {
    entries: Vec<(String, i32)>,
}

impl TenantMappingService {
    /// The mapping entries, in registration order.
    pub closed spec fn entries(self) -> Seq<(Seq<char>, i32)> {
        self.entries@.map_values(|e: (String, i32)| (e.0@, e.1))
    }

    /// Tenant ids are unique among the entries.
    pub open spec fn wf(self) -> bool {
        forall|i: int, j: int|
            0 <= i < j < self.entries().len() ==> self.entries()[i].0 != self.entries()[j].0
    }

    /// Whether the tenant has a mapping.
    pub open spec fn spec_has_mapping(self, id: Seq<char>) -> bool {
        exists|i: int| 0 <= i < self.entries().len() && self.entries()[i].0 == id
    }

    /// The index of the tenant's entry.
    pub open spec fn idx_of(self, id: Seq<char>) -> int {
        choose|i: int| 0 <= i < self.entries().len() && self.entries()[i].0 == id
    }

    /// The inventory tenant the application tenant maps to.
    pub open spec fn mapped(self, id: Seq<char>) -> i32 {
        self.entries()[self.idx_of(id)].1
    }

    pub fn new() -> (r: Self)
        ensures
            r.wf(),
            r.entries() == Seq::<(Seq<char>, i32)>::empty(),
    {
        TenantMappingService { entries: Vec::new() }
    }

    /// With unique ids, any index holding `id` is the index `idx_of` picks.
    proof fn lemma_idx_at(self, id: Seq<char>, i: int)
        requires
            self.wf(),
            0 <= i < self.entries().len(),
            self.entries()[i].0 == id,
        ensures
            self.spec_has_mapping(id),
            self.idx_of(id) == i,
    {
        assert(self.spec_has_mapping(id));
        let k = self.idx_of(id);
        if k != i {
            if k < i {
                assert(self.entries()[k].0 != self.entries()[i].0);
            } else {
                assert(self.entries()[i].0 != self.entries()[k].0);
            }
        }
    }

    /// Register the tenant's inventory id, replacing any earlier mapping.
    pub fn register_mapping(&mut self, tenant_id: TenantId, netbox_tenant_id: NetBoxTenantId)
        requires
            old(self).wf(),
        ensures
            final(self).wf(),
            final(self).spec_has_mapping(tenant_id@),
            final(self).mapped(tenant_id@) == netbox_tenant_id,
            forall|id: Seq<char>|
                id != tenant_id@ ==> #[trigger] final(self).spec_has_mapping(id) == old(self).spec_has_mapping(id),
            forall|id: Seq<char>|
                id != tenant_id@ && old(self).spec_has_mapping(id) ==> #[trigger] final(self).mapped(id) == old(self).mapped(id),
    {
        let ghost pre = *self;
        let mut i: usize = 0;
        while i < self.entries.len()
            invariant
                *self == pre,
                pre == *old(self),
                pre.wf(),
                i <= pre.entries().len(),
                forall|k: int| 0 <= k < i ==> pre.entries()[k].0 != tenant_id@,
            decreases pre.entries().len() - i,
        {
            if string_eq(&self.entries[i].0, &tenant_id) {
                proof {
                    pre.lemma_idx_at(tenant_id@, i as int);
                }
                self.entries.set(i, (tenant_id.clone(), netbox_tenant_id));
                proof {
                    assert(self.entries() =~= pre.entries().update(
                        i as int,
                        (tenant_id@, netbox_tenant_id),
                    ));
                    assert forall|p: int, q: int|
                        0 <= p < q < self.entries().len() implies self.entries()[p].0
                        != self.entries()[q].0 by {
                        assert(pre.entries()[p].0 != pre.entries()[q].0);
                    }
                    self.lemma_idx_at(tenant_id@, i as int);
                    assert forall|id: Seq<char>| id != tenant_id@ implies #[trigger] self.spec_has_mapping(
                        id,
                    ) == pre.spec_has_mapping(id) by {
                        if pre.spec_has_mapping(id) {
                            let k = pre.idx_of(id);
                            assert(self.entries()[k].0 == id);
                            self.lemma_idx_at(id, k);
                        }
                        if self.spec_has_mapping(id) {
                            let k = self.idx_of(id);
                            assert(pre.entries()[k].0 == id);
                            pre.lemma_idx_at(id, k);
                        }
                    }
                    assert forall|id: Seq<char>|
                        id != tenant_id@ && pre.spec_has_mapping(id) implies #[trigger] self.mapped(
                        id,
                    ) == pre.mapped(id) by {
                        let k = pre.idx_of(id);
                        assert(self.entries()[k].0 == id);
                        self.lemma_idx_at(id, k);
                    }
                }
                return;
            }
            proof {
                assert(pre.entries()[i as int].0 == pre.entries@[i as int].0@);
            }
            i += 1;
        }
        self.entries.push((tenant_id.clone(), netbox_tenant_id));
        proof {
            assert(self.entries() =~= pre.entries().push((tenant_id@, netbox_tenant_id)));
            let n = pre.entries().len() as int;
            assert forall|p: int, q: int|
                0 <= p < q < self.entries().len() implies self.entries()[p].0
                != self.entries()[q].0 by {
                if q < n {
                    assert(pre.entries()[p].0 != pre.entries()[q].0);
                }
            }
            self.lemma_idx_at(tenant_id@, n);
            assert forall|id: Seq<char>| id != tenant_id@ implies #[trigger] self.spec_has_mapping(
                id,
            ) == pre.spec_has_mapping(id) by {
                if pre.spec_has_mapping(id) {
                    let k = pre.idx_of(id);
                    assert(self.entries()[k].0 == id);
                    self.lemma_idx_at(id, k);
                }
                if self.spec_has_mapping(id) {
                    let k = self.idx_of(id);
                    assert(k != n);
                    assert(pre.entries()[k].0 == id);
                    pre.lemma_idx_at(id, k);
                }
            }
            assert forall|id: Seq<char>|
                id != tenant_id@ && pre.spec_has_mapping(id) implies #[trigger] self.mapped(id)
                == pre.mapped(id) by {
                let k = pre.idx_of(id);
                assert(self.entries()[k].0 == id);
                self.lemma_idx_at(id, k);
            }
        }
    }

    /// The inventory tenant of an application tenant, if registered.
    pub fn get_netbox_tenant_id(&self, tenant_id: &TenantId) -> (r: Option<NetBoxTenantId>)
        requires
            self.wf(),
        ensures
            r is Some <==> self.spec_has_mapping(tenant_id@),
            r matches Some(v) ==> v == self.mapped(tenant_id@),
    {
        let mut i: usize = 0;
        while i < self.entries.len()
            invariant
                self.wf(),
                i <= self.entries().len(),
                forall|k: int| 0 <= k < i ==> self.entries()[k].0 != tenant_id@,
            decreases self.entries().len() - i,
        {
            if string_eq(&self.entries[i].0, tenant_id) {
                proof {
                    self.lemma_idx_at(tenant_id@, i as int);
                }
                return Some(self.entries[i].1);
            }
            proof {
                assert(self.entries()[i as int].0 == self.entries@[i as int].0@);
            }
            i += 1;
        }
        None
    }

    /// Whether the tenant has a mapping.
    pub fn has_mapping(&self, tenant_id: &TenantId) -> (r: bool)
        requires
            self.wf(),
        ensures
            r == self.spec_has_mapping(tenant_id@),
    {
        match self.get_netbox_tenant_id(tenant_id) {
            Some(_) => true,
            None => false,
        }
    }

    /// Remove the tenant's mapping, if any.
    pub fn remove_mapping(&mut self, tenant_id: &TenantId)
        requires
            old(self).wf(),
        ensures
            final(self).wf(),
            !final(self).spec_has_mapping(tenant_id@),
            forall|id: Seq<char>|
                id != tenant_id@ ==> #[trigger] final(self).spec_has_mapping(id) == old(self).spec_has_mapping(id),
            forall|id: Seq<char>|
                id != tenant_id@ && old(self).spec_has_mapping(id) ==> #[trigger] final(self).mapped(id) == old(self).mapped(id),
    {
        let ghost pre = *self;
        let mut i: usize = 0;
        while i < self.entries.len()
            invariant
                *self == pre,
                pre == *old(self),
                pre.wf(),
                i <= pre.entries().len(),
                forall|k: int| 0 <= k < i ==> pre.entries()[k].0 != tenant_id@,
            decreases pre.entries().len() - i,
        {
            if string_eq(&self.entries[i].0, tenant_id) {
                proof {
                    pre.lemma_idx_at(tenant_id@, i as int);
                }
                self.entries.remove(i);
                proof {
                    assert(self.entries() =~= pre.entries().remove(i as int));
                    assert forall|p: int, q: int|
                        0 <= p < q < self.entries().len() implies self.entries()[p].0
                        != self.entries()[q].0 by {
                        let pp: int = if p < i as int { p } else { p + 1 };
                        let pq: int = if q < i as int { q } else { q + 1 };
                        assert(pre.entries()[pp].0 != pre.entries()[pq].0);
                    }
                    assert forall|k: int|
                        0 <= k < self.entries().len() implies self.entries()[k].0 != tenant_id@ by {
                        let pk: int = if k < i as int { k } else { k + 1 };
                        assert(self.entries()[k].0 == pre.entries()[pk].0);
                        if pre.entries()[pk].0 == tenant_id@ {
                            pre.lemma_idx_at(tenant_id@, pk);
                        }
                    }
                    assert forall|id: Seq<char>| id != tenant_id@ implies #[trigger] self.spec_has_mapping(
                        id,
                    ) == pre.spec_has_mapping(id) by {
                        if pre.spec_has_mapping(id) {
                            let k = pre.idx_of(id);
                            let sk: int = if k < i as int { k } else { k - 1 };
                            assert(pre.entries()[k].0 == id);
                            assert(k != i);
                            assert(self.entries()[sk].0 == id);
                            self.lemma_idx_at(id, sk);
                        }
                        if self.spec_has_mapping(id) {
                            let k = self.idx_of(id);
                            let pk: int = if k < i as int { k } else { k + 1 };
                            assert(self.entries()[k].0 == id);
                            assert(pre.entries()[pk].0 == id);
                            pre.lemma_idx_at(id, pk);
                        }
                    }
                    assert forall|id: Seq<char>|
                        id != tenant_id@ && pre.spec_has_mapping(id) implies #[trigger] self.mapped(
                        id,
                    ) == pre.mapped(id) by {
                        let k = pre.idx_of(id);
                        let sk: int = if k < i as int { k } else { k - 1 };
                        assert(pre.entries()[k].0 == id);
                        assert(k != i);
                        assert(self.entries()[sk].0 == id);
                        self.lemma_idx_at(id, sk);
                    }
                }
                return;
            }
            proof {
                assert(pre.entries()[i as int].0 == pre.entries@[i as int].0@);
            }
            i += 1;
        }
        proof {
            assert(!self.spec_has_mapping(tenant_id@));
        }
    }

    /// Every registered application tenant id, in registration order.
    pub fn get_all_tenant_ids(&self) -> (r: Vec<TenantId>)
        ensures
            r.deep_view() == self.entries().map_values(|e: (Seq<char>, i32)| e.0),
    {
        let mut out: Vec<String> = Vec::new();
        let mut i: usize = 0;
        while i < self.entries.len()
            invariant
                i <= self.entries().len(),
                out@.len() == i,
                forall|k: int| 0 <= k < i ==> #[trigger] out@[k]@ == self.entries()[k].0,
            decreases self.entries().len() - i,
        {
            out.push(self.entries[i].0.clone());
            proof {
                assert(self.entries()[i as int].0 == self.entries@[i as int].0@);
            }
            i += 1;
        }
        proof {
            assert(out.deep_view() =~= self.entries().map_values(|e: (Seq<char>, i32)| e.0));
        }
        out
    }
}

/// Checks that resources belong to the tenant that asks for them.
pub struct TenantAccessControl {
    mapping_service: TenantMappingService,
}

impl TenantAccessControl {
    /// The underlying mapping.
    pub closed spec fn mapping(self) -> TenantMappingService {
        self.mapping_service
    }

    pub open spec fn wf(self) -> bool {
        self.mapping().wf()
    }

    pub fn new(mapping_service: TenantMappingService) -> (r: Self)
        ensures
            r.mapping() == mapping_service,
    {
        TenantAccessControl { mapping_service }
    }

    /// The underlying mapping service.
    pub fn mapping_service(&self) -> (r: &TenantMappingService)
        ensures
            r == &self.mapping(),
    {
        &self.mapping_service
    }

    /// Allow access to a site only when the tenant is registered and the
    /// site's inventory tenant equals the tenant's mapped id; a site
    /// without a tenant is never visible.
    pub fn verify_site_access(&self, tenant_id: &TenantId, site: &NetBoxSite) -> (r: Result<
        (),
        AppError,
    >)
        requires
            self.wf(),
        ensures
            r is Ok <==> self.mapping().spec_has_mapping(tenant_id@) && site@.tenant == Some(
                self.mapping().mapped(tenant_id@),
            ),
            r is Err ==> r matches Err(AppError::Unauthorized),
    {
        let mapped = match self.mapping_service.get_netbox_tenant_id(tenant_id) {
            Some(m) => m,
            None => {
                return Err(AppError::Unauthorized);
            },
        };
        match site.tenant {
            Some(t) => {
                if t == mapped {
                    Ok(())
                } else {
                    Err(AppError::Unauthorized)
                }
            },
            None => Err(AppError::Unauthorized),
        }
    }

    /// Allow access to a device only when the tenant is registered and
    /// the device's inventory tenant equals the tenant's mapped id.
    pub fn verify_device_access(&self, tenant_id: &TenantId, device: &NetBoxDevice) -> (r: Result<
        (),
        AppError,
    >)
        requires
            self.wf(),
        ensures
            r is Ok <==> self.mapping().spec_has_mapping(tenant_id@) && device@.tenant == Some(
                self.mapping().mapped(tenant_id@),
            ),
            r is Err ==> r matches Err(AppError::Unauthorized),
    {
        let mapped = match self.mapping_service.get_netbox_tenant_id(tenant_id) {
            Some(m) => m,
            None => {
                return Err(AppError::Unauthorized);
            },
        };
        match device.tenant {
            Some(t) => {
                if t == mapped {
                    Ok(())
                } else {
                    Err(AppError::Unauthorized)
                }
            },
            None => Err(AppError::Unauthorized),
        }
    }

    /// The inventory tenant of an application tenant, if registered.
    pub fn get_netbox_tenant_id(&self, tenant_id: &TenantId) -> (r: Option<NetBoxTenantId>)
        requires
            self.wf(),
        ensures
            r is Some <==> self.mapping().spec_has_mapping(tenant_id@),
            r matches Some(v) ==> v == self.mapping().mapped(tenant_id@),
    {
        self.mapping_service.get_netbox_tenant_id(tenant_id)
    }

    /// Keep exactly the sites whose inventory tenant is the tenant's
    /// mapped id; an unknown tenant gets Unauthorized.
    pub fn filter_sites_by_tenant(&self, tenant_id: &TenantId, sites: Vec<NetBoxSite>) -> (r:
        Result<Vec<NetBoxSite>, AppError>)
        requires
            self.wf(),
        ensures
            r is Ok <==> self.mapping().spec_has_mapping(tenant_id@),
            r matches Ok(v) ==> v@.map_values(|s: NetBoxSite| s@) == sites@.map_values(
                |s: NetBoxSite| s@,
            ).filter(
                |sv: SiteContent| sv.tenant == Some(self.mapping().mapped(tenant_id@)),
            ),
            r is Err ==> r matches Err(AppError::Unauthorized),
    {
        let mapped = match self.mapping_service.get_netbox_tenant_id(tenant_id) {
            Some(m) => m,
            None => {
                return Err(AppError::Unauthorized);
            },
        };
        let ghost pred = |sv: SiteContent| sv.tenant == Some(self.mapping().mapped(tenant_id@));
        let ghost all = sites@.map_values(|s: NetBoxSite| s@);
        let mut out: Vec<NetBoxSite> = Vec::new();
        proof {
            assert(all.take(0) =~= Seq::<SiteContent>::empty());
            reveal_with_fuel(Seq::filter, 1);
        }
        let n = sites.len();
        let mut rest = sites;
        let mut i: usize = 0;
        while i < n
            invariant
                n == all.len(),
                i <= n,
                rest@.map_values(|s: NetBoxSite| s@) == all,
                out@.map_values(|s: NetBoxSite| s@) == all.take(i as int).filter(pred),
                pred == (|sv: SiteContent| sv.tenant == Some(mapped)),
                mapped == self.mapping().mapped(tenant_id@),
            decreases n - i,
        {
            let ghost prefix = all.take(i as int);
            proof {
                assert(all.take(i + 1).drop_last() =~= prefix);
                assert(all.take(i + 1).last() == all[i as int]);
                reveal(Seq::filter);
            }
            let keep = match rest[i].tenant {
                Some(t) => t == mapped,
                None => false,
            };
            if keep {
                out.push(rest[i].clone());
            }
            proof {
                assert(out@.map_values(|s: NetBoxSite| s@) =~= all.take(i + 1).filter(pred));
            }
            i += 1;
        }
        proof {
            assert(all.take(n as int) =~= all);
        }
        Ok(out)
    }

    /// Keep exactly the devices whose inventory tenant is the tenant's
    /// mapped id; an unknown tenant gets Unauthorized.
    pub fn filter_devices_by_tenant(&self, tenant_id: &TenantId, devices: Vec<NetBoxDevice>) -> (r:
        Result<Vec<NetBoxDevice>, AppError>)
        requires
            self.wf(),
        ensures
            r is Ok <==> self.mapping().spec_has_mapping(tenant_id@),
            r matches Ok(v) ==> v@.map_values(|d: NetBoxDevice| d@) == devices@.map_values(
                |d: NetBoxDevice| d@,
            ).filter(
                |dv: DeviceContent| dv.tenant == Some(self.mapping().mapped(tenant_id@)),
            ),
            r is Err ==> r matches Err(AppError::Unauthorized),
    {
        let mapped = match self.mapping_service.get_netbox_tenant_id(tenant_id) {
            Some(m) => m,
            None => {
                return Err(AppError::Unauthorized);
            },
        };
        let ghost pred = |dv: DeviceContent| dv.tenant == Some(self.mapping().mapped(tenant_id@));
        let ghost all = devices@.map_values(|d: NetBoxDevice| d@);
        let mut out: Vec<NetBoxDevice> = Vec::new();
        proof {
            assert(all.take(0) =~= Seq::<DeviceContent>::empty());
            reveal_with_fuel(Seq::filter, 1);
        }
        let n = devices.len();
        let rest = devices;
        let mut i: usize = 0;
        while i < n
            invariant
                n == all.len(),
                i <= n,
                rest@.map_values(|d: NetBoxDevice| d@) == all,
                out@.map_values(|d: NetBoxDevice| d@) == all.take(i as int).filter(pred),
                pred == (|dv: DeviceContent| dv.tenant == Some(mapped)),
                mapped == self.mapping().mapped(tenant_id@),
            decreases n - i,
        {
            let ghost prefix = all.take(i as int);
            proof {
                assert(all.take(i + 1).drop_last() =~= prefix);
                assert(all.take(i + 1).last() == all[i as int]);
                reveal(Seq::filter);
            }
            let keep = match rest[i].tenant {
                Some(t) => t == mapped,
                None => false,
            };
            if keep {
                out.push(rest[i].clone());
            }
            proof {
                assert(out@.map_values(|d: NetBoxDevice| d@) =~= all.take(i + 1).filter(pred));
            }
            i += 1;
        }
        proof {
            assert(all.take(n as int) =~= all);
        }
        Ok(out)
    }

    /// The front half of a tenant-scoped list read: the inventory tenant
    /// the upstream query is filtered by. An unknown tenant fails with
    /// Unauthorized before any upstream call is made; the caller passes
    /// the returned id upstream as the filter and applies
    /// `filter_sites_by_tenant` to the results again — defense in depth.
    pub fn upstream_filter(&self, tenant_id: &TenantId) -> (r: Result<NetBoxTenantId, AppError>)
        requires
            self.wf(),
        ensures
            r is Ok <==> self.mapping().spec_has_mapping(tenant_id@),
            r matches Ok(m) ==> m == self.mapping().mapped(tenant_id@),
            r is Err ==> r matches Err(AppError::Unauthorized),
    {
        match self.mapping_service.get_netbox_tenant_id(tenant_id) {
            Some(m) => Ok(m),
            None => Err(AppError::Unauthorized),
        }
    }

    /// Whether the tenant maps exactly to the given inventory tenant.
    pub fn has_access_to_netbox_tenant(
        &self,
        tenant_id: &TenantId,
        netbox_tenant_id: NetBoxTenantId,
    ) -> (r: bool)
        requires
            self.wf(),
        ensures
            r == (self.mapping().spec_has_mapping(tenant_id@) && self.mapping().mapped(tenant_id@)
                == netbox_tenant_id),
    {
        match self.mapping_service.get_netbox_tenant_id(tenant_id) {
            Some(m) => m == netbox_tenant_id,
            None => false,
        }
    }
}

/// Tenant-scoped visibility of resources, over the access checks.
pub struct TenantResourceVisibility {
    access_control: TenantAccessControl,
}

impl TenantResourceVisibility {
    pub closed spec fn mapping(self) -> TenantMappingService {
        self.access_control.mapping()
    }

    pub open spec fn wf(self) -> bool {
        self.mapping().wf()
    }

    pub fn new(access_control: TenantAccessControl) -> (r: Self)
        ensures
            r.mapping() == access_control.mapping(),
    {
        TenantResourceVisibility { access_control }
    }

    /// Fail with Unauthorized unless the site belongs to the tenant.
    pub fn ensure_site_visible(&self, tenant_id: &TenantId, site: &NetBoxSite) -> (r: Result<
        (),
        AppError,
    >)
        requires
            self.wf(),
        ensures
            r is Ok <==> self.mapping().spec_has_mapping(tenant_id@) && site@.tenant == Some(
                self.mapping().mapped(tenant_id@),
            ),
            r is Err ==> r matches Err(AppError::Unauthorized),
    {
        self.access_control.verify_site_access(tenant_id, site)
    }

    /// Fail with Unauthorized unless the device belongs to the tenant.
    pub fn ensure_device_visible(&self, tenant_id: &TenantId, device: &NetBoxDevice) -> (r: Result<
        (),
        AppError,
    >)
        requires
            self.wf(),
        ensures
            r is Ok <==> self.mapping().spec_has_mapping(tenant_id@) && device@.tenant == Some(
                self.mapping().mapped(tenant_id@),
            ),
            r is Err ==> r matches Err(AppError::Unauthorized),
    {
        self.access_control.verify_device_access(tenant_id, device)
    }

    /// The tenant's sites out of a list: exactly the ones whose tenant
    /// is the tenant's mapped id.
    pub fn get_tenant_sites(&self, tenant_id: &TenantId, sites: Vec<NetBoxSite>) -> (r: Result<
        Vec<NetBoxSite>,
        AppError,
    >)
        requires
            self.wf(),
        ensures
            r is Ok <==> self.mapping().spec_has_mapping(tenant_id@),
            r matches Ok(v) ==> v@.map_values(|s: NetBoxSite| s@) == sites@.map_values(
                |s: NetBoxSite| s@,
            ).filter(
                |sv: SiteContent| sv.tenant == Some(self.mapping().mapped(tenant_id@)),
            ),
            r is Err ==> r matches Err(AppError::Unauthorized),
    {
        self.access_control.filter_sites_by_tenant(tenant_id, sites)
    }

    /// The tenant's devices out of a list: exactly the ones whose tenant
    /// is the tenant's mapped id.
    pub fn get_tenant_devices(&self, tenant_id: &TenantId, devices: Vec<NetBoxDevice>) -> (r:
        Result<Vec<NetBoxDevice>, AppError>)
        requires
            self.wf(),
        ensures
            r is Ok <==> self.mapping().spec_has_mapping(tenant_id@),
            r matches Ok(v) ==> v@.map_values(|d: NetBoxDevice| d@) == devices@.map_values(
                |d: NetBoxDevice| d@,
            ).filter(
                |dv: DeviceContent| dv.tenant == Some(self.mapping().mapped(tenant_id@)),
            ),
            r is Err ==> r matches Err(AppError::Unauthorized),
    {
        self.access_control.filter_devices_by_tenant(tenant_id, devices)
    }
}

/// Every resource the access layer lets through belongs to the calling
/// tenant, and nothing of the tenant's is dropped: a read that verifies
/// returns a resource whose tenant is the tenant's mapped inventory id,
/// and a filtered list holds exactly the input's resources with that
/// tenant.
/// The sites of a list that the access layer lets a tenant see.
pub open spec fn tenant_filtered_sites(
    sites: Seq<SiteContent>,
    m: TenantMappingService,
    t: Seq<char>,
) -> Seq<SiteContent> {
    sites.filter(|sv: SiteContent| sv.tenant == Some(m.mapped(t)))
}

pub proof fn lemma_tenant_isolation(
    m: TenantMappingService,
    t: Seq<char>,
    sites: Seq<SiteContent>,
)
    requires
        m.wf(),
        m.spec_has_mapping(t),
    ensures
        forall|i: int|
            0 <= i < tenant_filtered_sites(sites, m, t).len() ==> #[trigger] tenant_filtered_sites(
                sites,
                m,
                t,
            )[i].tenant == Some(m.mapped(t)),
        forall|i: int|
            0 <= i < sites.len() && (#[trigger] sites[i]).tenant == Some(m.mapped(t))
                ==> tenant_filtered_sites(sites, m, t).contains(sites[i]),
{
    let pred = |sv: SiteContent| sv.tenant == Some(m.mapped(t));
    assert forall|i: int| 0 <= i < tenant_filtered_sites(sites, m, t).len() implies #[trigger] tenant_filtered_sites(
        sites,
        m,
        t,
    )[i].tenant == Some(m.mapped(t)) by {
        sites.lemma_filter_pred(pred, i);
    }
    assert forall|i: int|
        0 <= i < sites.len() && (#[trigger] sites[i]).tenant == Some(m.mapped(t))
        implies tenant_filtered_sites(sites, m, t).contains(sites[i]) by {
        sites.lemma_filter_contains(pred, i);
    }
}

} // verus!

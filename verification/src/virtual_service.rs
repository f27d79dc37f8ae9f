//! The virtual resource service: a store of virtual resources per kind
//! and the mappings tying them to physical inventory records.
use vstd::prelude::*;
use crate::ident::new_order_id;
use crate::strutil::str_eq;
use crate::virtual_map::{MappingManager, MappingType, MappingContent, ResourceMapping};
use crate::virtual_models::{VirtualDevice, VirtualNetwork, VirtualResourceType, VirtualSite};

verus! {

/// The store of virtual resources, per kind.
pub struct VirtualResourceStore {
    sites: Vec<VirtualSite>,
    devices: Vec<VirtualDevice>,
    networks: Vec<VirtualNetwork>,
}

impl VirtualResourceStore {
    /// The ids of the stored virtual sites.
    pub closed spec fn site_ids(self) -> Seq<Seq<char>> {
        self.sites@.map_values(|s: VirtualSite| s.id@)
    }

    /// The ids of the stored virtual devices.
    pub closed spec fn device_ids(self) -> Seq<Seq<char>> {
        self.devices@.map_values(|d: VirtualDevice| d.id@)
    }

    /// The ids of the stored virtual networks.
    pub closed spec fn network_ids(self) -> Seq<Seq<char>> {
        self.networks@.map_values(|n: VirtualNetwork| n.id@)
    }

    pub fn new() -> (r: Self)
        ensures
            r.site_ids() == Seq::<Seq<char>>::empty(),
    {
        let r = VirtualResourceStore { sites: Vec::new(), devices: Vec::new(), networks: Vec::new() };
        proof {
            assert(r.site_ids() =~= Seq::<Seq<char>>::empty());
        }
        r
    }

    /// Store a fresh virtual site under the given id and hand a copy
    /// back.
    pub fn create_virtual_site(&mut self, id: String, name: String, tenant_id: String) -> (r:
        VirtualSite)
        ensures
            r.id@ == id@,
            r.name@ == name@,
            r.tenant_id@ == tenant_id@,
            final(self).site_ids() == old(self).site_ids().push(id@),
    {
        let site = VirtualSite::new(id, name, tenant_id);
        let copy = site.clone();
        let ghost idv = site.id@;
        self.sites.push(site);
        proof {
            assert(self.site_ids() =~= old(self).site_ids().push(idv));
        }
        copy
    }

    /// The stored virtual site with the given id, as a copy.
    pub fn get_virtual_site(&self, id: &str) -> (r: Option<VirtualSite>)
        ensures
            r is Some <==> self.site_ids().contains(id@),
            r matches Some(s) ==> s.id@ == id@,
    {
        let mut i: usize = 0;
        while i < self.sites.len()
            invariant
                i <= self.site_ids().len(),
                forall|k: int| 0 <= k < i ==> self.site_ids()[k] != id@,
            decreases self.site_ids().len() - i,
        {
            if str_eq(self.sites[i].id.as_str(), id) {
                proof {
                    assert(self.site_ids()[i as int] == id@);
                }
                return Some(self.sites[i].clone());
            }
            proof {
                assert(self.site_ids()[i as int] == self.sites@[i as int].id@);
            }
            i += 1;
        }
        proof {
            if self.site_ids().contains(id@) {
                let k = choose|k: int|
                    0 <= k < self.site_ids().len() && self.site_ids()[k] == id@;
                assert(false);
            }
        }
        None
    }

    /// The stored virtual sites of a tenant.
    pub fn get_tenant_virtual_sites(&self, tenant_id: &str) -> (r: Vec<VirtualSite>)
        ensures
            forall|k: int| 0 <= k < r@.len() ==> #[trigger] r@[k].tenant_id@ == tenant_id@,
    {
        let mut out: Vec<VirtualSite> = Vec::new();
        let mut i: usize = 0;
        while i < self.sites.len()
            invariant
                i <= self.sites@.len(),
                forall|k: int| 0 <= k < out@.len() ==> #[trigger] out@[k].tenant_id@ == tenant_id@,
            decreases self.sites@.len() - i,
        {
            if str_eq(self.sites[i].tenant_id.as_str(), tenant_id) {
                out.push(self.sites[i].clone());
            }
            i += 1;
        }
        out
    }

    /// Store a fresh virtual device and hand a copy back.
    pub fn create_virtual_device(&mut self, id: String, name: String, tenant_id: String) -> (r:
        VirtualDevice)
        ensures
            r.id@ == id@,
            r.name@ == name@,
            r.tenant_id@ == tenant_id@,
            final(self).device_ids() == old(self).device_ids().push(id@),
    {
        let device = VirtualDevice::new(id, name, tenant_id);
        let copy = device.clone();
        let ghost idv = device.id@;
        self.devices.push(device);
        proof {
            assert(self.device_ids() =~= old(self).device_ids().push(idv));
        }
        copy
    }

    /// The stored virtual device with the given id, as a copy.
    pub fn get_virtual_device(&self, id: &str) -> (r: Option<VirtualDevice>)
        ensures
            r is Some <==> self.device_ids().contains(id@),
            r matches Some(d) ==> d.id@ == id@,
    {
        let mut i: usize = 0;
        while i < self.devices.len()
            invariant
                i <= self.device_ids().len(),
                forall|k: int| 0 <= k < i ==> self.device_ids()[k] != id@,
            decreases self.device_ids().len() - i,
        {
            if str_eq(self.devices[i].id.as_str(), id) {
                proof {
                    assert(self.device_ids()[i as int] == id@);
                }
                return Some(self.devices[i].clone());
            }
            proof {
                assert(self.device_ids()[i as int] == self.devices@[i as int].id@);
            }
            i += 1;
        }
        proof {
            if self.device_ids().contains(id@) {
                let k = choose|k: int|
                    0 <= k < self.device_ids().len() && self.device_ids()[k] == id@;
                assert(false);
            }
        }
        None
    }

    /// The stored virtual devices of a tenant.
    pub fn get_tenant_virtual_devices(&self, tenant_id: &str) -> (r: Vec<VirtualDevice>)
        ensures
            forall|k: int| 0 <= k < r@.len() ==> #[trigger] r@[k].tenant_id@ == tenant_id@,
    {
        let mut out: Vec<VirtualDevice> = Vec::new();
        let mut i: usize = 0;
        while i < self.devices.len()
            invariant
                i <= self.devices@.len(),
                forall|k: int| 0 <= k < out@.len() ==> #[trigger] out@[k].tenant_id@ == tenant_id@,
            decreases self.devices@.len() - i,
        {
            if str_eq(self.devices[i].tenant_id.as_str(), tenant_id) {
                out.push(self.devices[i].clone());
            }
            i += 1;
        }
        out
    }

    /// Store a fresh virtual network and hand a copy back.
    pub fn create_virtual_network(&mut self, id: String, name: String, tenant_id: String) -> (r:
        VirtualNetwork)
        ensures
            r.id@ == id@,
            r.name@ == name@,
            r.tenant_id@ == tenant_id@,
            final(self).network_ids() == old(self).network_ids().push(id@),
    {
        let network = VirtualNetwork::new(id, name, tenant_id);
        let copy = network.clone();
        let ghost idv = network.id@;
        self.networks.push(network);
        proof {
            assert(self.network_ids() =~= old(self).network_ids().push(idv));
        }
        copy
    }

    /// The stored virtual network with the given id, as a copy.
    pub fn get_virtual_network(&self, id: &str) -> (r: Option<VirtualNetwork>)
        ensures
            r is Some <==> self.network_ids().contains(id@),
            r matches Some(n) ==> n.id@ == id@,
    {
        let mut i: usize = 0;
        while i < self.networks.len()
            invariant
                i <= self.network_ids().len(),
                forall|k: int| 0 <= k < i ==> self.network_ids()[k] != id@,
            decreases self.network_ids().len() - i,
        {
            if str_eq(self.networks[i].id.as_str(), id) {
                proof {
                    assert(self.network_ids()[i as int] == id@);
                }
                return Some(self.networks[i].clone());
            }
            proof {
                assert(self.network_ids()[i as int] == self.networks@[i as int].id@);
            }
            i += 1;
        }
        proof {
            if self.network_ids().contains(id@) {
                let k = choose|k: int|
                    0 <= k < self.network_ids().len() && self.network_ids()[k] == id@;
                assert(false);
            }
        }
        None
    }

    /// The stored virtual networks of a tenant.
    pub fn get_tenant_virtual_networks(&self, tenant_id: &str) -> (r: Vec<VirtualNetwork>)
        ensures
            forall|k: int| 0 <= k < r@.len() ==> #[trigger] r@[k].tenant_id@ == tenant_id@,
    {
        let mut out: Vec<VirtualNetwork> = Vec::new();
        let mut i: usize = 0;
        while i < self.networks.len()
            invariant
                i <= self.networks@.len(),
                forall|k: int| 0 <= k < out@.len() ==> #[trigger] out@[k].tenant_id@ == tenant_id@,
            decreases self.networks@.len() - i,
        {
            if str_eq(self.networks[i].tenant_id.as_str(), tenant_id) {
                out.push(self.networks[i].clone());
            }
            i += 1;
        }
        out
    }
}

/// The virtual resource service: the store and the mapping manager.
pub struct VirtualResourceService {
    pub store: VirtualResourceStore,
    pub mapping_manager: MappingManager,
}

impl VirtualResourceService {
    pub fn new() -> (r: Self)
        ensures
            r.mapping_manager.entries() == Seq::<MappingContent>::empty(),
    {
        VirtualResourceService { store: VirtualResourceStore::new(), mapping_manager: MappingManager::new() }
    }

    /// Create a virtual site under a fresh id and map it to the given
    /// physical sites: one-to-one for a single site, one-to-many for
    /// several.
    pub fn create_virtual_site(
        &mut self,
        name: String,
        tenant_id: String,
        physical_site_ids: Vec<i32>,
    ) -> (r: VirtualSite)
        ensures
            r.name@ == name@,
            r.tenant_id@ == tenant_id@,
            r.id@.len() == 36,
            final(self).mapping_manager.entries().len() == old(self).mapping_manager.entries().len()
                + physical_site_ids@.len(),
    {
        let id = new_order_id();
        let virtual_site = self.store.create_virtual_site(id.clone(), name, tenant_id.clone());
        let mapping_type = if physical_site_ids.len() <= 1 {
            MappingType::OneToOne
        } else {
            MappingType::OneToMany
        };
        let mut i: usize = 0;
        while i < physical_site_ids.len()
            invariant
                i <= physical_site_ids@.len(),
                self.mapping_manager.entries().len() == old(self).mapping_manager.entries().len()
                    + i,
            decreases physical_site_ids@.len() - i,
        {
            self.mapping_manager.create_mapping(
                id.clone(),
                VirtualResourceType::Site,
                physical_site_ids[i],
                VirtualResourceType::Site,
                tenant_id.clone(),
                mapping_type,
            );
            i += 1;
        }
        virtual_site
    }

    /// The virtual site with its mapped physical ids, if stored.
    pub fn get_virtual_site_with_mappings(&self, virtual_id: &str) -> (r: Option<
        (VirtualSite, Vec<i32>),
    >)
        ensures
            r matches Some(p) ==> p.0.id@ == virtual_id@,
    {
        let virtual_site = match self.store.get_virtual_site(virtual_id) {
            Some(s) => s,
            None => {
                return None;
            },
        };
        let mappings = self.mapping_manager.get_physical_resources(virtual_id);
        let mut physical_ids: Vec<i32> = Vec::new();
        let mut i: usize = 0;
        while i < mappings.len()
            invariant
                i <= mappings@.len(),
            decreases mappings@.len() - i,
        {
            physical_ids.push(mappings[i].physical_id);
            i += 1;
        }
        Some((virtual_site, physical_ids))
    }

    /// The physical site ids a virtual site maps to.
    pub fn get_physical_sites_for_virtual(&self, virtual_id: &str) -> (r: Vec<i32>)
        ensures
            r@ == self.mapping_manager.entries().filter(
                |m: MappingContent| m.virtual_id == virtual_id@,
            ).map_values(|m: MappingContent| m.physical_id),
    {
        let mappings = self.mapping_manager.get_physical_resources(virtual_id);
        let ghost mv = mappings@.map_values(|m: ResourceMapping| m@);
        let mut out: Vec<i32> = Vec::new();
        let mut i: usize = 0;
        while i < mappings.len()
            invariant
                i <= mappings@.len(),
                mv == mappings@.map_values(|m: ResourceMapping| m@),
                out@.len() == i,
                forall|k: int| 0 <= k < i ==> #[trigger] out@[k] == mv[k].physical_id,
            decreases mappings@.len() - i,
        {
            proof {
                assert(mv[i as int] == mappings@[i as int]@);
            }
            out.push(mappings[i].physical_id);
            i += 1;
        }
        proof {
            assert(out@ =~= mv.map_values(|m: MappingContent| m.physical_id));
        }
        out
    }

    /// The virtual site ids a physical site maps to.
    pub fn get_virtual_sites_for_physical(&self, physical_id: i32) -> (r: Vec<String>)
        ensures
            r.deep_view() == self.mapping_manager.entries().filter(
                |m: MappingContent| m.physical_id == physical_id,
            ).map_values(|m: MappingContent| m.virtual_id),
    {
        let mappings = self.mapping_manager.get_virtual_resources(physical_id);
        let ghost mv = mappings@.map_values(|m: ResourceMapping| m@);
        let mut out: Vec<String> = Vec::new();
        let mut i: usize = 0;
        while i < mappings.len()
            invariant
                i <= mappings@.len(),
                mv == mappings@.map_values(|m: ResourceMapping| m@),
                out@.len() == i,
                forall|k: int| 0 <= k < i ==> #[trigger] out@[k]@ == mv[k].virtual_id,
            decreases mappings@.len() - i,
        {
            proof {
                assert(mv[i as int] == mappings@[i as int]@);
            }
            out.push(mappings[i].virtual_id.clone());
            i += 1;
        }
        proof {
            assert(out.deep_view() =~= mv.map_values(|m: MappingContent| m.virtual_id));
        }
        out
    }

    /// Map a virtual site to one more physical site.
    pub fn map_virtual_to_physical_site(&mut self, virtual_id: &str, physical_id: i32, tenant_id: &str)
        ensures
            final(self).mapping_manager.entries().len() == old(self).mapping_manager.entries().len()
                + 1,
            final(self).mapping_manager.entries().last().virtual_id == virtual_id@,
            final(self).mapping_manager.entries().last().physical_id == physical_id,
    {
        self.mapping_manager.create_mapping(
            String::from_str(virtual_id),
            VirtualResourceType::Site,
            physical_id,
            VirtualResourceType::Site,
            String::from_str(tenant_id),
            MappingType::OneToMany,
        );
    }

    /// Create a virtual device under a fresh id and map it to the given
    /// physical devices.
    pub fn create_virtual_device(
        &mut self,
        name: String,
        tenant_id: String,
        physical_device_ids: Vec<i32>,
    ) -> (r: VirtualDevice)
        ensures
            r.name@ == name@,
            r.tenant_id@ == tenant_id@,
            r.id@.len() == 36,
            final(self).mapping_manager.entries().len() == old(self).mapping_manager.entries().len()
                + physical_device_ids@.len(),
    {
        let id = new_order_id();
        let virtual_device = self.store.create_virtual_device(id.clone(), name, tenant_id.clone());
        let mapping_type = if physical_device_ids.len() <= 1 {
            MappingType::OneToOne
        } else {
            MappingType::OneToMany
        };
        let mut i: usize = 0;
        while i < physical_device_ids.len()
            invariant
                i <= physical_device_ids@.len(),
                self.mapping_manager.entries().len() == old(self).mapping_manager.entries().len()
                    + i,
            decreases physical_device_ids@.len() - i,
        {
            self.mapping_manager.create_mapping(
                id.clone(),
                VirtualResourceType::Device,
                physical_device_ids[i],
                VirtualResourceType::Device,
                tenant_id.clone(),
                mapping_type,
            );
            i += 1;
        }
        virtual_device
    }
}

} // verus!

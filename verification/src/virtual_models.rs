//! Virtual resources: logical sites, devices and networks that may map
//! to physical inventory records, and a common capability trait over
//! both.
use vstd::prelude::*;
use crate::clock::now_millis;
use crate::models::{CustomField, NetBoxSite, NetBoxDevice};
use crate::strutil::{decimal_seq, u64_to_string};

verus! {

/// The kinds of virtual resources.
#[derive(Debug, Clone, Copy, PartialEq, Eq, Hash, Structural)]
pub enum VirtualResourceType {
    Site,
    Device,
    Network,
    Service,
}

/// A logical site grouping.
#[derive(Debug)]
pub struct VirtualSite {
    pub id: String,
    pub name: String,
    pub description: Option<String>,
    pub tenant_id: String,
    pub virtual_type: VirtualResourceType,
    pub metadata: Vec<CustomField>,
    pub tags: Vec<String>,
    pub created_at: u64,
    pub updated_at: u64,
}

impl VirtualSite {
    /// A fresh virtual site with the given identity, stamped now.
    pub fn new(id: String, name: String, tenant_id: String) -> (r: Self)
        ensures
            r.id@ == id@,
            r.name@ == name@,
            r.tenant_id@ == tenant_id@,
            r.virtual_type == VirtualResourceType::Site,
            r.description is None,
            r.metadata@.len() == 0,
            r.tags@.len() == 0,
            r.created_at == r.updated_at,
    {
        let now = now_millis();
        VirtualSite {
            id,
            name,
            description: None,
            tenant_id,
            virtual_type: VirtualResourceType::Site,
            metadata: Vec::new(),
            tags: Vec::new(),
            created_at: now,
            updated_at: now,
        }
    }
}

impl Clone for VirtualSite {
    fn clone(&self) -> (r: Self)
        ensures
            r.id@ == self.id@,
            r.name@ == self.name@,
            r.tenant_id@ == self.tenant_id@,
            r.virtual_type == self.virtual_type,
            r.created_at == self.created_at,
            r.updated_at == self.updated_at,
    {
        VirtualSite {
            id: self.id.clone(),
            name: self.name.clone(),
            description: crate::domain::clone_opt_string(&self.description),
            tenant_id: self.tenant_id.clone(),
            virtual_type: self.virtual_type,
            metadata: clone_fields(&self.metadata),
            tags: clone_strings(&self.tags),
            created_at: self.created_at,
            updated_at: self.updated_at,
        }
    }
}

/// A logical device.
#[derive(Debug)]
pub struct VirtualDevice {
    pub id: String,
    pub name: String,
    pub description: Option<String>,
    pub tenant_id: String,
    pub virtual_type: VirtualResourceType,
    pub metadata: Vec<CustomField>,
    pub tags: Vec<String>,
    pub created_at: u64,
    pub updated_at: u64,
}

impl VirtualDevice {
    /// A fresh virtual device with the given identity, stamped now.
    pub fn new(id: String, name: String, tenant_id: String) -> (r: Self)
        ensures
            r.id@ == id@,
            r.name@ == name@,
            r.tenant_id@ == tenant_id@,
            r.virtual_type == VirtualResourceType::Device,
            r.created_at == r.updated_at,
    {
        let now = now_millis();
        VirtualDevice {
            id,
            name,
            description: None,
            tenant_id,
            virtual_type: VirtualResourceType::Device,
            metadata: Vec::new(),
            tags: Vec::new(),
            created_at: now,
            updated_at: now,
        }
    }
}

impl Clone for VirtualDevice {
    fn clone(&self) -> (r: Self)
        ensures
            r.id@ == self.id@,
            r.name@ == self.name@,
            r.tenant_id@ == self.tenant_id@,
            r.virtual_type == self.virtual_type,
    {
        VirtualDevice {
            id: self.id.clone(),
            name: self.name.clone(),
            description: crate::domain::clone_opt_string(&self.description),
            tenant_id: self.tenant_id.clone(),
            virtual_type: self.virtual_type,
            metadata: clone_fields(&self.metadata),
            tags: clone_strings(&self.tags),
            created_at: self.created_at,
            updated_at: self.updated_at,
        }
    }
}

/// A logical network.
#[derive(Debug)]
pub struct VirtualNetwork {
    pub id: String,
    pub name: String,
    pub description: Option<String>,
    pub tenant_id: String,
    pub virtual_type: VirtualResourceType,
    pub cidr: Option<String>,
    pub metadata: Vec<CustomField>,
    pub tags: Vec<String>,
    pub created_at: u64,
    pub updated_at: u64,
}

impl VirtualNetwork {
    /// A fresh virtual network with the given identity, stamped now.
    pub fn new(id: String, name: String, tenant_id: String) -> (r: Self)
        ensures
            r.id@ == id@,
            r.name@ == name@,
            r.tenant_id@ == tenant_id@,
            r.virtual_type == VirtualResourceType::Network,
            r.cidr is None,
            r.created_at == r.updated_at,
    {
        let now = now_millis();
        VirtualNetwork {
            id,
            name,
            description: None,
            tenant_id,
            virtual_type: VirtualResourceType::Network,
            cidr: None,
            metadata: Vec::new(),
            tags: Vec::new(),
            created_at: now,
            updated_at: now,
        }
    }
}

impl Clone for VirtualNetwork {
    fn clone(&self) -> (r: Self)
        ensures
            r.id@ == self.id@,
            r.name@ == self.name@,
            r.tenant_id@ == self.tenant_id@,
            r.virtual_type == self.virtual_type,
    {
        VirtualNetwork {
            id: self.id.clone(),
            name: self.name.clone(),
            description: crate::domain::clone_opt_string(&self.description),
            tenant_id: self.tenant_id.clone(),
            virtual_type: self.virtual_type,
            cidr: crate::domain::clone_opt_string(&self.cidr),
            metadata: clone_fields(&self.metadata),
            tags: clone_strings(&self.tags),
            created_at: self.created_at,
            updated_at: self.updated_at,
        }
    }
}

/// Copy a vector of custom fields.
fn clone_fields(v: &Vec<CustomField>) -> (r: Vec<CustomField>)
    ensures
        r@.len() == v@.len(),
{
    let mut out: Vec<CustomField> = Vec::new();
    let mut i: usize = 0;
    while i < v.len()
        invariant
            i <= v@.len(),
            out@.len() == i,
        decreases v@.len() - i,
    {
        out.push(v[i].clone());
        i += 1;
    }
    out
}

/// Copy a vector of strings.
fn clone_strings(v: &Vec<String>) -> (r: Vec<String>)
    ensures
        r@.len() == v@.len(),
{
    let mut out: Vec<String> = Vec::new();
    let mut i: usize = 0;
    while i < v.len()
        invariant
            i <= v@.len(),
            out@.len() == i,
        decreases v@.len() - i,
    {
        out.push(v[i].clone());
        i += 1;
    }
    out
}

/// The capability set shared by virtual and wrapped physical resources.
pub trait Resource {
    fn id(&self) -> &str;

    fn name(&self) -> &str;

    fn tenant_id(&self) -> &str;

    fn resource_type(&self) -> VirtualResourceType;

    fn is_virtual(&self) -> bool;
}

impl Resource for VirtualSite {
    fn id(&self) -> &str {
        self.id.as_str()
    }

    fn name(&self) -> &str {
        self.name.as_str()
    }

    fn tenant_id(&self) -> &str {
        self.tenant_id.as_str()
    }

    fn resource_type(&self) -> VirtualResourceType {
        self.virtual_type
    }

    fn is_virtual(&self) -> bool {
        true
    }
}

impl Resource for VirtualDevice {
    fn id(&self) -> &str {
        self.id.as_str()
    }

    fn name(&self) -> &str {
        self.name.as_str()
    }

    fn tenant_id(&self) -> &str {
        self.tenant_id.as_str()
    }

    fn resource_type(&self) -> VirtualResourceType {
        self.virtual_type
    }

    fn is_virtual(&self) -> bool {
        true
    }
}

impl Resource for VirtualNetwork {
    fn id(&self) -> &str {
        self.id.as_str()
    }

    fn name(&self) -> &str {
        self.name.as_str()
    }

    fn tenant_id(&self) -> &str {
        self.tenant_id.as_str()
    }

    fn resource_type(&self) -> VirtualResourceType {
        self.virtual_type
    }

    fn is_virtual(&self) -> bool {
        true
    }
}

/// The decimal rendering of a possibly negative number.
pub open spec fn int_decimal(n: int) -> Seq<char> {
    if n < 0 {
        seq!['-'] + decimal_seq((-n) as nat)
    } else {
        decimal_seq(n as nat)
    }
}

/// Render a signed id in decimal.
pub fn i32_to_string(n: i32) -> (r: String)
    ensures
        r@ == int_decimal(n as int),
{
    if n < 0 {
        let wide: i64 = n as i64;
        let mag: u64 = (-wide) as u64;
        proof {
            assert(mag as int == -(n as int));
        }
        let digits = u64_to_string(mag);
        let r = String::from_str("-").concat(digits.as_str());
        proof {
            reveal_strlit("-");
            assert(r@ =~= seq!['-'] + decimal_seq(mag as nat));
        }
        r
    } else {
        u64_to_string(n as u64)
    }
}

/// A physical site presented through the Resource capability set.
pub struct NetBoxSiteAdapter {
    pub site: NetBoxSite,
    pub tenant_id: String,
    pub id_string: String,
}

impl NetBoxSiteAdapter {
    /// Wrap a physical site for the given tenant; the id renders as the
    /// site's inventory id, or empty when it has none.
    pub fn new(site: NetBoxSite, tenant_id: String) -> (r: Self)
        ensures
            r.site@ == site@,
            r.tenant_id@ == tenant_id@,
    {
        let id_string = match site.id {
            Some(i) => i32_to_string(i),
            None => String::new(),
        };
        NetBoxSiteAdapter { site, tenant_id, id_string }
    }
}

impl Resource for NetBoxSiteAdapter {
    fn id(&self) -> &str {
        self.id_string.as_str()
    }

    fn name(&self) -> &str {
        self.site.name.as_str()
    }

    fn tenant_id(&self) -> &str {
        self.tenant_id.as_str()
    }

    fn resource_type(&self) -> VirtualResourceType {
        VirtualResourceType::Site
    }

    fn is_virtual(&self) -> bool {
        false
    }
}

/// A physical device presented through the Resource capability set.
pub struct NetBoxDeviceAdapter {
    pub device: NetBoxDevice,
    pub tenant_id: String,
    pub id_string: String,
    pub name_string: String,
}

impl NetBoxDeviceAdapter {
    /// Wrap a physical device for the given tenant.
    pub fn new(device: NetBoxDevice, tenant_id: String) -> (r: Self)
        ensures
            r.device@ == device@,
            r.tenant_id@ == tenant_id@,
    {
        let id_string = match device.id {
            Some(i) => i32_to_string(i),
            None => String::new(),
        };
        let name_string = match &device.name {
            Some(n) => n.clone(),
            None => String::new(),
        };
        NetBoxDeviceAdapter { device, tenant_id, id_string, name_string }
    }
}

impl Resource for NetBoxDeviceAdapter {
    fn id(&self) -> &str {
        self.id_string.as_str()
    }

    fn name(&self) -> &str {
        self.name_string.as_str()
    }

    fn tenant_id(&self) -> &str {
        self.tenant_id.as_str()
    }

    fn resource_type(&self) -> VirtualResourceType {
        VirtualResourceType::Device
    }

    fn is_virtual(&self) -> bool {
        false
    }
}

} // verus!

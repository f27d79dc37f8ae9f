//! The inventory's data model as the gateway sees it: sites, devices,
//! the requests that create them, and the list-response envelope.
//! Coordinates are carried as microdegrees and rack positions in
//! thousandths of a unit, so that every field is a plain value.
use vstd::prelude::*;
use crate::domain::clone_opt_string;

verus! {

/// Status of a site in the inventory.
#[derive(Debug, Clone, Copy, PartialEq, Eq, Hash, Structural)]
pub enum SiteStatus {
    Active,
    Planned,
    Retired,
    Staging,
}

/// Which side of a rack a device faces.
#[derive(Debug, Clone, Copy, PartialEq, Eq, Hash, Structural)]
pub enum DeviceFace {
    Front,
    Rear,
}

/// Status of a device in the inventory.
#[derive(Debug, Clone, Copy, PartialEq, Eq, Hash, Structural)]
pub enum DeviceStatus {
    Offline,
    Active,
    Planned,
    Staged,
    Failed,
    Inventory,
    Decommissioning,
}

/// One custom field on a resource: a key with a string value.
#[derive(Debug)]
pub struct CustomField {
    pub key: String,
    pub value: String,
}

/// The mathematical content of a custom field.
pub struct FieldContent {
    pub key: Seq<char>,
    pub value: Seq<char>,
}

impl View for CustomField {
    type V = FieldContent;

    open spec fn view(&self) -> FieldContent {
        FieldContent { key: self.key@, value: self.value@ }
    }
}

impl Clone for CustomField {
    fn clone(&self) -> (r: Self)
        ensures
            r@ == self@,
    {
        CustomField { key: self.key.clone(), value: self.value.clone() }
    }
}

/// The view of an optional list of custom fields.
pub open spec fn fields_view(o: Option<Vec<CustomField>>) -> Option<Seq<FieldContent>> {
    match o {
        Some(v) => Some(v@.map_values(|f: CustomField| f@)),
        None => None,
    }
}

/// Copy an optional list of custom fields.
pub fn clone_opt_fields(o: &Option<Vec<CustomField>>) -> (r: Option<Vec<CustomField>>)
    ensures
        fields_view(r) == fields_view(*o),
{
    match o {
        Some(v) => {
            let mut out: Vec<CustomField> = Vec::new();
            let mut i: usize = 0;
            while i < v.len()
                invariant
                    i <= v@.len(),
                    out@.len() == i,
                    forall|k: int| 0 <= k < i ==> #[trigger] out@[k]@ == v@[k]@,
                decreases v@.len() - i,
            {
                out.push(v[i].clone());
                i += 1;
            }
            proof {
                assert(out@.map_values(|f: CustomField| f@) =~= v@.map_values(
                    |f: CustomField| f@,
                ));
            }
            Some(out)
        },
        None => None,
    }
}

/// The view of an optional list of tags.
pub open spec fn tags_view(o: Option<Vec<String>>) -> Option<Seq<Seq<char>>> {
    match o {
        Some(v) => Some(v.deep_view()),
        None => None,
    }
}

/// Copy an optional list of strings.
pub fn clone_opt_strings(o: &Option<Vec<String>>) -> (r: Option<Vec<String>>)
    ensures
        r is Some <==> *o is Some,
        r matches Some(v) ==> o matches Some(w) && v.deep_view() == w.deep_view(),
{
    match o {
        Some(v) => {
            let mut out: Vec<String> = Vec::new();
            let mut i: usize = 0;
            while i < v.len()
                invariant
                    i <= v@.len(),
                    out@.len() == i,
                    forall|k: int| 0 <= k < i ==> #[trigger] out@[k]@ == v@[k]@,
                decreases v@.len() - i,
            {
                out.push(v[i].clone());
                i += 1;
            }
            proof {
                assert(out.deep_view() =~= v.deep_view());
            }
            Some(out)
        },
        None => None,
    }
}

/// The mathematical content of a site record.
#[verifier::ext_equal]
pub struct SiteContent {
    pub id: Option<i32>,
    pub name: Seq<char>,
    pub slug: Option<Seq<char>>,
    pub description: Option<Seq<char>>,
    pub status: Option<SiteStatus>,
    pub region: Option<i32>,
    pub tenant: Option<i32>,
    pub facility: Option<Seq<char>>,
    pub physical_address: Option<Seq<char>>,
    pub shipping_address: Option<Seq<char>>,
    pub latitude: Option<i64>,
    pub longitude: Option<i64>,
    pub contact_name: Option<Seq<char>>,
    pub contact_phone: Option<Seq<char>>,
    pub contact_email: Option<Seq<char>>,
    pub comments: Option<Seq<char>>,
    pub tags: Option<Seq<Seq<char>>>,
    pub custom_fields: Option<Seq<FieldContent>>,
    pub created: Option<Seq<char>>,
    pub last_updated: Option<Seq<char>>,
}

/// A site as the inventory returns it. Latitude and longitude are in
/// microdegrees.
#[derive(Debug)]
pub struct NetBoxSite {
    pub id: Option<i32>,
    pub name: String,
    pub slug: Option<String>,
    pub description: Option<String>,
    pub status: Option<SiteStatus>,
    pub region: Option<i32>,
    pub tenant: Option<i32>,
    pub facility: Option<String>,
    pub physical_address: Option<String>,
    pub shipping_address: Option<String>,
    pub latitude: Option<i64>,
    pub longitude: Option<i64>,
    pub contact_name: Option<String>,
    pub contact_phone: Option<String>,
    pub contact_email: Option<String>,
    pub comments: Option<String>,
    pub tags: Option<Vec<String>>,
    pub custom_fields: Option<Vec<CustomField>>,
    pub created: Option<String>,
    pub last_updated: Option<String>,
}

impl View for NetBoxSite {
    type V = SiteContent;

    open spec fn view(&self) -> SiteContent {
        SiteContent {
            id: self.id,
            name: self.name@,
            slug: self.slug.deep_view(),
            description: self.description.deep_view(),
            status: self.status,
            region: self.region,
            tenant: self.tenant,
            facility: self.facility.deep_view(),
            physical_address: self.physical_address.deep_view(),
            shipping_address: self.shipping_address.deep_view(),
            latitude: self.latitude,
            longitude: self.longitude,
            contact_name: self.contact_name.deep_view(),
            contact_phone: self.contact_phone.deep_view(),
            contact_email: self.contact_email.deep_view(),
            comments: self.comments.deep_view(),
            tags: tags_view(self.tags),
            custom_fields: fields_view(self.custom_fields),
            created: self.created.deep_view(),
            last_updated: self.last_updated.deep_view(),
        }
    }
}

impl Clone for NetBoxSite {
    fn clone(&self) -> (r: Self)
        ensures
            r@ == self@,
    {
        NetBoxSite {
            id: self.id,
            name: self.name.clone(),
            slug: clone_opt_string(&self.slug),
            description: clone_opt_string(&self.description),
            status: self.status,
            region: self.region,
            tenant: self.tenant,
            facility: clone_opt_string(&self.facility),
            physical_address: clone_opt_string(&self.physical_address),
            shipping_address: clone_opt_string(&self.shipping_address),
            latitude: self.latitude,
            longitude: self.longitude,
            contact_name: clone_opt_string(&self.contact_name),
            contact_phone: clone_opt_string(&self.contact_phone),
            contact_email: clone_opt_string(&self.contact_email),
            comments: clone_opt_string(&self.comments),
            tags: clone_opt_strings(&self.tags),
            custom_fields: clone_opt_fields(&self.custom_fields),
            created: clone_opt_string(&self.created),
            last_updated: clone_opt_string(&self.last_updated),
        }
    }
}

/// The content of a site with every field absent and an empty name.
pub open spec fn empty_site() -> SiteContent {
    SiteContent {
        id: None,
        name: Seq::empty(),
        slug: None,
        description: None,
        status: None,
        region: None,
        tenant: None,
        facility: None,
        physical_address: None,
        shipping_address: None,
        latitude: None,
        longitude: None,
        contact_name: None,
        contact_phone: None,
        contact_email: None,
        comments: None,
        tags: None,
        custom_fields: None,
        created: None,
        last_updated: None,
    }
}

impl Default for NetBoxSite {
    fn default() -> (r: Self)
        ensures
            r@ == empty_site(),
    {
        let r = NetBoxSite {
            id: None,
            name: String::new(),
            slug: None,
            description: None,
            status: None,
            region: None,
            tenant: None,
            facility: None,
            physical_address: None,
            shipping_address: None,
            latitude: None,
            longitude: None,
            contact_name: None,
            contact_phone: None,
            contact_email: None,
            comments: None,
            tags: None,
            custom_fields: None,
            created: None,
            last_updated: None,
        };
        proof {
            assert(r@.name =~= empty_site().name);
        }
        r
    }
}

/// The mathematical content of a device record.
#[verifier::ext_equal]
pub struct DeviceContent {
    pub id: Option<i32>,
    pub name: Option<Seq<char>>,
    pub device_type: Option<i32>,
    pub device_role: Option<i32>,
    pub tenant: Option<i32>,
    pub platform: Option<i32>,
    pub serial: Option<Seq<char>>,
    pub asset_tag: Option<Seq<char>>,
    pub site: Option<i32>,
    pub location: Option<i32>,
    pub rack: Option<i32>,
    pub position: Option<i64>,
    pub face: Option<DeviceFace>,
    pub status: Option<DeviceStatus>,
    pub primary_ip4: Option<i32>,
    pub primary_ip6: Option<i32>,
    pub cluster: Option<i32>,
    pub virtual_chassis: Option<i32>,
    pub vc_position: Option<i32>,
    pub vc_priority: Option<i32>,
    pub comments: Option<Seq<char>>,
    pub tags: Option<Seq<Seq<char>>>,
    pub custom_fields: Option<Seq<FieldContent>>,
    pub created: Option<Seq<char>>,
    pub last_updated: Option<Seq<char>>,
}

/// A device as the inventory returns it. The rack position is in
/// thousandths of a rack unit.
#[derive(Debug)]
pub struct NetBoxDevice {
    pub id: Option<i32>,
    pub name: Option<String>,
    pub device_type: Option<i32>,
    pub device_role: Option<i32>,
    pub tenant: Option<i32>,
    pub platform: Option<i32>,
    pub serial: Option<String>,
    pub asset_tag: Option<String>,
    pub site: Option<i32>,
    pub location: Option<i32>,
    pub rack: Option<i32>,
    pub position: Option<i64>,
    pub face: Option<DeviceFace>,
    pub status: Option<DeviceStatus>,
    pub primary_ip4: Option<i32>,
    pub primary_ip6: Option<i32>,
    pub cluster: Option<i32>,
    pub virtual_chassis: Option<i32>,
    pub vc_position: Option<i32>,
    pub vc_priority: Option<i32>,
    pub comments: Option<String>,
    pub tags: Option<Vec<String>>,
    pub custom_fields: Option<Vec<CustomField>>,
    pub created: Option<String>,
    pub last_updated: Option<String>,
}

impl View for NetBoxDevice {
    type V = DeviceContent;

    open spec fn view(&self) -> DeviceContent {
        DeviceContent {
            id: self.id,
            name: self.name.deep_view(),
            device_type: self.device_type,
            device_role: self.device_role,
            tenant: self.tenant,
            platform: self.platform,
            serial: self.serial.deep_view(),
            asset_tag: self.asset_tag.deep_view(),
            site: self.site,
            location: self.location,
            rack: self.rack,
            position: self.position,
            face: self.face,
            status: self.status,
            primary_ip4: self.primary_ip4,
            primary_ip6: self.primary_ip6,
            cluster: self.cluster,
            virtual_chassis: self.virtual_chassis,
            vc_position: self.vc_position,
            vc_priority: self.vc_priority,
            comments: self.comments.deep_view(),
            tags: tags_view(self.tags),
            custom_fields: fields_view(self.custom_fields),
            created: self.created.deep_view(),
            last_updated: self.last_updated.deep_view(),
        }
    }
}

impl Clone for NetBoxDevice {
    fn clone(&self) -> (r: Self)
        ensures
            r@ == self@,
    {
        NetBoxDevice {
            id: self.id,
            name: clone_opt_string(&self.name),
            device_type: self.device_type,
            device_role: self.device_role,
            tenant: self.tenant,
            platform: self.platform,
            serial: clone_opt_string(&self.serial),
            asset_tag: clone_opt_string(&self.asset_tag),
            site: self.site,
            location: self.location,
            rack: self.rack,
            position: self.position,
            face: self.face,
            status: self.status,
            primary_ip4: self.primary_ip4,
            primary_ip6: self.primary_ip6,
            cluster: self.cluster,
            virtual_chassis: self.virtual_chassis,
            vc_position: self.vc_position,
            vc_priority: self.vc_priority,
            comments: clone_opt_string(&self.comments),
            tags: clone_opt_strings(&self.tags),
            custom_fields: clone_opt_fields(&self.custom_fields),
            created: clone_opt_string(&self.created),
            last_updated: clone_opt_string(&self.last_updated),
        }
    }
}

/// The content of a device with every field absent.
pub open spec fn empty_device() -> DeviceContent {
    DeviceContent {
        id: None,
        name: None,
        device_type: None,
        device_role: None,
        tenant: None,
        platform: None,
        serial: None,
        asset_tag: None,
        site: None,
        location: None,
        rack: None,
        position: None,
        face: None,
        status: None,
        primary_ip4: None,
        primary_ip6: None,
        cluster: None,
        virtual_chassis: None,
        vc_position: None,
        vc_priority: None,
        comments: None,
        tags: None,
        custom_fields: None,
        created: None,
        last_updated: None,
    }
}

impl Default for NetBoxDevice {
    fn default() -> (r: Self)
        ensures
            r@ == empty_device(),
    {
        NetBoxDevice {
            id: None,
            name: None,
            device_type: None,
            device_role: None,
            tenant: None,
            platform: None,
            serial: None,
            asset_tag: None,
            site: None,
            location: None,
            rack: None,
            position: None,
            face: None,
            status: None,
            primary_ip4: None,
            primary_ip6: None,
            cluster: None,
            virtual_chassis: None,
            vc_position: None,
            vc_priority: None,
            comments: None,
            tags: None,
            custom_fields: None,
            created: None,
            last_updated: None,
        }
    }
}

/// The mathematical content of a site-creation request.
pub struct SiteRequestContent {
    pub name: Seq<char>,
    pub slug: Option<Seq<char>>,
    pub description: Option<Seq<char>>,
    pub status: Option<SiteStatus>,
    pub region: Option<i32>,
    pub tenant: Option<i32>,
    pub facility: Option<Seq<char>>,
    pub physical_address: Option<Seq<char>>,
    pub shipping_address: Option<Seq<char>>,
    pub latitude: Option<i64>,
    pub longitude: Option<i64>,
    pub contact_name: Option<Seq<char>>,
    pub contact_phone: Option<Seq<char>>,
    pub contact_email: Option<Seq<char>>,
    pub comments: Option<Seq<char>>,
    pub tags: Option<Seq<Seq<char>>>,
}

/// The payload that creates a site in the inventory.
#[derive(Debug)]
pub struct CreateSiteRequest {
    pub name: String,
    pub slug: Option<String>,
    pub description: Option<String>,
    pub status: Option<SiteStatus>,
    pub region: Option<i32>,
    pub tenant: Option<i32>,
    pub facility: Option<String>,
    pub physical_address: Option<String>,
    pub shipping_address: Option<String>,
    pub latitude: Option<i64>,
    pub longitude: Option<i64>,
    pub contact_name: Option<String>,
    pub contact_phone: Option<String>,
    pub contact_email: Option<String>,
    pub comments: Option<String>,
    pub tags: Option<Vec<String>>,
}

impl View for CreateSiteRequest {
    type V = SiteRequestContent;

    open spec fn view(&self) -> SiteRequestContent {
        SiteRequestContent {
            name: self.name@,
            slug: self.slug.deep_view(),
            description: self.description.deep_view(),
            status: self.status,
            region: self.region,
            tenant: self.tenant,
            facility: self.facility.deep_view(),
            physical_address: self.physical_address.deep_view(),
            shipping_address: self.shipping_address.deep_view(),
            latitude: self.latitude,
            longitude: self.longitude,
            contact_name: self.contact_name.deep_view(),
            contact_phone: self.contact_phone.deep_view(),
            contact_email: self.contact_email.deep_view(),
            comments: self.comments.deep_view(),
            tags: tags_view(self.tags),
        }
    }
}

impl Clone for CreateSiteRequest {
    fn clone(&self) -> (r: Self)
        ensures
            r@ == self@,
    {
        CreateSiteRequest {
            name: self.name.clone(),
            slug: clone_opt_string(&self.slug),
            description: clone_opt_string(&self.description),
            status: self.status,
            region: self.region,
            tenant: self.tenant,
            facility: clone_opt_string(&self.facility),
            physical_address: clone_opt_string(&self.physical_address),
            shipping_address: clone_opt_string(&self.shipping_address),
            latitude: self.latitude,
            longitude: self.longitude,
            contact_name: clone_opt_string(&self.contact_name),
            contact_phone: clone_opt_string(&self.contact_phone),
            contact_email: clone_opt_string(&self.contact_email),
            comments: clone_opt_string(&self.comments),
            tags: clone_opt_strings(&self.tags),
        }
    }
}

/// The envelope of a list response from the inventory.
#[derive(Debug)]
pub struct NetBoxResponse<T> {
    pub count: Option<i32>,
    pub next: Option<String>,
    pub previous: Option<String>,
    pub results: Option<Vec<T>>,
}

} // verus!

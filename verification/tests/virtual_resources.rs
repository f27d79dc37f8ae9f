use netgate::models::{CustomField, NetBoxDevice, NetBoxSite};
use netgate::virtual_map::{MappingError, MappingManager, MappingType, ResourceMapping};
use netgate::virtual_models::{
    NetBoxDeviceAdapter, NetBoxSiteAdapter, Resource, VirtualDevice, VirtualNetwork,
    VirtualResourceType, VirtualSite,
};
use netgate::virtual_service::{VirtualResourceService, VirtualResourceStore};

#[test]
fn test_virtual_resource_type_variants() {
    assert_eq!(VirtualResourceType::Site, VirtualResourceType::Site);
    assert_eq!(VirtualResourceType::Device, VirtualResourceType::Device);
    assert_eq!(VirtualResourceType::Network, VirtualResourceType::Network);
    assert_eq!(VirtualResourceType::Service, VirtualResourceType::Service);
}

#[test]
fn test_mapping_type_variants() {
    assert_eq!(MappingType::OneToOne, MappingType::OneToOne);
    assert_eq!(MappingType::OneToMany, MappingType::OneToMany);
    assert_eq!(MappingType::ManyToOne, MappingType::ManyToOne);
    assert_eq!(MappingType::ManyToMany, MappingType::ManyToMany);
}

#[test]
fn test_mapping_error_display() {
    let error1 = MappingError::MappingNotFound;
    assert_eq!(error1.message(), "Mapping not found");

    let error2 = MappingError::InvalidMapping;
    assert_eq!(error2.message(), "Invalid mapping");
}

#[test]
fn test_create_one_to_one_mapping() {
    let mut manager = MappingManager::new();
    let mapping = manager.create_mapping(
        "vs-1".to_string(),
        VirtualResourceType::Site,
        123,
        VirtualResourceType::Site,
        "tenant-1".to_string(),
        MappingType::OneToOne,
    );

    assert_eq!(mapping.virtual_id, "vs-1");
    assert_eq!(mapping.physical_id, 123);
    assert_eq!(mapping.mapping_type, MappingType::OneToOne);
}

#[test]
fn test_get_physical_resources() {
    let mut manager = MappingManager::new();
    manager.create_mapping(
        "vs-1".to_string(),
        VirtualResourceType::Site,
        123,
        VirtualResourceType::Site,
        "tenant-1".to_string(),
        MappingType::OneToOne,
    );

    let physical = manager.get_physical_resources("vs-1");
    assert_eq!(physical.len(), 1);
    assert_eq!(physical[0].physical_id, 123);
}

#[test]
fn test_get_virtual_resources() {
    let mut manager = MappingManager::new();
    manager.create_mapping(
        "vs-1".to_string(),
        VirtualResourceType::Site,
        123,
        VirtualResourceType::Site,
        "tenant-1".to_string(),
        MappingType::OneToOne,
    );

    let virtual_resources = manager.get_virtual_resources(123);
    assert_eq!(virtual_resources.len(), 1);
    assert_eq!(virtual_resources[0].virtual_id, "vs-1");
}

#[test]
fn test_one_to_many_mapping() {
    let mut manager = MappingManager::new();
    manager.create_mapping(
        "vs-1".to_string(),
        VirtualResourceType::Site,
        123,
        VirtualResourceType::Site,
        "tenant-1".to_string(),
        MappingType::OneToMany,
    );
    manager.create_mapping(
        "vs-1".to_string(),
        VirtualResourceType::Site,
        456,
        VirtualResourceType::Site,
        "tenant-1".to_string(),
        MappingType::OneToMany,
    );

    let physical = manager.get_physical_resources("vs-1");
    assert_eq!(physical.len(), 2);
    assert!(physical.iter().any(|m| m.physical_id == 123));
    assert!(physical.iter().any(|m| m.physical_id == 456));
}

#[test]
fn test_many_to_one_mapping() {
    let mut manager = MappingManager::new();
    manager.create_mapping(
        "vs-1".to_string(),
        VirtualResourceType::Site,
        123,
        VirtualResourceType::Site,
        "tenant-1".to_string(),
        MappingType::ManyToOne,
    );
    manager.create_mapping(
        "vs-2".to_string(),
        VirtualResourceType::Site,
        123,
        VirtualResourceType::Site,
        "tenant-1".to_string(),
        MappingType::ManyToOne,
    );

    let virtual_resources = manager.get_virtual_resources(123);
    assert_eq!(virtual_resources.len(), 2);
    assert!(virtual_resources.iter().any(|m| m.virtual_id == "vs-1"));
    assert!(virtual_resources.iter().any(|m| m.virtual_id == "vs-2"));
}

#[test]
fn test_get_tenant_mappings() {
    let mut manager = MappingManager::new();
    manager.create_mapping(
        "vs-1".to_string(),
        VirtualResourceType::Site,
        123,
        VirtualResourceType::Site,
        "tenant-1".to_string(),
        MappingType::OneToOne,
    );
    manager.create_mapping(
        "vs-2".to_string(),
        VirtualResourceType::Site,
        456,
        VirtualResourceType::Site,
        "tenant-2".to_string(),
        MappingType::OneToOne,
    );

    let tenant1 = manager.get_tenant_mappings("tenant-1");
    assert_eq!(tenant1.len(), 1);
    assert_eq!(tenant1[0].virtual_id, "vs-1");
}

#[test]
fn test_remove_mapping() {
    let mut manager = MappingManager::new();
    manager.create_mapping(
        "vs-1".to_string(),
        VirtualResourceType::Site,
        123,
        VirtualResourceType::Site,
        "tenant-1".to_string(),
        MappingType::OneToOne,
    );
    assert!(manager.has_physical_mapping("vs-1"));

    manager.remove_mapping("vs-1", 123).unwrap();
    assert!(!manager.has_physical_mapping("vs-1"));
    assert!(!manager.has_virtual_mapping(123));
}

#[test]
fn test_has_physical_mapping() {
    let mut manager = MappingManager::new();
    assert!(!manager.has_physical_mapping("vs-1"));
    manager.create_mapping(
        "vs-1".to_string(),
        VirtualResourceType::Site,
        123,
        VirtualResourceType::Site,
        "tenant-1".to_string(),
        MappingType::OneToOne,
    );
    assert!(manager.has_physical_mapping("vs-1"));
}

#[test]
fn test_get_mapping_count() {
    let mut manager = MappingManager::new();
    assert_eq!(manager.get_mapping_count("vs-1"), 0);
    manager.create_mapping(
        "vs-1".to_string(),
        VirtualResourceType::Site,
        123,
        VirtualResourceType::Site,
        "tenant-1".to_string(),
        MappingType::OneToOne,
    );
    assert_eq!(manager.get_mapping_count("vs-1"), 1);
}

#[test]
fn test_get_physical_resources_nonexistent() {
    let manager = MappingManager::new();
    assert!(manager.get_physical_resources("missing").is_empty());
}

#[test]
fn test_get_virtual_resources_nonexistent() {
    let manager = MappingManager::new();
    assert!(manager.get_virtual_resources(999).is_empty());
}

#[test]
fn test_get_tenant_mappings_nonexistent() {
    let manager = MappingManager::new();
    assert!(manager.get_tenant_mappings("missing").is_empty());
}

#[test]
fn test_has_virtual_mapping_nonexistent() {
    let manager = MappingManager::new();
    assert!(!manager.has_virtual_mapping(999));
}

#[test]
fn test_remove_mapping_nonexistent() {
    let mut manager = MappingManager::new();
    assert!(manager.remove_mapping("missing", 1).is_ok());
}

#[test]
fn test_resource_mapping_clone() {
    let mapping = ResourceMapping {
        virtual_id: "vs-1".to_string(),
        virtual_type: VirtualResourceType::Site,
        physical_id: 123,
        physical_type: VirtualResourceType::Site,
        tenant_id: "tenant-1".to_string(),
        mapping_type: MappingType::OneToOne,
        metadata: Vec::new(),
        created_at: 0,
    };

    let cloned = mapping.clone();
    assert_eq!(cloned.virtual_id, mapping.virtual_id);
    assert_eq!(cloned.physical_id, mapping.physical_id);
}

#[test]
fn test_virtual_site_creation() {
    let site = VirtualSite::new("vs-1".to_string(), "Logical".to_string(), "t1".to_string());
    assert_eq!(site.id, "vs-1");
    assert_eq!(site.name, "Logical");
    assert_eq!(site.tenant_id, "t1");
    assert_eq!(site.virtual_type, VirtualResourceType::Site);
}

#[test]
fn test_virtual_device_creation() {
    let device = VirtualDevice::new("vd-1".to_string(), "Router".to_string(), "t1".to_string());
    assert_eq!(device.id, "vd-1");
    assert_eq!(device.virtual_type, VirtualResourceType::Device);
}

#[test]
fn test_virtual_network_creation() {
    let network = VirtualNetwork::new("vn-1".to_string(), "Net".to_string(), "t1".to_string());
    assert_eq!(network.id, "vn-1");
    assert_eq!(network.virtual_type, VirtualResourceType::Network);
    assert!(network.cidr.is_none());
}

#[test]
fn test_netbox_site_adapter() {
    let site = NetBoxSite {
        id: Some(42),
        name: "Physical".to_string(),
        ..Default::default()
    };
    let adapter = NetBoxSiteAdapter::new(site, "t1".to_string());
    assert_eq!(adapter.id(), "42");
    assert_eq!(adapter.name(), "Physical");
    assert_eq!(adapter.tenant_id(), "t1");
    assert_eq!(adapter.resource_type(), VirtualResourceType::Site);
    assert!(!adapter.is_virtual());
}

#[test]
fn test_netbox_site_adapter_no_id() {
    let site = NetBoxSite {
        id: None,
        name: "Physical".to_string(),
        ..Default::default()
    };
    let adapter = NetBoxSiteAdapter::new(site, "t1".to_string());
    assert_eq!(adapter.id(), "");
}

#[test]
fn test_netbox_device_adapter() {
    let device = NetBoxDevice {
        id: Some(7),
        name: Some("edge-1".to_string()),
        ..Default::default()
    };
    let adapter = NetBoxDeviceAdapter::new(device, "t1".to_string());
    assert_eq!(adapter.id(), "7");
    assert_eq!(adapter.name(), "edge-1");
    assert_eq!(adapter.resource_type(), VirtualResourceType::Device);
    assert!(!adapter.is_virtual());
}

#[test]
fn test_netbox_device_adapter_no_name() {
    let device = NetBoxDevice {
        id: Some(7),
        name: None,
        ..Default::default()
    };
    let adapter = NetBoxDeviceAdapter::new(device, "t1".to_string());
    assert_eq!(adapter.name(), "");
}

#[test]
fn test_virtual_site_resource_trait() {
    let site = VirtualSite::new("vs-1".to_string(), "Logical".to_string(), "t1".to_string());
    let r: &dyn Resource = &site;
    assert_eq!(r.id(), "vs-1");
    assert!(r.is_virtual());
}

#[test]
fn test_create_virtual_site() {
    let mut service = VirtualResourceService::new();
    let site = service.create_virtual_site("Logical".to_string(), "t1".to_string(), vec![1, 2]);
    assert_eq!(site.name, "Logical");
    assert_eq!(site.tenant_id, "t1");

    let physical = service.get_physical_sites_for_virtual(&site.id);
    assert_eq!(physical, vec![1, 2]);
}

#[test]
fn test_get_virtual_site_with_mappings() {
    let mut service = VirtualResourceService::new();
    let site = service.create_virtual_site("Logical".to_string(), "t1".to_string(), vec![9]);
    let (found, ids) = service.get_virtual_site_with_mappings(&site.id).unwrap();
    assert_eq!(found.id, site.id);
    assert_eq!(ids, vec![9]);
}

#[test]
fn test_get_virtual_site_with_mappings_nonexistent() {
    let service = VirtualResourceService::new();
    assert!(service.get_virtual_site_with_mappings("missing").is_none());
}

#[test]
fn test_map_virtual_to_physical_site() {
    let mut service = VirtualResourceService::new();
    let site = service.create_virtual_site("Logical".to_string(), "t1".to_string(), Vec::new());
    service.map_virtual_to_physical_site(&site.id, 77, "t1");
    let physical = service.get_physical_sites_for_virtual(&site.id);
    assert_eq!(physical, vec![77]);
}

#[test]
fn test_create_virtual_device() {
    let mut service = VirtualResourceService::new();
    let device = service.create_virtual_device("Router".to_string(), "t1".to_string(), vec![5]);
    assert_eq!(device.name, "Router");
}

#[test]
fn test_get_virtual_sites_for_physical() {
    let mut service = VirtualResourceService::new();
    let a = service.create_virtual_site("A".to_string(), "t1".to_string(), vec![5]);
    let b = service.create_virtual_site("B".to_string(), "t1".to_string(), vec![5]);
    let ids = service.get_virtual_sites_for_physical(5);
    assert_eq!(ids.len(), 2);
    assert!(ids.contains(&a.id));
    assert!(ids.contains(&b.id));
}

#[test]
fn test_virtual_resource_store_create_and_get() {
    let mut store = VirtualResourceStore::new();
    store.create_virtual_site("vs-1".to_string(), "Logical".to_string(), "t1".to_string());
    let found = store.get_virtual_site("vs-1").unwrap();
    assert_eq!(found.name, "Logical");
    assert!(store.get_virtual_site("missing").is_none());
}

#[test]
fn test_virtual_resource_store_tenant_isolation() {
    let mut store = VirtualResourceStore::new();
    store.create_virtual_site("vs-1".to_string(), "A".to_string(), "t1".to_string());
    store.create_virtual_site("vs-2".to_string(), "B".to_string(), "t2".to_string());
    let t1 = store.get_tenant_virtual_sites("t1");
    assert_eq!(t1.len(), 1);
    assert_eq!(t1[0].tenant_id, "t1");
    let t2 = store.get_tenant_virtual_sites("t2");
    assert_eq!(t2.len(), 1);
}

#[test]
fn test_many_to_many_mapping() {
    let mut manager = MappingManager::new();
    manager.create_mapping(
        "vs-1".to_string(),
        VirtualResourceType::Site,
        123,
        VirtualResourceType::Site,
        "tenant-1".to_string(),
        MappingType::ManyToMany,
    );
    manager.create_mapping(
        "vs-1".to_string(),
        VirtualResourceType::Site,
        456,
        VirtualResourceType::Site,
        "tenant-1".to_string(),
        MappingType::ManyToMany,
    );
    manager.create_mapping(
        "vs-2".to_string(),
        VirtualResourceType::Site,
        123,
        VirtualResourceType::Site,
        "tenant-1".to_string(),
        MappingType::ManyToMany,
    );

    assert_eq!(manager.get_physical_resources("vs-1").len(), 2);
    assert_eq!(manager.get_virtual_resources(123).len(), 2);
}

#[test]
fn test_remove_mapping_multiple_physical() {
    let mut manager = MappingManager::new();
    manager.create_mapping(
        "vs-1".to_string(),
        VirtualResourceType::Site,
        123,
        VirtualResourceType::Site,
        "tenant-1".to_string(),
        MappingType::OneToMany,
    );
    manager.create_mapping(
        "vs-1".to_string(),
        VirtualResourceType::Site,
        456,
        VirtualResourceType::Site,
        "tenant-1".to_string(),
        MappingType::OneToMany,
    );

    manager.remove_mapping("vs-1", 123).unwrap();
    let remaining = manager.get_physical_resources("vs-1");
    assert_eq!(remaining.len(), 1);
    assert_eq!(remaining[0].physical_id, 456);
}

#[test]
fn test_has_physical_mapping_empty_list() {
    let mut manager = MappingManager::new();
    manager.create_mapping(
        "vs-1".to_string(),
        VirtualResourceType::Site,
        123,
        VirtualResourceType::Site,
        "tenant-1".to_string(),
        MappingType::OneToOne,
    );
    manager.remove_mapping("vs-1", 123).unwrap();
    assert!(!manager.has_physical_mapping("vs-1"));
}

#[test]
fn test_netbox_device_adapter_no_id() {
    let device = NetBoxDevice {
        id: None,
        name: Some("edge-1".to_string()),
        ..Default::default()
    };
    let adapter = NetBoxDeviceAdapter::new(device, "t1".to_string());
    assert_eq!(adapter.id(), "");
}

#[test]
fn test_virtual_device_resource_trait() {
    let device = VirtualDevice::new("vd-1".to_string(), "Router".to_string(), "t1".to_string());
    let r: &dyn Resource = &device;
    assert_eq!(r.id(), "vd-1");
    assert_eq!(r.resource_type(), VirtualResourceType::Device);
    assert!(r.is_virtual());
}

#[test]
fn test_virtual_network_resource_trait() {
    let network = VirtualNetwork::new("vn-1".to_string(), "Net".to_string(), "t1".to_string());
    let r: &dyn Resource = &network;
    assert_eq!(r.id(), "vn-1");
    assert_eq!(r.resource_type(), VirtualResourceType::Network);
    assert!(r.is_virtual());
}

#[test]
fn test_create_virtual_site_no_physical_mappings() {
    let mut service = VirtualResourceService::new();
    let site = service.create_virtual_site("Logical".to_string(), "t1".to_string(), Vec::new());
    assert!(service.get_physical_sites_for_virtual(&site.id).is_empty());
}

#[test]
fn test_create_virtual_site_one_physical() {
    let mut service = VirtualResourceService::new();
    let site = service.create_virtual_site("Logical".to_string(), "t1".to_string(), vec![7]);
    let (_found, ids) = service.get_virtual_site_with_mappings(&site.id).unwrap();
    assert_eq!(ids, vec![7]);
}

#[test]
fn test_create_virtual_device_no_physical_mappings() {
    let mut service = VirtualResourceService::new();
    let device = service.create_virtual_device("Router".to_string(), "t1".to_string(), Vec::new());
    assert!(!device.id.is_empty());
}

#[test]
fn test_create_virtual_device_one_physical() {
    let mut service = VirtualResourceService::new();
    let device = service.create_virtual_device("Router".to_string(), "t1".to_string(), vec![5]);
    assert_eq!(device.tenant_id, "t1");
}

#[test]
fn test_create_virtual_device_multiple_physical() {
    let mut service = VirtualResourceService::new();
    service.create_virtual_device("Router".to_string(), "t1".to_string(), vec![5, 6, 7]);
    let mapped = service.mapping_manager.get_tenant_mappings("t1");
    assert_eq!(mapped.len(), 3);
}

#[test]
fn test_map_virtual_to_physical_multiple_times() {
    let mut service = VirtualResourceService::new();
    let site = service.create_virtual_site("Logical".to_string(), "t1".to_string(), Vec::new());
    service.map_virtual_to_physical_site(&site.id, 1, "t1");
    service.map_virtual_to_physical_site(&site.id, 2, "t1");
    service.map_virtual_to_physical_site(&site.id, 3, "t1");
    assert_eq!(service.get_physical_sites_for_virtual(&site.id), vec![1, 2, 3]);
}

#[test]
fn test_get_virtual_site_nonexistent() {
    let store = VirtualResourceStore::new();
    assert!(store.get_virtual_site("missing").is_none());
}

#[test]
fn test_get_virtual_device_nonexistent() {
    let store = VirtualResourceStore::new();
    assert!(store.get_virtual_device("missing").is_none());
}

#[test]
fn test_get_virtual_network_nonexistent() {
    let store = VirtualResourceStore::new();
    assert!(store.get_virtual_network("missing").is_none());
}

#[test]
fn test_get_tenant_virtual_sites_empty() {
    let store = VirtualResourceStore::new();
    assert!(store.get_tenant_virtual_sites("t1").is_empty());
}

#[test]
fn test_get_tenant_virtual_devices_empty() {
    let store = VirtualResourceStore::new();
    assert!(store.get_tenant_virtual_devices("t1").is_empty());
}

#[test]
fn test_get_tenant_virtual_networks_empty() {
    let store = VirtualResourceStore::new();
    assert!(store.get_tenant_virtual_networks("t1").is_empty());
}

#[test]
fn test_get_virtual_sites_for_physical_nonexistent() {
    let service = VirtualResourceService::new();
    assert!(service.get_virtual_sites_for_physical(999).is_empty());
}

#[test]
fn test_virtual_site_with_metadata() {
    let mut site = VirtualSite::new("vs-1".to_string(), "Logical".to_string(), "t1".to_string());
    site.metadata.push(CustomField { key: "zone".to_string(), value: "east".to_string() });
    site.tags.push("core".to_string());
    let copy = site.clone();
    assert_eq!(copy.id, "vs-1");
    assert_eq!(site.metadata.len(), 1);
    assert_eq!(site.tags[0], "core");
}

use netgate::domain::{Site, TenantStore};
use netgate::models::{DeviceStatus, NetBoxDevice, NetBoxSite, SiteStatus};
use netgate::tenant_access::{TenantAccessControl, TenantMappingService, TenantResourceVisibility};

fn create_test_site(id: i32, tenant_id: Option<i32>) -> NetBoxSite {
    NetBoxSite {
        id: Some(id),
        name: format!("Site {}", id),
        tenant: tenant_id,
        status: Some(SiteStatus::Active),
        ..Default::default()
    }
}

fn create_test_device(id: i32, tenant_id: Option<i32>) -> NetBoxDevice {
    NetBoxDevice {
        id: Some(id),
        name: Some(format!("Device {}", id)),
        tenant: tenant_id,
        status: Some(DeviceStatus::Active),
        ..Default::default()
    }
}

#[test]
fn test_tenant_mapping_service_register() {
    let mut service = TenantMappingService::new();
    service.register_mapping("tenant-1".to_string(), 10);

    assert!(service.has_mapping(&"tenant-1".to_string()));
    assert_eq!(service.get_netbox_tenant_id(&"tenant-1".to_string()), Some(10));
}

#[test]
fn test_tenant_mapping_service_get_nonexistent() {
    let service = TenantMappingService::new();
    assert!(service.get_netbox_tenant_id(&"nonexistent".to_string()).is_none());
    assert!(!service.has_mapping(&"nonexistent".to_string()));
}

#[test]
fn test_tenant_mapping_service_remove() {
    let mut service = TenantMappingService::new();
    service.register_mapping("tenant-1".to_string(), 10);
    assert!(service.has_mapping(&"tenant-1".to_string()));

    service.remove_mapping(&"tenant-1".to_string());
    assert!(!service.has_mapping(&"tenant-1".to_string()));
}

#[test]
fn test_tenant_mapping_service_multiple_tenants() {
    let mut service = TenantMappingService::new();
    service.register_mapping("tenant-1".to_string(), 10);
    service.register_mapping("tenant-2".to_string(), 20);
    service.register_mapping("tenant-3".to_string(), 30);

    assert_eq!(service.get_netbox_tenant_id(&"tenant-1".to_string()), Some(10));
    assert_eq!(service.get_netbox_tenant_id(&"tenant-2".to_string()), Some(20));
    assert_eq!(service.get_netbox_tenant_id(&"tenant-3".to_string()), Some(30));
}

#[test]
fn test_tenant_mapping_service_get_all_tenant_ids() {
    let mut service = TenantMappingService::new();
    service.register_mapping("tenant-1".to_string(), 10);
    service.register_mapping("tenant-2".to_string(), 20);

    let all_ids = service.get_all_tenant_ids();
    assert_eq!(all_ids.len(), 2);
    assert!(all_ids.contains(&"tenant-1".to_string()));
    assert!(all_ids.contains(&"tenant-2".to_string()));
}

#[test]
fn test_tenant_mapping_service_default() {
    let service = TenantMappingService::new();
    assert!(!service.has_mapping(&"tenant-1".to_string()));
}

#[test]
fn test_tenant_mapping_service_update_mapping() {
    let mut service = TenantMappingService::new();
    service.register_mapping("tenant-1".to_string(), 10);
    assert_eq!(service.get_netbox_tenant_id(&"tenant-1".to_string()), Some(10));

    // Update mapping
    service.register_mapping("tenant-1".to_string(), 20);
    assert_eq!(service.get_netbox_tenant_id(&"tenant-1".to_string()), Some(20));
}

#[test]
fn test_verify_site_access_success() {
    let mut mapping_service = TenantMappingService::new();
    mapping_service.register_mapping("tenant-1".to_string(), 10);

    let access_control = TenantAccessControl::new(mapping_service);
    let site = create_test_site(1, Some(10));

    assert!(access_control.verify_site_access(&"tenant-1".to_string(), &site).is_ok());
}

#[test]
fn test_verify_site_access_wrong_tenant() {
    let mut mapping_service = TenantMappingService::new();
    mapping_service.register_mapping("tenant-1".to_string(), 10);

    let access_control = TenantAccessControl::new(mapping_service);
    let site = create_test_site(1, Some(20));

    assert!(access_control.verify_site_access(&"tenant-1".to_string(), &site).is_err());
}

#[test]
fn test_verify_site_access_no_tenant_on_site() {
    let mut mapping_service = TenantMappingService::new();
    mapping_service.register_mapping("tenant-1".to_string(), 10);

    let access_control = TenantAccessControl::new(mapping_service);
    let site = create_test_site(1, None);

    assert!(access_control.verify_site_access(&"tenant-1".to_string(), &site).is_err());
}

#[test]
fn test_verify_site_access_no_mapping() {
    let mapping_service = TenantMappingService::new();
    let access_control = TenantAccessControl::new(mapping_service);
    let site = create_test_site(1, Some(10));

    assert!(access_control.verify_site_access(&"nonexistent".to_string(), &site).is_err());
}

#[test]
fn test_verify_device_access_success() {
    let mut mapping_service = TenantMappingService::new();
    mapping_service.register_mapping("tenant-1".to_string(), 10);

    let access_control = TenantAccessControl::new(mapping_service);
    let device = create_test_device(1, Some(10));

    assert!(access_control.verify_device_access(&"tenant-1".to_string(), &device).is_ok());
}

#[test]
fn test_verify_device_access_wrong_tenant() {
    let mut mapping_service = TenantMappingService::new();
    mapping_service.register_mapping("tenant-1".to_string(), 10);

    let access_control = TenantAccessControl::new(mapping_service);
    let device = create_test_device(1, Some(20));

    assert!(access_control.verify_device_access(&"tenant-1".to_string(), &device).is_err());
}

#[test]
fn test_verify_device_access_no_tenant_on_device() {
    let mut mapping_service = TenantMappingService::new();
    mapping_service.register_mapping("tenant-1".to_string(), 10);

    let access_control = TenantAccessControl::new(mapping_service);
    let device = create_test_device(1, None);

    assert!(access_control.verify_device_access(&"tenant-1".to_string(), &device).is_err());
}

#[test]
fn test_filter_sites_by_tenant() {
    let mut mapping_service = TenantMappingService::new();
    mapping_service.register_mapping("tenant-1".to_string(), 10);
    mapping_service.register_mapping("tenant-2".to_string(), 20);

    let access_control = TenantAccessControl::new(mapping_service);

    let sites = vec![
        create_test_site(1, Some(10)),
        create_test_site(2, Some(20)),
        create_test_site(3, Some(10)),
        create_test_site(4, None),
    ];

    let filtered = access_control.filter_sites_by_tenant(&"tenant-1".to_string(), sites).unwrap();
    assert_eq!(filtered.len(), 2);
    assert_eq!(filtered[0].id, Some(1));
    assert_eq!(filtered[1].id, Some(3));
}

#[test]
fn test_filter_sites_by_tenant_empty_result() {
    let mut mapping_service = TenantMappingService::new();
    mapping_service.register_mapping("tenant-1".to_string(), 10);

    let access_control = TenantAccessControl::new(mapping_service);

    let sites = vec![
        create_test_site(1, Some(20)),
        create_test_site(2, Some(30)),
    ];

    let filtered = access_control.filter_sites_by_tenant(&"tenant-1".to_string(), sites).unwrap();
    assert_eq!(filtered.len(), 0);
}

#[test]
fn test_filter_sites_by_tenant_no_mapping() {
    let mapping_service = TenantMappingService::new();
    let access_control = TenantAccessControl::new(mapping_service);

    let sites = vec![create_test_site(1, Some(10))];

    assert!(access_control.filter_sites_by_tenant(&"nonexistent".to_string(), sites).is_err());
}

#[test]
fn test_filter_devices_by_tenant() {
    let mut mapping_service = TenantMappingService::new();
    mapping_service.register_mapping("tenant-1".to_string(), 10);
    mapping_service.register_mapping("tenant-2".to_string(), 20);

    let access_control = TenantAccessControl::new(mapping_service);

    let devices = vec![
        create_test_device(1, Some(10)),
        create_test_device(2, Some(20)),
        create_test_device(3, Some(10)),
        create_test_device(4, None),
    ];

    let filtered = access_control.filter_devices_by_tenant(&"tenant-1".to_string(), devices).unwrap();
    assert_eq!(filtered.len(), 2);
    assert_eq!(filtered[0].id, Some(1));
    assert_eq!(filtered[1].id, Some(3));
}

#[test]
fn test_filter_devices_by_tenant_empty_result() {
    let mut mapping_service = TenantMappingService::new();
    mapping_service.register_mapping("tenant-1".to_string(), 10);

    let access_control = TenantAccessControl::new(mapping_service);

    let devices = vec![
        create_test_device(1, Some(20)),
        create_test_device(2, Some(30)),
    ];

    let filtered = access_control.filter_devices_by_tenant(&"tenant-1".to_string(), devices).unwrap();
    assert_eq!(filtered.len(), 0);
}

#[test]
fn test_has_access_to_netbox_tenant() {
    let mut mapping_service = TenantMappingService::new();
    mapping_service.register_mapping("tenant-1".to_string(), 10);

    let access_control = TenantAccessControl::new(mapping_service);

    assert!(access_control.has_access_to_netbox_tenant(&"tenant-1".to_string(), 10));
    assert!(!access_control.has_access_to_netbox_tenant(&"tenant-1".to_string(), 20));
    assert!(!access_control.has_access_to_netbox_tenant(&"nonexistent".to_string(), 10));
}

#[test]
fn test_get_netbox_tenant_id() {
    let mut mapping_service = TenantMappingService::new();
    mapping_service.register_mapping("tenant-1".to_string(), 10);

    let access_control = TenantAccessControl::new(mapping_service);

    assert_eq!(access_control.get_netbox_tenant_id(&"tenant-1".to_string()), Some(10));
    assert_eq!(access_control.get_netbox_tenant_id(&"nonexistent".to_string()), None);
}

#[test]
fn test_ensure_site_visible_success() {
    let mut mapping_service = TenantMappingService::new();
    mapping_service.register_mapping("tenant-1".to_string(), 10);
    let access_control = TenantAccessControl::new(mapping_service);
    let visibility = TenantResourceVisibility::new(access_control);

    let site = create_test_site(1, Some(10));
    assert!(visibility.ensure_site_visible(&"tenant-1".to_string(), &site).is_ok());
}

#[test]
fn test_ensure_site_visible_failure() {
    let mut mapping_service = TenantMappingService::new();
    mapping_service.register_mapping("tenant-1".to_string(), 10);
    let access_control = TenantAccessControl::new(mapping_service);
    let visibility = TenantResourceVisibility::new(access_control);

    let site = create_test_site(1, Some(20));
    assert!(visibility.ensure_site_visible(&"tenant-1".to_string(), &site).is_err());
}

#[test]
fn test_ensure_device_visible_success() {
    let mut mapping_service = TenantMappingService::new();
    mapping_service.register_mapping("tenant-1".to_string(), 10);
    let access_control = TenantAccessControl::new(mapping_service);
    let visibility = TenantResourceVisibility::new(access_control);

    let device = create_test_device(1, Some(10));
    assert!(visibility.ensure_device_visible(&"tenant-1".to_string(), &device).is_ok());
}

#[test]
fn test_ensure_device_visible_failure() {
    let mut mapping_service = TenantMappingService::new();
    mapping_service.register_mapping("tenant-1".to_string(), 10);
    let access_control = TenantAccessControl::new(mapping_service);
    let visibility = TenantResourceVisibility::new(access_control);

    let device = create_test_device(1, Some(20));
    assert!(visibility.ensure_device_visible(&"tenant-1".to_string(), &device).is_err());
}

#[test]
fn test_get_tenant_sites() {
    let mut mapping_service = TenantMappingService::new();
    mapping_service.register_mapping("tenant-1".to_string(), 10);
    let access_control = TenantAccessControl::new(mapping_service);
    let visibility = TenantResourceVisibility::new(access_control);

    let sites = vec![
        create_test_site(1, Some(10)),
        create_test_site(2, Some(20)),
        create_test_site(3, Some(10)),
    ];

    let filtered = visibility.get_tenant_sites(&"tenant-1".to_string(), sites).unwrap();
    assert_eq!(filtered.len(), 2);
}

#[test]
fn test_get_tenant_devices() {
    let mut mapping_service = TenantMappingService::new();
    mapping_service.register_mapping("tenant-1".to_string(), 10);
    let access_control = TenantAccessControl::new(mapping_service);
    let visibility = TenantResourceVisibility::new(access_control);

    let devices = vec![
        create_test_device(1, Some(10)),
        create_test_device(2, Some(20)),
        create_test_device(3, Some(10)),
    ];

    let filtered = visibility.get_tenant_devices(&"tenant-1".to_string(), devices).unwrap();
    assert_eq!(filtered.len(), 2);
}

#[test]
fn test_get_tenant_sites_no_mapping() {
    let mapping_service = TenantMappingService::new();
    let access_control = TenantAccessControl::new(mapping_service);
    let visibility = TenantResourceVisibility::new(access_control);

    let sites = vec![create_test_site(1, Some(10))];

    assert!(visibility.get_tenant_sites(&"nonexistent".to_string(), sites).is_err());
}

#[test]
fn test_tenant_isolation_multiple_tenants() {
    let mut mapping_service = TenantMappingService::new();
    mapping_service.register_mapping("tenant-1".to_string(), 10);
    mapping_service.register_mapping("tenant-2".to_string(), 20);
    mapping_service.register_mapping("tenant-3".to_string(), 30);

    let access_control = TenantAccessControl::new(mapping_service);

    let sites = vec![
        create_test_site(1, Some(10)),
        create_test_site(2, Some(20)),
        create_test_site(3, Some(30)),
        create_test_site(4, Some(10)),
    ];

    let clone_sites = |s: &Vec<NetBoxSite>| -> Vec<NetBoxSite> { s.iter().map(|x| x.clone()).collect() };

    let tenant1_sites = access_control
        .filter_sites_by_tenant(&"tenant-1".to_string(), clone_sites(&sites))
        .unwrap();
    assert_eq!(tenant1_sites.len(), 2);

    let tenant2_sites = access_control
        .filter_sites_by_tenant(&"tenant-2".to_string(), clone_sites(&sites))
        .unwrap();
    assert_eq!(tenant2_sites.len(), 1);

    let tenant3_sites = access_control.filter_sites_by_tenant(&"tenant-3".to_string(), sites).unwrap();
    assert_eq!(tenant3_sites.len(), 1);
}

#[test]
fn test_tenant_store_new() {
    let store = TenantStore::new();
    let sites = store.get_sites(&"tenant1".to_string());
    assert!(sites.is_empty());
}

#[test]
fn test_add_and_get_sites() {
    let mut store = TenantStore::new();
    let site1 = Site {
        id: "1".to_string(),
        name: "Site 1".to_string(),
        description: None,
        address: None,
        tenant_id: "tenant1".to_string(),
    };
    let site2 = Site {
        id: "2".to_string(),
        name: "Site 2".to_string(),
        description: None,
        address: None,
        tenant_id: "tenant1".to_string(),
    };

    store.add_site("tenant1".to_string(), site1);
    store.add_site("tenant1".to_string(), site2);

    let sites = store.get_sites(&"tenant1".to_string());
    assert_eq!(sites.len(), 2);
    assert_eq!(sites[0].id, "1");
    assert_eq!(sites[1].id, "2");
}

#[test]
fn tenant_test_tenant_isolation() {
    let mut store = TenantStore::new();
    let site1 = Site {
        id: "1".to_string(),
        name: "Site 1".to_string(),
        description: None,
        address: None,
        tenant_id: "tenant1".to_string(),
    };
    let site2 = Site {
        id: "2".to_string(),
        name: "Site 2".to_string(),
        description: None,
        address: None,
        tenant_id: "tenant2".to_string(),
    };

    store.add_site("tenant1".to_string(), site1);
    store.add_site("tenant2".to_string(), site2);

    let tenant1_sites = store.get_sites(&"tenant1".to_string());
    let tenant2_sites = store.get_sites(&"tenant2".to_string());

    assert_eq!(tenant1_sites.len(), 1);
    assert_eq!(tenant2_sites.len(), 1);
    assert_eq!(tenant1_sites[0].tenant_id, "tenant1");
    assert_eq!(tenant2_sites[0].tenant_id, "tenant2");
}

#[test]
fn test_get_sites_for_nonexistent_tenant() {
    let store = TenantStore::new();
    let sites = store.get_sites(&"nonexistent".to_string());
    assert!(sites.is_empty());
}

#[test]
fn test_site_from_order() {
    let order = netgate::domain::CreateSiteOrder {
        name: "Test Site".to_string(),
        description: Some("Test Description".to_string()),
        address: Some("123 Test St".to_string()),
    };

    let site = Site::from_order(order, "tenant1".to_string());

    assert_eq!(site.name, "Test Site");
    assert_eq!(site.description, Some("Test Description".to_string()));
    assert_eq!(site.address, Some("123 Test St".to_string()));
    assert_eq!(site.tenant_id, "tenant1");
    assert!(!site.id.is_empty());
}

#[test]
fn test_site_from_order_with_optional_fields() {
    let order = netgate::domain::CreateSiteOrder {
        name: "Minimal Site".to_string(),
        description: None,
        address: None,
    };

    let site = Site::from_order(order, "tenant2".to_string());

    assert_eq!(site.name, "Minimal Site");
    assert_eq!(site.description, None);
    assert_eq!(site.address, None);
    assert_eq!(site.tenant_id, "tenant2");
}

#[test]
fn test_site_id_is_unique() {
    let order = netgate::domain::CreateSiteOrder {
        name: "Site".to_string(),
        description: None,
        address: None,
    };

    let site1 = Site::from_order(order.clone(), "tenant1".to_string());
    let site2 = Site::from_order(order, "tenant1".to_string());

    assert_ne!(site1.id, site2.id);
}

#[test]
fn test_upstream_filter_front_half() {
    let mut mapping_service = TenantMappingService::new();
    mapping_service.register_mapping("tenant-1".to_string(), 10);
    let access_control = TenantAccessControl::new(mapping_service);

    // a known tenant yields the inventory filter before any upstream call
    assert_eq!(access_control.upstream_filter(&"tenant-1".to_string()).unwrap(), 10);

    // an unknown tenant is rejected without contacting the upstream
    let err = access_control.upstream_filter(&"nobody".to_string()).unwrap_err();
    assert_eq!(err.status_code(), 401);
}

use netgate::domain::CreateSiteOrder;
use netgate::errors::AppError;
use netgate::models::NetBoxSite;
use netgate::order_service::OrderService;
use netgate::extensible_order_service::ExtensibleOrderServiceBuilder;
use netgate::models::CreateSiteRequest;
use netgate::plugin::{
    NetBoxResource, NetBoxResourceRequest, OrderPayload, OrderTypeConfigLoader, OrderTypeRegistry,
};
use netgate::processors::SiteOrderProcessor;
use netgate::workflow::OrderState;

fn create_test_order() -> CreateSiteOrder {
    CreateSiteOrder {
        name: "Test Site".to_string(),
        description: Some("Test Description".to_string()),
        address: Some("123 Test St".to_string()),
    }
}

#[test]
fn test_order_payload_order_type() {
    let order = OrderPayload::Site(CreateSiteOrder {
        name: "Test".to_string(),
        description: None,
        address: None,
    });
    assert_eq!(order.order_type(), "site");
}

#[test]
fn test_site_order_processor_creation() {
    let processor = SiteOrderProcessor::new();
    assert_eq!(processor.order_type(), "site");
}

#[test]
fn test_site_order_processor_validate() {
    let processor = SiteOrderProcessor::new();
    let order = OrderPayload::Site(CreateSiteOrder {
        name: "Test Site".to_string(),
        description: Some("Test".to_string()),
        address: None,
    });

    let result = processor.validate(&order);
    assert!(result.is_ok());
}

#[test]
fn test_site_order_processor_validate_failure() {
    let processor = SiteOrderProcessor::new();
    let order = OrderPayload::Site(CreateSiteOrder {
        name: "".to_string(),
        description: None,
        address: None,
    });

    let result = processor.validate(&order);
    assert!(result.is_err());
}

#[test]
fn test_site_order_processor_transform() {
    let processor = SiteOrderProcessor::new();
    let order = OrderPayload::Site(CreateSiteOrder {
        name: "Test Site".to_string(),
        description: Some("Test".to_string()),
        address: None,
    });

    let result = processor.transform(order, None);
    assert!(result.is_ok());
    match result.unwrap() {
        NetBoxResourceRequest::Site(_) => {}
    }
}

#[test]
fn test_order_type_registry_creation() {
    let registry = OrderTypeRegistry::new("site".to_string());
    assert_eq!(registry.default_order_type(), "site");
    assert!(registry.registered_types().is_empty());
}

#[test]
fn test_order_type_registry_default() {
    let registry = OrderTypeRegistry::default();
    assert_eq!(registry.default_order_type(), "site");
}

#[test]
fn test_order_type_registry_register() {
    let mut registry = OrderTypeRegistry::new("site".to_string());
    let processor = SiteOrderProcessor::new();

    registry.register(processor);
    assert_eq!(registry.registered_types().len(), 1);
    assert!(registry.is_registered("site"));
}

#[test]
fn test_order_type_registry_get_processor() {
    let mut registry = OrderTypeRegistry::new("site".to_string());
    let processor = SiteOrderProcessor::new();

    registry.register(processor);

    let retrieved = registry.get_processor("site");
    assert!(retrieved.is_some());
    assert_eq!(retrieved.unwrap().order_type(), "site");
}

#[test]
fn test_order_type_registry_get_nonexistent() {
    let registry = OrderTypeRegistry::new("site".to_string());
    let retrieved = registry.get_processor("nonexistent");
    assert!(retrieved.is_none());
}

#[test]
fn test_order_type_config_loader_default() {
    let configs = OrderTypeConfigLoader::default_configs();
    assert_eq!(configs.len(), 1);
    assert_eq!(configs[0].order_type, "site");
}

#[test]
fn test_netbox_resource_request_type() {
    let request = NetBoxResourceRequest::Site(CreateSiteRequest {
        name: "Test".to_string(),
        slug: None,
        description: None,
        status: None,
        region: None,
        tenant: None,
        facility: None,
        physical_address: None,
        shipping_address: None,
        latitude: None,
        longitude: None,
        contact_name: None,
        contact_phone: None,
        contact_email: None,
        comments: None,
        tags: None,
    });
    assert_eq!(request.resource_type(), "site");
}

#[test]
fn test_netbox_resource_id() {
    let resource = NetBoxResource::Site(NetBoxSite {
        id: Some(123),
        name: "Test".to_string(),
        ..Default::default()
    });
    assert_eq!(resource.resource_id(), Some(123));
    assert_eq!(resource.resource_type(), "site");
}

#[test]
fn test_get_order_status_not_found() {
    let service = OrderService::new();

    let result = service.get_order_status("nonexistent", &"tenant1".to_string());
    assert!(result.is_err());
    match result.unwrap_err() {
        AppError::NotFound(_) => {}
        _ => panic!("Expected NotFound error"),
    }
}

#[test]
fn test_get_order_status_unauthorized() {
    let mut service = OrderService::new();

    let order_id = service.workflow_manager.create_order("tenant1".to_string());

    let result = service.get_order_status(&order_id, &"tenant2".to_string());
    assert!(result.is_err());
    match result.unwrap_err() {
        AppError::Unauthorized => {}
        _ => panic!("Expected Unauthorized error"),
    }
}

#[test]
fn test_get_order_status_success() {
    let mut service = OrderService::new();

    let order_id = service.workflow_manager.create_order("tenant1".to_string());
    service
        .workflow_manager
        .update_order_state(&order_id, OrderState::Validated)
        .unwrap();

    let result = service.get_order_status(&order_id, &"tenant1".to_string());
    assert!(result.is_ok());
    let status = result.unwrap();
    assert_eq!(status.order_id, order_id);
    assert_eq!(status.state, OrderState::Validated);
}

#[test]
fn test_process_site_order_validation_failure() {
    let mut service = OrderService::new();

    let invalid_order = CreateSiteOrder {
        name: "".to_string(),
        description: None,
        address: None,
    };

    let result = service.prepare_site_order(invalid_order, "tenant1".to_string());
    assert!(result.is_err());
    match result.unwrap_err() {
        AppError::ValidationError(_) => {}
        _ => panic!("Expected ValidationError"),
    }
    // no workflow was created for the rejected order
    assert!(service.workflow_manager.get_tenant_orders("tenant1").is_empty());
}

#[test]
fn test_process_site_order_workflow_states() {
    let mut service = OrderService::new();
    let order = create_test_order();

    let (order_id, _request) = service
        .prepare_site_order(order, "tenant1".to_string())
        .unwrap();

    // the prepared workflow sits in Processing until the submission settles
    let w = service.workflow_manager.get_order(&order_id).unwrap();
    assert_eq!(w.state, OrderState::Processing);

    // an upstream failure marks it Failed with a message
    let err = service.fail_site_order(
        &order_id,
        AppError::Internal("upstream returned 500".to_string()),
    );
    assert_eq!(err.status_code(), 500);
    let failed = service.workflow_manager.get_order(&order_id).unwrap();
    assert_eq!(failed.state, OrderState::Failed);
    assert!(failed.error_message.is_some());
}

#[test]
fn test_order_service_full_flow() {
    let mut service = OrderService::new();
    let order = create_test_order();

    let (order_id, request) = service
        .prepare_site_order(order, "tenant1".to_string())
        .unwrap();
    assert_eq!(request.name, "Test Site");
    assert!(request.tags.as_ref().unwrap().contains(&"netgate".to_string()));
    assert!(request.tags.as_ref().unwrap().contains(&"enriched".to_string()));

    // the upstream answers with the created site
    let created = NetBoxSite {
        id: Some(123),
        name: "Test Site".to_string(),
        description: Some("Test Description".to_string()),
        status: Some(netgate::models::SiteStatus::Active),
        ..Default::default()
    };

    let processed = service
        .complete_site_order(order_id.clone(), "tenant1".to_string(), created)
        .unwrap();
    assert_eq!(processed.netbox_site.id, Some(123));
    assert_eq!(processed.netbox_site.name, "Test Site");
    assert_eq!(processed.workflow_state, OrderState::Completed);

    let workflow = service.workflow_manager.get_order(&processed.order_id).unwrap();
    assert_eq!(workflow.state, OrderState::Completed);
    assert_eq!(workflow.netbox_site_id, Some(123));
}

#[test]
fn test_extensible_order_service_builder() {
    let service = ExtensibleOrderServiceBuilder::new()
        .with_default_processors()
        .build();
    assert!(service.registry.is_registered("site"));
}

#[test]
fn test_extensible_get_order_status_not_found() {
    let service = ExtensibleOrderServiceBuilder::new()
        .with_default_processors()
        .build();

    let result = service.get_order_status("nonexistent", &"tenant1".to_string());
    assert!(result.is_err());
    match result.unwrap_err() {
        AppError::NotFound(_) => {}
        _ => panic!("Expected NotFound error"),
    }
}

#[test]
fn test_extensible_prepare_unknown_order_type() {
    let mut service = ExtensibleOrderServiceBuilder::new()
        .with_default_processors()
        .build();

    let order = OrderPayload::Site(create_test_order());
    let result = service.prepare_order(order, "tenant1".to_string(), Some("network"));
    assert!(result.is_err());
    match result.unwrap_err() {
        AppError::ValidationError(_) => {}
        _ => panic!("Expected ValidationError"),
    }
}

#[test]
fn test_validation_rejection_carries_reason() {
    let mut service = OrderService::new();
    let order = CreateSiteOrder { name: "   ".to_string(), description: None, address: None };
    match service.prepare_site_order(order, "t1".to_string()).unwrap_err() {
        AppError::ValidationError(m) => assert_eq!(m, "Site name cannot be empty"),
        _ => panic!("Expected ValidationError"),
    }
}

#[test]
fn test_extensible_pipeline_accepts_valid_order() {
    let mut service = ExtensibleOrderServiceBuilder::new()
        .with_default_processors()
        .build();

    let order = OrderPayload::Site(create_test_order());
    let (order_id, request) = service.prepare_order(order, "t1".to_string(), None).unwrap();
    match &request {
        NetBoxResourceRequest::Site(req) => {
            assert_eq!(req.name, "Test Site");
            assert!(req.tags.as_ref().unwrap().contains(&"enriched".to_string()));
        }
    }

    let created = NetBoxResource::Site(NetBoxSite {
        id: Some(77),
        name: "Test Site".to_string(),
        ..Default::default()
    });
    let processor = SiteOrderProcessor::new();
    let result = service
        .complete_order(order_id.clone(), "t1".to_string(), created, &processor)
        .unwrap();
    assert_eq!(result.order_id, order_id);
    let status = service.get_order_status(&order_id, &"t1".to_string()).unwrap();
    assert_eq!(status.state, OrderState::Completed);
    assert_eq!(status.netbox_resource_id, Some(77));
}

#[test]
fn test_extensible_rejects_invalid_order_with_reason() {
    let mut service = ExtensibleOrderServiceBuilder::new()
        .with_default_processors()
        .build();
    let order = OrderPayload::Site(CreateSiteOrder {
        name: "".to_string(),
        description: None,
        address: None,
    });
    match service.prepare_order(order, "t1".to_string(), None).unwrap_err() {
        AppError::ValidationError(m) => assert_eq!(m, "Site name cannot be empty"),
        _ => panic!("Expected ValidationError"),
    }
}

use netgate::enrichment::{
    BusinessMetadata, ContactData, EnrichmentData, GeographicData, ObjectEnricher,
};
use netgate::models::{CustomField, NetBoxSite, NetBoxDevice, SiteStatus};

fn create_test_site() -> NetBoxSite {
    NetBoxSite {
        id: Some(1),
        name: "Test Site".to_string(),
        status: Some(SiteStatus::Active),
        physical_address: Some("123 Main St".to_string()),
        ..Default::default()
    }
}

fn create_test_device() -> NetBoxDevice {
    NetBoxDevice {
        id: Some(1),
        device_type: Some(1),
        device_role: Some(1),
        site: Some(1),
        ..Default::default()
    }
}

fn field_value(fields: &Vec<CustomField>, key: &str) -> Option<String> {
    fields.iter().find(|f| f.key == key).map(|f| f.value.clone())
}

#[test]
fn test_enrich_site_with_geographic_data() {
    let enricher = ObjectEnricher::new();
    let site = create_test_site();

    // coordinates in microdegrees: 40.7128 N, -74.0060 E
    let enrichment = EnrichmentData {
        geographic: Some(GeographicData {
            latitude: 40712800,
            longitude: -74006000,
            timezone: Some("America/New_York".to_string()),
            country: Some("USA".to_string()),
            region: Some("North America".to_string()),
        }),
        contact: None,
        business: None,
        tags: Vec::new(),
        metadata: Vec::new(),
    };

    let enriched = enricher.enrich_site(site, &enrichment);

    assert_eq!(enriched.latitude, Some(40712800));
    assert_eq!(enriched.longitude, Some(-74006000));
    assert!(enriched.tags.as_ref().unwrap().contains(&"country-usa".to_string()));
    assert!(enriched.tags.as_ref().unwrap().contains(&"region-north america".to_string()));
}

#[test]
fn test_enrich_site_with_contact_data() {
    let enricher = ObjectEnricher::new();
    let site = create_test_site();

    let enrichment = EnrichmentData {
        geographic: None,
        contact: Some(ContactData {
            name: Some("John Doe".to_string()),
            email: Some("john@example.com".to_string()),
            phone: Some("+1-555-0123".to_string()),
            department: Some("IT".to_string()),
        }),
        business: None,
        tags: Vec::new(),
        metadata: Vec::new(),
    };

    let enriched = enricher.enrich_site(site, &enrichment);

    assert_eq!(enriched.contact_name, Some("John Doe".to_string()));
    assert_eq!(enriched.contact_email, Some("john@example.com".to_string()));
    assert_eq!(enriched.contact_phone, Some("+1-555-0123".to_string()));
}

#[test]
fn test_enrich_site_with_business_metadata() {
    let enricher = ObjectEnricher::new();
    let site = create_test_site();

    let enrichment = EnrichmentData {
        geographic: None,
        contact: None,
        business: Some(BusinessMetadata {
            cost_center: Some("CC-123".to_string()),
            project_code: Some("PROJ-456".to_string()),
            environment: Some("production".to_string()),
            priority: Some("critical".to_string()),
        }),
        tags: Vec::new(),
        metadata: Vec::new(),
    };

    let enriched = enricher.enrich_site(site, &enrichment);

    // Check computed facility
    assert_eq!(enriched.facility, Some("FAC-CC-123".to_string()));

    // Check custom fields
    let custom_fields = enriched.custom_fields.as_ref().unwrap();
    assert_eq!(field_value(custom_fields, "cost_center"), Some("CC-123".to_string()));
    assert_eq!(field_value(custom_fields, "project_code"), Some("PROJ-456".to_string()));
    assert_eq!(field_value(custom_fields, "environment"), Some("production".to_string()));
    assert_eq!(field_value(custom_fields, "priority"), Some("critical".to_string()));

    // Check tags
    let tags = enriched.tags.as_ref().unwrap();
    assert!(tags.contains(&"prod".to_string()));
    assert!(tags.contains(&"critical".to_string()));
    assert!(tags.contains(&"priority-critical".to_string()));
    assert!(tags.contains(&"cost-center-cc-123".to_string()));
}

#[test]
fn test_enrich_site_computed_description() {
    let enricher = ObjectEnricher::new();
    let mut site = create_test_site();
    site.description = None;

    let enrichment = EnrichmentData {
        geographic: Some(GeographicData {
            latitude: 0,
            longitude: 0,
            timezone: None,
            country: Some("USA".to_string()),
            region: None,
        }),
        contact: None,
        business: Some(BusinessMetadata {
            cost_center: None,
            project_code: None,
            environment: Some("production".to_string()),
            priority: None,
        }),
        tags: Vec::new(),
        metadata: Vec::new(),
    };

    let enriched = enricher.enrich_site(site, &enrichment);

    assert!(enriched.description.is_some());
    let desc = enriched.description.unwrap();
    assert!(desc.contains("Environment: production"));
    assert!(desc.contains("Country: USA"));
}

#[test]
fn test_enrich_device_with_business_metadata() {
    let enricher = ObjectEnricher::new();
    let device = create_test_device();

    let enrichment = EnrichmentData {
        geographic: None,
        contact: None,
        business: Some(BusinessMetadata {
            cost_center: Some("CC-789".to_string()),
            project_code: Some("PROJ-ABC".to_string()),
            environment: Some("staging".to_string()),
            priority: Some("high".to_string()),
        }),
        tags: Vec::new(),
        metadata: Vec::new(),
    };

    let enriched = enricher.enrich_device(device, &enrichment);

    // Check computed name
    assert!(enriched.name.is_some());
    assert!(enriched.name.as_ref().unwrap().starts_with("DEV-PROJ-ABC-"));

    // Check computed asset tag
    assert_eq!(enriched.asset_tag, Some("AT-CC-789".to_string()));

    // Check custom fields
    let custom_fields = enriched.custom_fields.as_ref().unwrap();
    assert_eq!(field_value(custom_fields, "cost_center"), Some("CC-789".to_string()));
    assert_eq!(field_value(custom_fields, "environment"), Some("staging".to_string()));

    // Check tags
    let tags = enriched.tags.as_ref().unwrap();
    assert!(tags.contains(&"staging".to_string()));
    assert!(tags.contains(&"priority-high".to_string()));
}

#[test]
fn test_enrich_site_status_based_tags() {
    let enricher = ObjectEnricher::new();
    let mut site = create_test_site();
    site.status = Some(SiteStatus::Planned);

    let enrichment = EnrichmentData {
        geographic: None,
        contact: None,
        business: None,
        tags: Vec::new(),
        metadata: Vec::new(),
    };
    let enriched = enricher.enrich_site(site, &enrichment);

    let tags = enriched.tags.as_ref().unwrap();
    assert!(tags.contains(&"status-planned".to_string()));
}

#[test]
fn test_compute_status_from_environment() {
    let enricher = ObjectEnricher::new();

    let prod_enrichment = EnrichmentData {
        geographic: None,
        contact: None,
        business: Some(BusinessMetadata {
            cost_center: None,
            project_code: None,
            environment: Some("production".to_string()),
            priority: None,
        }),
        tags: Vec::new(),
        metadata: Vec::new(),
    };
    assert_eq!(enricher.compute_status(&prod_enrichment), Some(SiteStatus::Active));

    let staging_enrichment = EnrichmentData {
        geographic: None,
        contact: None,
        business: Some(BusinessMetadata {
            cost_center: None,
            project_code: None,
            environment: Some("staging".to_string()),
            priority: None,
        }),
        tags: Vec::new(),
        metadata: Vec::new(),
    };
    assert_eq!(enricher.compute_status(&staging_enrichment), Some(SiteStatus::Staging));

    let dev_enrichment = EnrichmentData {
        geographic: None,
        contact: None,
        business: Some(BusinessMetadata {
            cost_center: None,
            project_code: None,
            environment: Some("development".to_string()),
            priority: None,
        }),
        tags: Vec::new(),
        metadata: Vec::new(),
    };
    assert_eq!(enricher.compute_status(&dev_enrichment), Some(SiteStatus::Planned));
}

#[test]
fn test_enrich_site_preserves_existing_data() {
    let enricher = ObjectEnricher::new();
    let mut site = create_test_site();
    site.latitude = Some(50000000);
    site.longitude = Some(10000000);
    site.contact_name = Some("Existing Contact".to_string());
    site.tags = Some(vec!["existing-tag".to_string()]);

    let enrichment = EnrichmentData {
        geographic: Some(GeographicData {
            latitude: 40712800,
            longitude: -74006000,
            timezone: None,
            country: None,
            region: None,
        }),
        contact: Some(ContactData {
            name: Some("New Contact".to_string()),
            email: None,
            phone: None,
            department: None,
        }),
        business: None,
        tags: Vec::new(),
        metadata: Vec::new(),
    };

    let enriched = enricher.enrich_site(site, &enrichment);

    // Existing data should be preserved
    assert_eq!(enriched.latitude, Some(50000000));
    assert_eq!(enriched.longitude, Some(10000000));
    assert_eq!(enriched.contact_name, Some("Existing Contact".to_string()));

    // Tags should be merged
    let tags = enriched.tags.as_ref().unwrap();
    assert!(tags.contains(&"existing-tag".to_string()));
    assert!(tags.contains(&"netgate".to_string()));
}

#[test]
fn test_enrich_site_with_custom_tags() {
    let enricher = ObjectEnricher::new();
    let site = create_test_site();

    let enrichment = EnrichmentData {
        geographic: None,
        contact: None,
        business: None,
        tags: vec!["custom-tag1".to_string(), "custom-tag2".to_string()],
        metadata: Vec::new(),
    };

    let enriched = enricher.enrich_site(site, &enrichment);

    let tags = enriched.tags.as_ref().unwrap();
    assert!(tags.contains(&"custom-tag1".to_string()));
    assert!(tags.contains(&"custom-tag2".to_string()));
    assert!(tags.contains(&"netgate".to_string()));
}

#[test]
fn test_enrich_device_computed_name() {
    let enricher = ObjectEnricher::new();
    let mut device = create_test_device();
    device.name = None;

    let enrichment = EnrichmentData {
        geographic: None,
        contact: None,
        business: Some(BusinessMetadata {
            cost_center: None,
            project_code: Some("TEST-PROJ".to_string()),
            environment: None,
            priority: None,
        }),
        tags: Vec::new(),
        metadata: Vec::new(),
    };

    let enriched = enricher.enrich_device(device, &enrichment);

    assert!(enriched.name.is_some());
    let name = enriched.name.unwrap();
    assert!(name.starts_with("DEV-TEST-PROJ-"));
}

#[test]
fn test_enrichment_with_empty_data() {
    let enricher = ObjectEnricher::new();
    let site = create_test_site();
    let enrichment = EnrichmentData::default();

    let enriched = enricher.enrich_site(site, &enrichment);

    // Should still add default tags
    assert!(enriched.tags.is_some());
    let tags = enriched.tags.unwrap();
    assert!(tags.contains(&"netgate".to_string()));
    assert!(tags.contains(&"enriched".to_string()));
}

#[test]
fn test_enrich_site_twice_changes_nothing() {
    let enricher = ObjectEnricher::new();
    let site = create_test_site();
    let enrichment = EnrichmentData {
        geographic: Some(GeographicData {
            latitude: 40712800,
            longitude: -74006000,
            timezone: None,
            country: Some("USA".to_string()),
            region: Some("North America".to_string()),
        }),
        contact: Some(ContactData {
            name: Some("John Doe".to_string()),
            email: Some("john@example.com".to_string()),
            phone: None,
            department: None,
        }),
        business: Some(BusinessMetadata {
            cost_center: Some("CC-123".to_string()),
            project_code: Some("PROJ-456".to_string()),
            environment: Some("production".to_string()),
            priority: Some("critical".to_string()),
        }),
        tags: vec!["extra".to_string()],
        metadata: vec![CustomField { key: "owner".to_string(), value: "ops".to_string() }],
    };

    let once = enricher.enrich_site(site, &enrichment);
    let first_tags = once.tags.clone().unwrap();
    let first_fields: Vec<(String, String)> = once
        .custom_fields
        .clone()
        .unwrap()
        .iter()
        .map(|f| (f.key.clone(), f.value.clone()))
        .collect();
    let first_description = once.description.clone();
    let first_facility = once.facility.clone();

    let twice = enricher.enrich_site(once, &enrichment);
    assert_eq!(twice.tags.unwrap(), first_tags);
    let second_fields: Vec<(String, String)> = twice
        .custom_fields
        .unwrap()
        .iter()
        .map(|f| (f.key.clone(), f.value.clone()))
        .collect();
    assert_eq!(second_fields, first_fields);
    assert_eq!(twice.description, first_description);
    assert_eq!(twice.facility, first_facility);
    assert_eq!(twice.latitude, Some(40712800));
    assert_eq!(twice.contact_name, Some("John Doe".to_string()));
}

#[test]
fn test_enrichment_metadata_overrides_business_fields() {
    let enricher = ObjectEnricher::new();
    let site = create_test_site();
    let enrichment = EnrichmentData {
        geographic: None,
        contact: None,
        business: Some(BusinessMetadata {
            cost_center: Some("CC-1".to_string()),
            project_code: None,
            environment: None,
            priority: None,
        }),
        tags: Vec::new(),
        metadata: vec![CustomField {
            key: "cost_center".to_string(),
            value: "CC-OVERRIDE".to_string(),
        }],
    };
    let enriched = enricher.enrich_site(site, &enrichment);
    let fields = enriched.custom_fields.unwrap();
    assert_eq!(field_value(&fields, "cost_center"), Some("CC-OVERRIDE".to_string()));
}

#[test]
fn test_enricher_with_config_custom_tags() {
    let enricher = ObjectEnricher::with_config(
        vec!["base".to_string()],
        vec![("qa".to_string(), vec!["qa-env".to_string()])],
    );
    let site = create_test_site();
    let enrichment = EnrichmentData {
        geographic: None,
        contact: None,
        business: Some(BusinessMetadata {
            cost_center: None,
            project_code: None,
            environment: Some("qa".to_string()),
            priority: None,
        }),
        tags: Vec::new(),
        metadata: Vec::new(),
    };
    let enriched = enricher.enrich_site(site, &enrichment);
    let tags = enriched.tags.unwrap();
    assert!(tags.contains(&"base".to_string()));
    assert!(tags.contains(&"qa-env".to_string()));
    assert!(!tags.contains(&"netgate".to_string()));
}

#[test]
fn test_merge_enrichment_sources() {
    let source1 = EnrichmentData {
        geographic: Some(GeographicData {
            latitude: 40712800,
            longitude: -74006000,
            timezone: None,
            country: Some("USA".to_string()),
            region: None,
        }),
        contact: None,
        business: None,
        tags: vec!["tag1".to_string(), "tag2".to_string()],
        metadata: vec![CustomField { key: "key1".to_string(), value: "value1".to_string() }],
    };

    let source2 = EnrichmentData {
        geographic: None,
        contact: Some(ContactData {
            name: Some("Jane Doe".to_string()),
            email: None,
            phone: None,
            department: None,
        }),
        business: None,
        tags: vec!["tag2".to_string(), "tag3".to_string()],
        metadata: vec![
            CustomField { key: "key2".to_string(), value: "value2".to_string() },
            CustomField { key: "key1".to_string(), value: "value1-override".to_string() },
        ],
    };

    let merged = ObjectEnricher::merge_enrichment_sources(vec![source1, source2]);

    assert!(merged.geographic.is_some());
    assert!(merged.contact.is_some());
    assert_eq!(merged.contact.unwrap().name, Some("Jane Doe".to_string()));

    // Tags should be merged and deduplicated
    assert_eq!(merged.tags.len(), 3);
    assert!(merged.tags.contains(&"tag1".to_string()));
    assert!(merged.tags.contains(&"tag2".to_string()));
    assert!(merged.tags.contains(&"tag3".to_string()));

    // Metadata: later source overrides earlier
    let lookup = |key: &str| -> Option<String> {
        merged.metadata.iter().find(|f| f.key == key).map(|f| f.value.clone())
    };
    assert_eq!(lookup("key1"), Some("value1-override".to_string()));
    assert_eq!(lookup("key2"), Some("value2".to_string()));
}

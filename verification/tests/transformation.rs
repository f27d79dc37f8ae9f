use netgate::domain::CreateSiteOrder;
use netgate::models::SiteStatus;
use netgate::transformation::{generate_slug, OrderTransformer, SiteEnrichmentData};

#[test]
fn test_transform_site_order_basic() {
    let transformer = OrderTransformer::new();
    let order = CreateSiteOrder {
        name: "Test Site".to_string(),
        description: Some("Test Description".to_string()),
        address: Some("123 Main St".to_string()),
    };

    let request = transformer.transform_site_order(order, Some(10));

    assert_eq!(request.name, "Test Site");
    assert_eq!(request.description, Some("Test Description".to_string()));
    assert_eq!(request.physical_address, Some("123 Main St".to_string()));
    assert_eq!(request.shipping_address, Some("123 Main St".to_string()));
    assert_eq!(request.tenant, Some(10));
    assert_eq!(request.status, Some(SiteStatus::Planned));
    assert!(request.slug.is_some());
    assert_eq!(request.slug.unwrap(), "test-site");
}

#[test]
fn test_generate_slug() {
    assert_eq!(generate_slug("Test Site"), "test-site");
    assert_eq!(generate_slug("Site-Name_123"), "site-name-123");
    assert_eq!(generate_slug("Site  Name"), "site-name");
    assert_eq!(generate_slug("UPPERCASE"), "uppercase");
}

#[test]
fn test_generate_slug_trims_separators() {
    assert_eq!(generate_slug("--Hello--World--"), "hello-world");
    assert_eq!(generate_slug("(parens) & symbols!"), "parens-symbols");
    assert_eq!(generate_slug(""), "");
}

#[test]
fn test_generate_slug_caps_at_fifty_characters() {
    let long = "a".repeat(80);
    let slug = generate_slug(&long);
    assert_eq!(slug.chars().count(), 50);
}

#[test]
fn test_transform_with_custom_status() {
    let transformer = OrderTransformer::with_default_status(SiteStatus::Active);
    let order = CreateSiteOrder {
        name: "Active Site".to_string(),
        description: None,
        address: None,
    };

    let request = transformer.transform_site_order(order, None);
    assert_eq!(request.status, Some(SiteStatus::Active));
}

#[test]
fn test_enrich_site_request() {
    let transformer = OrderTransformer::new();
    let order = CreateSiteOrder {
        name: "Test Site".to_string(),
        description: None,
        address: None,
    };

    let request = transformer.transform_site_order(order, None);

    let enrichment = SiteEnrichmentData {
        region_id: Some(5),
        facility: Some("DC-1".to_string()),
        contact_name: Some("John Doe".to_string()),
        contact_email: Some("john@example.com".to_string()),
        contact_phone: Some("+1-555-0123".to_string()),
        tags: Some(vec!["production".to_string()]),
    };

    let enriched = transformer.enrich_site_request(request, &enrichment);

    assert_eq!(enriched.region, Some(5));
    assert_eq!(enriched.facility, Some("DC-1".to_string()));
    assert_eq!(enriched.contact_name, Some("John Doe".to_string()));
    assert_eq!(enriched.contact_email, Some("john@example.com".to_string()));
    assert_eq!(enriched.contact_phone, Some("+1-555-0123".to_string()));
    assert!(enriched.tags.as_ref().unwrap().contains(&"production".to_string()));
    assert!(enriched.tags.as_ref().unwrap().contains(&"netgate".to_string()));
}

#[test]
fn test_enrich_site_request_sorts_and_dedups_tags() {
    let transformer = OrderTransformer::new();
    let order = CreateSiteOrder {
        name: "Test Site".to_string(),
        description: None,
        address: None,
    };
    let request = transformer.transform_site_order(order, None);
    let enrichment = SiteEnrichmentData {
        region_id: None,
        facility: None,
        contact_name: None,
        contact_email: None,
        contact_phone: None,
        tags: Some(vec!["netgate".to_string(), "alpha".to_string(), "alpha".to_string()]),
    };
    let enriched = transformer.enrich_site_request(request, &enrichment);
    let tags = enriched.tags.unwrap();
    assert_eq!(tags, vec!["alpha".to_string(), "netgate".to_string(), "order-portal".to_string()]);
}

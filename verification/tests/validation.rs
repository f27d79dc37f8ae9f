use netgate::domain::CreateSiteOrder;
use netgate::validation::{OrderValidator, ValidationError};

#[test]
fn test_validate_name_empty() {
    let validator = OrderValidator::new();
    let result = validator.validate_name("");
    assert!(result.is_err());
    assert_eq!(result.unwrap_err(), ValidationError::EmptyName);
}

#[test]
fn test_validate_name_whitespace_only() {
    let validator = OrderValidator::new();
    let result = validator.validate_name("   ");
    assert!(result.is_err());
    assert_eq!(result.unwrap_err(), ValidationError::EmptyName);
}

#[test]
fn test_validate_name_too_long() {
    let validator = OrderValidator::new();
    let long_name = "a".repeat(101);
    let result = validator.validate_name(&long_name);
    assert!(result.is_err());
    assert_eq!(result.unwrap_err(), ValidationError::NameTooLong);
}

#[test]
fn test_validate_name_invalid_characters() {
    let validator = OrderValidator::new();
    let result = validator.validate_name("Site@Name");
    assert!(result.is_err());
    assert_eq!(result.unwrap_err(), ValidationError::InvalidNameFormat);
}

#[test]
fn test_validate_name_valid() {
    let validator = OrderValidator::new();
    let valid_names = vec![
        "Site-1",
        "Site_1",
        "Site.1",
        "Site (Main)",
        "Site-Name_123",
    ];

    for name in valid_names {
        assert!(validator.validate_name(name).is_ok(), "Failed for: {}", name);
    }
}

#[test]
fn test_validate_description_too_long() {
    let validator = OrderValidator::new();
    let long_desc = "a".repeat(501);
    let result = validator.validate_description(&long_desc);
    assert!(result.is_err());
    assert_eq!(result.unwrap_err(), ValidationError::DescriptionTooLong);
}

#[test]
fn test_validate_address_too_long() {
    let validator = OrderValidator::new();
    let long_addr = "a".repeat(201);
    let result = validator.validate_address(&long_addr);
    assert!(result.is_err());
    assert_eq!(result.unwrap_err(), ValidationError::AddressTooLong);
}

#[test]
fn test_validate_site_order_success() {
    let validator = OrderValidator::new();
    let order = CreateSiteOrder {
        name: "Valid Site".to_string(),
        description: Some("Valid description".to_string()),
        address: Some("123 Main St".to_string()),
    };
    assert!(validator.validate_site_order(&order).is_ok());
}

#[test]
fn test_validate_site_order_invalid_name() {
    let validator = OrderValidator::new();
    let order = CreateSiteOrder {
        name: "".to_string(),
        description: None,
        address: None,
    };
    assert!(validator.validate_site_order(&order).is_err());
}

#[test]
fn test_validate_site_order_with_optional_fields() {
    let validator = OrderValidator::new();
    let order = CreateSiteOrder {
        name: "Minimal Site".to_string(),
        description: None,
        address: None,
    };
    assert!(validator.validate_site_order(&order).is_ok());
}

#[test]
fn test_validate_name_boundary_is_hundred_characters() {
    let validator = OrderValidator::new();
    let just_right = "a".repeat(100);
    assert!(validator.validate_name(&just_right).is_ok());
}

#[test]
fn test_validate_with_custom_rules() {
    let validator = OrderValidator::with_rules(5, 10, 10);
    assert!(validator.validate_name("abcde").is_ok());
    assert_eq!(
        validator.validate_name("abcdef").unwrap_err(),
        ValidationError::NameTooLong
    );
    assert_eq!(
        validator.validate_description("abcdefghijk").unwrap_err(),
        ValidationError::DescriptionTooLong
    );
}

#[test]
fn test_validation_error_messages() {
    assert_eq!(ValidationError::EmptyName.message(), "Site name cannot be empty");
    assert_eq!(
        ValidationError::NameTooLong.message(),
        "Site name exceeds maximum length of 100 characters"
    );
    assert_eq!(
        ValidationError::InvalidNameFormat.message(),
        "Site name contains invalid characters"
    );
}

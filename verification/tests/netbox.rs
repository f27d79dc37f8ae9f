use netgate::retry::RetryableError;
use netgate::transport::{build_url, check_token, list_query, normalize_base_url, NetBoxError};

#[test]
fn test_from_status_code_401() {
    let error = NetBoxError::from_status_code(401, "Unauthorized".to_string());
    match error {
        NetBoxError::AuthenticationError(msg) => assert_eq!(msg, "Unauthorized"),
        _ => panic!("Expected AuthenticationError"),
    }
}

#[test]
fn test_from_status_code_403() {
    let error = NetBoxError::from_status_code(403, "Forbidden".to_string());
    match error {
        NetBoxError::AuthenticationError(msg) => assert_eq!(msg, "Forbidden"),
        _ => panic!("Expected AuthenticationError"),
    }
}

#[test]
fn test_from_status_code_404() {
    let error = NetBoxError::from_status_code(404, "Not found".to_string());
    match error {
        NetBoxError::NotFound(msg) => assert_eq!(msg, "Not found"),
        _ => panic!("Expected NotFound"),
    }
}

#[test]
fn test_from_status_code_400() {
    let error = NetBoxError::from_status_code(400, "Bad request".to_string());
    match error {
        NetBoxError::ValidationError(msg) => assert_eq!(msg, "Bad request"),
        _ => panic!("Expected ValidationError"),
    }
}

#[test]
fn test_from_status_code_422() {
    let error = NetBoxError::from_status_code(422, "Unprocessable".to_string());
    match error {
        NetBoxError::ValidationError(msg) => assert_eq!(msg, "Unprocessable"),
        _ => panic!("Expected ValidationError"),
    }
}

#[test]
fn test_from_status_code_500() {
    let error = NetBoxError::from_status_code(500, "Server error".to_string());
    match error {
        NetBoxError::ApiError(msg) => assert!(msg.contains("500") && msg.contains("Server error")),
        _ => panic!("Expected ApiError"),
    }
}

#[test]
fn test_server_errors_are_retryable() {
    let e = NetBoxError::from_status_code(500, "boom".to_string());
    assert!(e.is_retryable());
    let e = NetBoxError::from_status_code(503, "unavailable".to_string());
    assert!(e.is_retryable());
    let e = NetBoxError::from_status_code(404, "missing".to_string());
    assert!(!e.is_retryable());
    let e = NetBoxError::from_status_code(400, "bad".to_string());
    assert!(!e.is_retryable());
    assert!(NetBoxError::NetworkError("timed out".to_string()).is_retryable());
    assert!(!NetBoxError::SerializationError("bad json".to_string()).is_retryable());
}

#[test]
fn test_normalize_base_url_trims_trailing_slashes() {
    assert_eq!(normalize_base_url("http://localhost:8000/"), "http://localhost:8000");
    assert_eq!(normalize_base_url("http://localhost:8000///"), "http://localhost:8000");
    assert_eq!(normalize_base_url("http://localhost:8000"), "http://localhost:8000");
}

#[test]
fn test_build_url_joins_api_root() {
    assert_eq!(
        build_url("http://localhost:8000", "dcim/sites/"),
        "http://localhost:8000/api/dcim/sites/"
    );
    assert_eq!(
        build_url("http://localhost:8000", "/dcim/sites/1/"),
        "http://localhost:8000/api/dcim/sites/1/"
    );
}

#[test]
fn test_check_token_rejects_empty() {
    let r = check_token("");
    match r {
        Err(NetBoxError::AuthenticationError(msg)) => {
            assert_eq!(msg, "NetBox token is required")
        }
        _ => panic!("Expected AuthenticationError"),
    }
    assert!(check_token("token-123").is_ok());
}

#[test]
fn test_list_query_builds_present_filters() {
    assert_eq!(list_query(Some(10), Some(50), Some(100)), "tenant_id=10&limit=50&offset=100");
    assert_eq!(list_query(Some(10), None, None), "tenant_id=10");
    assert_eq!(list_query(None, Some(1), None), "limit=1");
    assert_eq!(list_query(None, None, None), "");
}

use ofs::api_code::OfsApiCode;
use ofs::response::{ApiErrorDetail, ApiResponse, PaginatedResponse};
use ofs::validation::{
    validate_entity_key, validate_entity_keys, validate_feature_name, validate_feature_names,
    validate_project_name, ValidationError,
};

#[test]
fn test_http_status_mapping() {
    assert_eq!(OfsApiCode::Success.http_status(), 200);
    assert_eq!(OfsApiCode::NotFound.http_status(), 404);
    assert_eq!(OfsApiCode::Unauthenticated.http_status(), 401);
    assert_eq!(OfsApiCode::Unavailable.http_status(), 503);
}

#[test]
fn test_grpc_code_mapping() {
    assert_eq!(OfsApiCode::Success.grpc_code(), 0);
    assert_eq!(OfsApiCode::NotFound.grpc_code(), 5);
    assert_eq!(OfsApiCode::PermissionDenied.grpc_code(), 7);
}

#[test]
fn test_descriptions() {
    assert_eq!(OfsApiCode::Success.description(), "success");
    assert_eq!(OfsApiCode::InvalidArgument.description(), "invalid request argument");
}

#[test]
fn test_success_response() {
    let resp: ApiResponse<String> = ApiResponse::success("hello".into());
    assert_eq!(resp.status, "success");
    assert_eq!(resp.code, OfsApiCode::Success);
    assert_eq!(resp.data, Some("hello".into()));
    assert!(resp.errors.is_none());
}

#[test]
fn test_error_response() {
    let resp: ApiResponse<()> = ApiResponse::error(OfsApiCode::NotFound, "entity not found");
    assert_eq!(resp.status, "error");
    assert_eq!(resp.code, OfsApiCode::NotFound);
    assert_eq!(resp.message, "entity not found");
    assert!(resp.data.is_none());
}

#[test]
fn test_paginated_response() {
    let items = vec!["a".to_string(), "b".to_string()];
    let page = PaginatedResponse::new(items.clone(), 10, 1, 2);
    assert_eq!(page.data, items);
    assert_eq!(page.total, 10);
    assert_eq!(page.has_more, true);

    let last = PaginatedResponse::new(vec!["z".to_string()], 5, 3, 2);
    assert_eq!(last.has_more, false);
}

#[test]
fn test_validate_entity_key_ok() {
    assert!(validate_entity_key("user:123").is_ok());
}

#[test]
fn test_validate_entity_key_empty() {
    assert!(validate_entity_key("").is_err());
}

#[test]
fn test_validate_entity_key_too_long() {
    let long = "a".repeat(1025);
    assert!(validate_entity_key(&long).is_err());
}

#[test]
fn test_validate_feature_name_ok() {
    assert!(validate_feature_name("click_rate_p90").is_ok());
}

#[test]
fn test_validate_feature_name_invalid_chars() {
    assert!(validate_feature_name("click rate!").is_err());
}

#[test]
fn test_validate_project_name_ok() {
    assert!(validate_project_name("my-project").is_ok());
}

#[test]
fn test_validate_project_name_invalid() {
    assert!(validate_project_name("my project!").is_err());
}

#[test]
fn test_validate_entity_keys_empty() {
    assert!(validate_entity_keys(&[]).is_err());
}

#[test]
fn test_validate_entity_keys_too_many() {
    let keys: Vec<String> = (0..1001).map(|i| format!("key-{}", i)).collect();
    assert!(validate_entity_keys(&keys).is_err());
}

#[test]
fn test_validate_entity_keys_invalid_content() {
    let keys = vec!["".into(), "valid".into()];
    assert!(validate_entity_keys(&keys).is_err());
}

#[test]
fn test_validation_error_conversion() {
    let err = ValidationError::new("field", "something wrong");
    let detail: ApiErrorDetail = err.into();
    assert_eq!(detail.field, Some("field".into()));
    assert_eq!(detail.reason, "something wrong");
}

#[test]
fn validate_entity_key_at_length_limit() {
    let exact = "a".repeat(1024);
    assert!(validate_entity_key(&exact).is_ok());
}

#[test]
fn validate_feature_names_collects_each_error() {
    let names = vec!["ok_name".to_string(), "bad name".to_string(), "".to_string()];
    let errs = validate_feature_names(&names).unwrap_err();
    assert_eq!(errs.len(), 2);
}

#[test]
fn http_status_of_other_codes() {
    assert_eq!(OfsApiCode::AlreadyExists.http_status(), 409);
    assert_eq!(OfsApiCode::InvalidArgument.http_status(), 400);
    assert_eq!(OfsApiCode::PermissionDenied.http_status(), 403);
}

#[test]
fn state_transition_error_message() {
    let e = ofs::errors::OfsError::InvalidStateTransition { from: "A".to_string(), to: "B\"".to_string() };
    assert_eq!(e.to_string(), "invalid state transition: from \"A\" to \"B\\\"\"");
}

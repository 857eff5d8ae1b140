use ofs::auth::{
    extract_permission_from_method, extract_project_from_path, is_excluded_path, default_exclude_paths,
    ApiKeyAuth, AuthIdentity, AuthRequest, NoopAuth,
};
use ofs::config::{ApiKeyEntry, AuthConfig};
use ofs::rbac::{Permission, RbacChecker};
use ofs::source::EnvVars;

fn admin_identity() -> AuthIdentity {
    AuthIdentity { subject: "admin-user".to_string(), roles: vec!["admin".to_string()], project_roles: Vec::new() }
}

fn reader_identity() -> AuthIdentity {
    AuthIdentity { subject: "reader-user".to_string(), roles: vec!["read".to_string()], project_roles: Vec::new() }
}

fn project_reader_identity() -> AuthIdentity {
    AuthIdentity {
        subject: "project-reader".to_string(),
        roles: vec![],
        project_roles: vec![("project-a".to_string(), "reader".to_string())],
    }
}

#[test]
fn test_extract_project_from_path_default() {
    let path = "/v1/features:get-online";
    assert_eq!(extract_project_from_path(path), Some("default".to_string()));
}

#[test]
fn test_extract_project_from_path_explicit() {
    let path = "/v1/projects/my-project/features:get-online";
    assert_eq!(extract_project_from_path(path), Some("my-project".to_string()));
}

#[test]
fn test_extract_project_from_path_no_match() {
    let path = "/health";
    assert_eq!(extract_project_from_path(path), None);
}

#[test]
fn test_permission_from_get() {
    assert_eq!(extract_permission_from_method("GET"), Some(Permission::Read));
}

#[test]
fn test_permission_from_post() {
    assert_eq!(extract_permission_from_method("POST"), Some(Permission::Write));
}

#[test]
fn test_admin_has_read_access() {
    let rbac = RbacChecker::new();
    assert!(rbac.check_access(&admin_identity(), "any-project", Permission::Read).is_ok());
}

#[test]
fn test_admin_has_write_access() {
    let rbac = RbacChecker::new();
    assert!(rbac.check_access(&admin_identity(), "any-project", Permission::Write).is_ok());
}

#[test]
fn test_reader_cannot_write() {
    let rbac = RbacChecker::new();
    let result = rbac.check_access(&reader_identity(), "any-project", Permission::Write);
    assert!(result.is_err());
}

#[test]
fn test_reader_can_read() {
    let rbac = RbacChecker::new();
    assert!(rbac.check_access(&reader_identity(), "any-project", Permission::Read).is_ok());
}

#[test]
fn test_project_reader_can_read_project() {
    let rbac = RbacChecker::new();
    assert!(rbac.check_access(&project_reader_identity(), "project-a", Permission::Read).is_ok());
}

#[test]
fn test_project_reader_cannot_write_other_project() {
    let rbac = RbacChecker::new();
    let result = rbac.check_access(&project_reader_identity(), "project-b", Permission::Read);
    assert!(result.is_err());
}

#[test]
fn test_is_admin() {
    let rbac = RbacChecker::new();
    assert!(rbac.is_admin(&admin_identity()));
    assert!(!rbac.is_admin(&reader_identity()));
}

#[test]
fn test_noop_auth() {
    let provider = NoopAuth;
    let request = AuthRequest { api_key: None, bearer_token: None };
    let identity = provider.authenticate(&request).unwrap();
    assert_eq!(identity.subject, "anonymous");
    assert!(identity.roles.contains(&"admin".to_string()));
}

fn key_config(key: &str, role: Option<&str>) -> AuthConfig {
    AuthConfig {
        provider: "api_key".to_string(),
        api_keys: vec![ApiKeyEntry { key: Some(key.to_string()), key_env: None, role: role.map(|r| r.to_string()) }],
        jwt: None,
    }
}

#[test]
fn test_api_key_auth_success() {
    let provider = ApiKeyAuth::new(&key_config("sk-test-key-123", Some("admin")), &EnvVars::new());
    let request = AuthRequest { api_key: Some("sk-test-key-123".to_string()), bearer_token: None };
    let identity = provider.authenticate(&request).unwrap();
    assert_eq!(identity.subject, "apikey:sk-test");
    assert!(identity.roles.contains(&"admin".to_string()));
}

#[test]
fn test_api_key_auth_failure() {
    let provider = ApiKeyAuth::new(&key_config("sk-valid-key", None), &EnvVars::new());
    let request = AuthRequest { api_key: Some("sk-wrong-key".to_string()), bearer_token: None };
    assert!(provider.authenticate(&request).is_err());
}

#[test]
fn test_api_key_auth_no_key_provided() {
    let provider = ApiKeyAuth::new(&key_config("sk-valid-key", None), &EnvVars::new());
    let request = AuthRequest { api_key: None, bearer_token: None };
    assert!(provider.authenticate(&request).is_err());
}

#[test]
fn api_key_from_environment() {
    let mut env = EnvVars::new();
    env.set("MY_KEY", "sk-env-key-9");
    let config = AuthConfig {
        provider: "api_key".to_string(),
        api_keys: vec![ApiKeyEntry { key: None, key_env: Some("MY_KEY".to_string()), role: Some("read".to_string()) }],
        jwt: None,
    };
    let provider = ApiKeyAuth::new(&config, &env);
    let request = AuthRequest { api_key: Some("sk-env-key-9".to_string()), bearer_token: None };
    let identity = provider.authenticate(&request).unwrap();
    assert_eq!(identity.roles, vec!["read".to_string()]);
}

#[test]
fn permission_of_other_methods() {
    assert_eq!(extract_permission_from_method("PUT"), Some(Permission::Write));
    assert_eq!(extract_permission_from_method("DELETE"), Some(Permission::Write));
    assert_eq!(extract_permission_from_method("OPTIONS"), Some(Permission::Read));
    assert_eq!(extract_permission_from_method("TRACE"), None);
}

#[test]
fn default_exclusions_cover_health() {
    let paths = default_exclude_paths();
    assert!(is_excluded_path(&paths, "/health"));
    assert!(is_excluded_path(&paths, "/metrics/prometheus"));
    assert!(!is_excluded_path(&paths, "/v1/features:get-online"));
}

#[test]
fn reader_cannot_administer() {
    let rbac = RbacChecker::new();
    assert!(rbac.check_access(&reader_identity(), "p", Permission::Admin).is_err());
}

#[test]
fn api_key_roles_are_split_and_trimmed() {
    let provider = ApiKeyAuth::new(&key_config("sk-roles-key-1", Some(" read , write ")), &EnvVars::new());
    let request = AuthRequest { api_key: Some("sk-roles-key-1".to_string()), bearer_token: None };
    let identity = provider.authenticate(&request).unwrap();
    assert_eq!(identity.roles, vec!["read".to_string(), "write".to_string()]);
}

use ofs::config::{
    online_backend, registry_backend, OnlineBackend, OnlineStoreConfig, OpenFeatureStoreConfig, PostgresConfig,
    RedisConfig, RegistryBackend, RegistryConfig,
};
use ofs::source::{interpolate_env_vars, resolve_secret, ConfigSource, EnvVars};

#[test]
fn test_default_config() {
    let config = OpenFeatureStoreConfig::default();
    assert_eq!(config.version, "1");
    assert_eq!(config.server.as_ref().map(|s| s.host.as_str()), Some("0.0.0.0"));
    assert_eq!(config.server.as_ref().map(|s| s.port), Some(8080));
    assert_eq!(config.server.as_ref().map(|s| s.grpc_port), Some(8081));
    assert_eq!(config.registry.as_ref().map(|r| r.backend.as_str()), Some("sqlite"));
    assert_eq!(config.offline_store.as_ref().map(|o| o.backend.as_str()), Some("duckdb"));
    assert_eq!(config.online_store.as_ref().map(|o| o.backend.as_str()), Some("sqlite"));
    assert_eq!(config.auth.as_ref().map(|a| a.provider.as_str()), Some("noop"));
    assert_eq!(config.observability.as_ref().map(|o| o.log_format.as_str()), Some("json"));
    assert_eq!(config.lifecycle.as_ref().map(|l| l.ttl_default_days), Some(90));
    assert_eq!(config.materialization.as_ref().map(|m| m.parallelism), Some(4));
}

#[test]
fn test_validate_passes() {
    let config = OpenFeatureStoreConfig::default();
    assert!(config.validate().is_ok());
}

#[test]
fn test_validate_fails_bad_backend() {
    let mut config = OpenFeatureStoreConfig::default();
    config.registry = Some(RegistryConfig { backend: "mysql".into(), ..RegistryConfig::default() });
    assert!(config.validate().is_err());
}

#[test]
fn test_config_source_resolve_default() {
    let source = ConfigSource::default();
    assert!(!source.paths.is_empty());
}

#[test]
fn test_interpolate_simple() {
    let mut env = EnvVars::new();
    env.set("OFS_TEST_VAR", "hello");
    assert_eq!(interpolate_env_vars("${OFS_TEST_VAR}", &env), "hello");
}

#[test]
fn test_interpolate_with_surrounding() {
    let mut env = EnvVars::new();
    env.set("OFS_DB_PATH", "/data/db");
    assert_eq!(interpolate_env_vars("sqlite://${OFS_DB_PATH}/features.db", &env), "sqlite:///data/db/features.db");
}

#[test]
fn test_interpolate_unset_var() {
    let env = EnvVars::new();
    let result = interpolate_env_vars("${UNSET_VAR}", &env);
    assert_eq!(result, "${UNSET_VAR}");
}

#[test]
fn test_resolve_secret() {
    let mut env = EnvVars::new();
    env.set("OFS_SECRET_API_KEY", "sk-1234");
    assert_eq!(resolve_secret("api-key", &env), Some("sk-1234".into()));
}

#[test]
fn test_resolve_secret_not_found() {
    let env = EnvVars::new();
    assert_eq!(resolve_secret("nonexistent", &env), None);
}

#[test]
fn interpolate_two_references_and_text() {
    let mut env = EnvVars::new();
    env.set("A", "x");
    env.set("B", "y");
    assert_eq!(interpolate_env_vars("${A}-${B}!", &env), "x-y!");
}

#[test]
fn interpolate_unclosed_reference_reads_to_end() {
    let mut env = EnvVars::new();
    env.set("A", "x");
    assert_eq!(interpolate_env_vars("${A", &env), "x");
    assert_eq!(interpolate_env_vars("${Q", &env), "${Q}");
}

#[test]
fn config_source_from_path_has_one_candidate() {
    let source = ConfigSource::from_path("/etc/ofs.yaml");
    assert_eq!(source.paths, vec!["/etc/ofs.yaml".to_string()]);
}

#[test]
fn validate_fails_bad_online_backend() {
    let mut config = OpenFeatureStoreConfig::default();
    if let Some(o) = config.online_store.as_mut() {
        o.backend = "cassandra".into();
    }
    assert!(config.validate().is_err());
}

#[test]
fn missing_config_lists_candidates() {
    let source = ConfigSource::from_path("/nonexistent/ofs-config.yaml");
    let err = source.resolve_path().unwrap_err();
    assert_eq!(err.to_string(), "config file not found: no config file found at [\"/nonexistent/ofs-config.yaml\"]");
}

#[test]
fn server_store_backends() {
    let mut config = OpenFeatureStoreConfig::default();
    config.registry = None;
    config.online_store = None;
    match registry_backend(&config) {
        Ok(RegistryBackend::Sqlite { path }) => assert_eq!(path, "./ofs.db"),
        other => panic!("unexpected {:?}", other),
    }
    assert_eq!(online_backend(&config).unwrap_err(), "unsupported online store backend: ");

    config.registry = Some(RegistryConfig { backend: "postgres".into(), path: String::new(), postgres: None });
    match registry_backend(&config) {
        Ok(RegistryBackend::Postgres { connection_string }) => {
            assert_eq!(connection_string, "postgres://localhost:5432/ofs")
        }
        other => panic!("unexpected {:?}", other),
    }
    config.registry = Some(RegistryConfig {
        backend: "postgres".into(),
        path: String::new(),
        postgres: Some(PostgresConfig { connection_string: Some("postgres://db/x".into()) }),
    });
    match registry_backend(&config) {
        Ok(RegistryBackend::Postgres { connection_string }) => assert_eq!(connection_string, "postgres://db/x"),
        other => panic!("unexpected {:?}", other),
    }
    config.registry = Some(RegistryConfig { backend: "mysql".into(), path: String::new(), postgres: None });
    assert_eq!(registry_backend(&config).unwrap_err(), "unsupported registry backend: mysql");

    config.online_store = Some(OnlineStoreConfig { backend: "redis".into(), path: String::new(), redis: None });
    match online_backend(&config) {
        Ok(OnlineBackend::Redis { connection_string }) => assert_eq!(connection_string, "redis://127.0.0.1:6379"),
        other => panic!("unexpected {:?}", other),
    }
    config.online_store = Some(OnlineStoreConfig {
        backend: "redis".into(),
        path: String::new(),
        redis: Some(RedisConfig { connection_string: Some("redis://cache:6379".into()) }),
    });
    match online_backend(&config) {
        Ok(OnlineBackend::Redis { connection_string }) => assert_eq!(connection_string, "redis://cache:6379"),
        other => panic!("unexpected {:?}", other),
    }
    config.online_store = Some(OnlineStoreConfig { backend: "sqlite".into(), path: "online.db".into(), redis: None });
    match online_backend(&config) {
        Ok(OnlineBackend::Sqlite { path }) => assert_eq!(path, "online.db"),
        other => panic!("unexpected {:?}", other),
    }
}

#[test]
fn setting_a_variable_again_replaces_it() {
    let mut env = EnvVars::new();
    env.set("OFS_MODE", "dev");
    env.set("OFS_OTHER", "1");
    env.set("OFS_MODE", "prod");
    assert_eq!(env.get("OFS_MODE"), Some("prod".to_string()));
    assert_eq!(env.get("OFS_OTHER"), Some("1".to_string()));
    assert_eq!(env.get("OFS_MISSING"), None);
}

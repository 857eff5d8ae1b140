use ofs::config::{AzureConfig, GcsConfig, RemoteStoreConfig, S3Config};
use ofs::remote::{
    backend_build_error, backend_settings, download_file_name, BackendSettings, CloudProvider, RemoteLocation,
    RemoteStoreError,
};
use ofs::remote_cache::RemoteCache;
use ofs::time::UtcDateTime;

#[test]
fn test_parse_s3_uri() {
    let loc = RemoteLocation::from_uri("s3://my-bucket/path/to/file.parquet").unwrap();
    assert!(matches!(loc.provider, CloudProvider::Aws));
    assert_eq!(loc.bucket, "my-bucket");
    assert_eq!(loc.key, "path/to/file.parquet");
}

#[test]
fn test_parse_gcs_uri() {
    let loc = RemoteLocation::from_uri("gs://my-bucket/data/file.parquet").unwrap();
    assert!(matches!(loc.provider, CloudProvider::Gcp));
    assert_eq!(loc.bucket, "my-bucket");
    assert_eq!(loc.key, "data/file.parquet");
}

#[test]
fn test_parse_azure_uri() {
    let loc = RemoteLocation::from_uri("az://container/path/file.parquet").unwrap();
    assert!(matches!(loc.provider, CloudProvider::Azure));
    assert_eq!(loc.bucket, "container");
    assert_eq!(loc.key, "path/file.parquet");
}

#[test]
fn test_unsupported_scheme() {
    let result = RemoteLocation::from_uri("hdfs://bucket/file.parquet");
    assert!(result.is_err());
}

#[test]
fn test_join_paths() {
    let loc = RemoteLocation::from_uri("s3://bucket/base/").unwrap();
    let child = loc.join("nested/file.parquet");
    assert_eq!(child.key, "base/nested/file.parquet");

    let loc2 = RemoteLocation::from_uri("s3://bucket").unwrap();
    let child2 = loc2.join("file.parquet");
    assert_eq!(child2.key, "file.parquet");
}

#[test]
fn test_to_uri() {
    let loc = RemoteLocation::from_uri("s3://bucket/path/file.parquet").unwrap();
    assert_eq!(loc.to_uri(), "s3://bucket/path/file.parquet");
}

#[test]
fn test_cloud_provider_from_scheme() {
    assert!(matches!(CloudProvider::from_scheme("s3"), Some(CloudProvider::Aws)));
    assert!(matches!(CloudProvider::from_scheme("gs"), Some(CloudProvider::Gcp)));
    assert!(matches!(CloudProvider::from_scheme("az"), Some(CloudProvider::Azure)));
    assert!(matches!(CloudProvider::from_scheme("abfs"), Some(CloudProvider::Azure)));
    assert!(CloudProvider::from_scheme("http").is_none());
}

#[test]
fn default_scheme_roundtrip() {
    for p in [CloudProvider::Aws, CloudProvider::Gcp, CloudProvider::Azure] {
        assert_eq!(CloudProvider::from_scheme(p.default_scheme()), Some(p));
    }
}

#[test]
fn uri_without_host_is_refused() {
    assert!(RemoteLocation::from_uri("s3:///key").is_err());
}

#[test]
fn test_cache_miss() {
    let mut cache = RemoteCache::new(Some("/tmp/ofs-cache-test".to_string()), 1, "/tmp");
    let t = UtcDateTime { secs: 100, nanos: 0 };
    assert_eq!(cache.get_at("s3://bucket/missing.parquet", false, t), None);
}

#[test]
fn test_cache_insert_and_get() {
    let mut cache = RemoteCache::new(Some("/tmp/ofs-cache-test".to_string()), 1, "/tmp");
    let t = UtcDateTime { secs: 100, nanos: 0 };
    let (local, evicted) = cache.insert_at("s3://bucket/a.parquet", "/tmp/ofs-cache-test/a".to_string(), 10, t);
    assert_eq!(local, "/tmp/ofs-cache-test/a");
    assert!(evicted.is_empty());
    let got = cache.get_at("s3://bucket/a.parquet", true, UtcDateTime { secs: 101, nanos: 0 });
    assert_eq!(got, Some("/tmp/ofs-cache-test/a".to_string()));
}

#[test]
fn test_clear_cache() {
    let mut cache = RemoteCache::new(Some("/tmp/ofs-cache-test".to_string()), 1, "/tmp");
    let t = UtcDateTime { secs: 100, nanos: 0 };
    let _ = cache.insert_at("s3://bucket/a.parquet", "/tmp/ofs-cache-test/a".to_string(), 10, t);
    cache.clear();
    assert_eq!(cache.get_at("s3://bucket/a.parquet", true, t), None);
}

#[test]
fn cache_evicts_oldest_when_full() {
    let mut cache = RemoteCache::new(Some("/tmp/ofs-cache-test".to_string()), 1, "/tmp");
    let mb = 1024 * 1024;
    let _ = cache.insert_at("s3://b/one", "/c/one".to_string(), mb / 2, UtcDateTime { secs: 1, nanos: 0 });
    let _ = cache.insert_at("s3://b/two", "/c/two".to_string(), mb / 2, UtcDateTime { secs: 2, nanos: 0 });
    let (_, evicted) = cache.insert_at("s3://b/three", "/c/three".to_string(), mb / 2, UtcDateTime { secs: 3, nanos: 0 });
    assert_eq!(evicted, vec!["/c/one".to_string(), "/c/two".to_string()]);
    assert_eq!(cache.get_at("s3://b/one", true, UtcDateTime { secs: 4, nanos: 0 }), None);
    assert_eq!(cache.get_at("s3://b/three", true, UtcDateTime { secs: 4, nanos: 0 }), Some("/c/three".to_string()));
}

#[test]
fn s3_backend_defaults_region() {
    let loc = RemoteLocation { provider: CloudProvider::Aws, bucket: "b".to_string(), key: String::new() };
    match backend_settings(&loc, &RemoteStoreConfig::default()) {
        BackendSettings::S3 { bucket, region, access_key_id, secret_access_key, endpoint } => {
            assert_eq!(bucket, "b");
            assert_eq!(region, "us-east-1");
            assert!(access_key_id.is_none() && secret_access_key.is_none() && endpoint.is_none());
        }
        other => panic!("unexpected {:?}", other),
    }
}

#[test]
fn s3_backend_uses_configured_credentials() {
    let loc = RemoteLocation { provider: CloudProvider::Aws, bucket: "b".to_string(), key: String::new() };
    let config = RemoteStoreConfig {
        enabled: true,
        s3: Some(S3Config {
            region: Some("eu-west-1".to_string()),
            bucket: None,
            access_key_id: Some("AK".to_string()),
            secret_access_key: Some("SECRET-REDACTED".to_string()),
            endpoint: Some("http://localhost:9000".to_string()),
        }),
        gcs: None,
        azure: None,
    };
    match backend_settings(&loc, &config) {
        BackendSettings::S3 { region, access_key_id, secret_access_key, endpoint, .. } => {
            assert_eq!(region, "eu-west-1");
            assert_eq!(access_key_id.as_deref(), Some("AK"));
            assert_eq!(secret_access_key.as_deref(), Some("SECRET-REDACTED"));
            assert_eq!(endpoint.as_deref(), Some("http://localhost:9000"));
        }
        other => panic!("unexpected {:?}", other),
    }
}

#[test]
fn gcs_and_azure_backends() {
    let gcs = RemoteLocation { provider: CloudProvider::Gcp, bucket: "g".to_string(), key: String::new() };
    let azure = RemoteLocation { provider: CloudProvider::Azure, bucket: "c".to_string(), key: String::new() };
    let config = RemoteStoreConfig {
        enabled: true,
        s3: None,
        gcs: Some(GcsConfig { bucket: None, service_account_path: Some("/sa.json".to_string()) }),
        azure: Some(AzureConfig { container: None, connection_string: Some("x".to_string()) }),
    };
    match backend_settings(&gcs, &config) {
        BackendSettings::Gcs { bucket, service_account_path } => {
            assert_eq!(bucket, "g");
            assert_eq!(service_account_path.as_deref(), Some("/sa.json"));
        }
        other => panic!("unexpected {:?}", other),
    }
    match backend_settings(&azure, &config) {
        BackendSettings::Azure { container, connection_string_ignored } => {
            assert_eq!(container, "c");
            assert!(connection_string_ignored);
        }
        other => panic!("unexpected {:?}", other),
    }
    match backend_settings(&azure, &RemoteStoreConfig::default()) {
        BackendSettings::Azure { connection_string_ignored, .. } => assert!(!connection_string_ignored),
        other => panic!("unexpected {:?}", other),
    }
}

#[test]
fn backend_errors_and_download_names() {
    match backend_build_error(CloudProvider::Gcp, "no creds") {
        RemoteStoreError::MissingCredential(m) => assert_eq!(m, "failed to build GCS client: no creds"),
        other => panic!("unexpected {:?}", other),
    }
    assert_eq!(
        backend_build_error(CloudProvider::Aws, "e").to_string(),
        "missing credential: failed to build S3 client: e"
    );
    assert_eq!(download_file_name("data/2024/part-0.parquet", 17), "17-part-0.parquet");
    assert_eq!(download_file_name("plain", 5), "5-plain");
    assert_eq!(download_file_name("dir/", 5), "5-");
}

#[test]
fn test_backend_location_creation() {
    let config = RemoteStoreConfig::default();
    let loc = RemoteLocation { provider: CloudProvider::Aws, bucket: "test-bucket".into(), key: String::new() };
    // Choosing the client's settings never fails, whatever the environment.
    let _ = backend_settings(&loc, &config);
}

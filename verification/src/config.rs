//! The configuration of the feature store, with its defaults and checks.
use vstd::prelude::*;

use crate::source::{EnvVars, opt_view, resolve_secret, secret_env_name};
use crate::kv::lookup;
use crate::strings::{concat_str, str_eq};

verus! {

/// An API key (given directly or by the environment variable that holds it) and its comma-separated roles.
#[derive(Debug, Clone)]
pub struct ApiKeyEntry {
    pub key: Option<String>,
    pub key_env: Option<String>,
    pub role: Option<String>,
}

impl Default for ApiKeyEntry {
    fn default() -> (r: Self)
        ensures
            r.key is None,
            r.key_env is None,
            r.role is None,
    {
        ApiKeyEntry {
            key: None,
            key_env: None,
            role: None,
        }
    }
}

/// Where the JSON Web Key Set of a JWT/OIDC provider is, and the audience and issuer to expect.
#[derive(Debug, Clone)]
pub struct JwtConfig {
    pub jwks_url: Option<String>,
    pub audience: Option<String>,
    pub issuer: Option<String>,
}

impl Default for JwtConfig {
    fn default() -> (r: Self)
        ensures
            r.jwks_url is None,
            r.audience is None,
            r.issuer is None,
    {
        JwtConfig {
            jwks_url: None,
            audience: None,
            issuer: None,
        }
    }
}

/// The authentication provider (`noop`, `api_key`, `jwt` or `oidc`) and its settings.
#[derive(Debug, Clone)]
pub struct AuthConfig {
    pub provider: String,
    pub api_keys: Vec<ApiKeyEntry>,
    pub jwt: Option<JwtConfig>,
}

impl Default for AuthConfig {
    fn default() -> (r: Self)
        ensures
            r.provider@ == "noop"@,
            r.api_keys@.len() == 0,
            r.jwt is None,
    {
        AuthConfig {
            provider: String::from_str("noop"),
            api_keys: Vec::new(),
            jwt: None,
        }
    }
}

/// A named request rate limit.
#[derive(Debug, Clone)]
pub struct RateLimitTier {
    pub name: String,
    pub rps: u32,
    pub burst: u32,
}

impl Default for RateLimitTier {
    fn default() -> (r: Self)
        ensures
            r.name@ == Seq::<char>::empty(),
            r.rps == 100,
            r.burst == 10,
    {
        RateLimitTier {
            name: String::new(),
            rps: 100,
            burst: 10,
        }
    }
}

/// Request rate limiting.
#[derive(Debug, Clone)]
pub struct RateLimitConfig {
    pub enabled: bool,
    pub default_rps: u32,
    pub tiers: Vec<RateLimitTier>,
}

impl Default for RateLimitConfig {
    fn default() -> (r: Self)
        ensures
            r.enabled == true,
            r.default_rps == 100,
            r.tiers@.len() == 0,
    {
        RateLimitConfig {
            enabled: true,
            default_rps: 100,
            tiers: Vec::new(),
        }
    }
}

/// TLS is terminated at the reverse proxy; these paths document its certificate.
#[derive(Debug, Clone)]
pub struct TlsConfig {
    pub cert_path: Option<String>,
    pub key_path: Option<String>,
}

impl Default for TlsConfig {
    fn default() -> (r: Self)
        ensures
            r.cert_path is None,
            r.key_path is None,
    {
        TlsConfig {
            cert_path: None,
            key_path: None,
        }
    }
}

/// The PostgreSQL connection of the registry.
#[derive(Debug, Clone)]
pub struct PostgresConfig {
    pub connection_string: Option<String>,
}

impl Default for PostgresConfig {
    fn default() -> (r: Self)
        ensures
            r.connection_string is None,
    {
        PostgresConfig {
            connection_string: None,
        }
    }
}

/// The registry backend (`sqlite` or `postgres`) and where it is.
#[derive(Debug, Clone)]
pub struct RegistryConfig {
    pub backend: String,
    pub path: String,
    pub postgres: Option<PostgresConfig>,
}

impl Default for RegistryConfig {
    fn default() -> (r: Self)
        ensures
            r.backend@ == "sqlite"@,
            r.path@ == "./ofs.db"@,
            r.postgres is None,
    {
        RegistryConfig {
            backend: String::from_str("sqlite"),
            path: String::from_str("./ofs.db"),
            postgres: None,
        }
    }
}

/// The offline store backend (`duckdb`) and its path.
#[derive(Debug, Clone)]
pub struct OfflineStoreConfig {
    pub backend: String,
    pub path: String,
}

impl Default for OfflineStoreConfig {
    fn default() -> (r: Self)
        ensures
            r.backend@ == Seq::<char>::empty(),
            r.path@ == Seq::<char>::empty(),
    {
        OfflineStoreConfig {
            backend: String::new(),
            path: String::new(),
        }
    }
}

/// A Redis connection.
#[derive(Debug, Clone)]
pub struct RedisConfig {
    pub connection_string: Option<String>,
}

impl Default for RedisConfig {
    fn default() -> (r: Self)
        ensures
            r.connection_string is None,
    {
        RedisConfig {
            connection_string: None,
        }
    }
}

/// The online store backend (`sqlite` or `redis`) and where it is.
#[derive(Debug, Clone)]
pub struct OnlineStoreConfig {
    pub backend: String,
    pub path: String,
    pub redis: Option<RedisConfig>,
}

impl Default for OnlineStoreConfig {
    fn default() -> (r: Self)
        ensures
            r.backend@ == Seq::<char>::empty(),
            r.path@ == Seq::<char>::empty(),
            r.redis is None,
    {
        OnlineStoreConfig {
            backend: String::new(),
            path: String::new(),
            redis: None,
        }
    }
}

/// An S3 bucket and its credentials.
#[derive(Debug, Clone)]
pub struct S3Config {
    pub region: Option<String>,
    pub bucket: Option<String>,
    pub access_key_id: Option<String>,
    pub secret_access_key: Option<String>,
    pub endpoint: Option<String>,
}

impl Default for S3Config {
    fn default() -> (r: Self)
        ensures
            r.region is None,
            r.bucket is None,
            r.access_key_id is None,
            r.secret_access_key is None,
            r.endpoint is None,
    {
        S3Config {
            region: None,
            bucket: None,
            access_key_id: None,
            secret_access_key: None,
            endpoint: None,
        }
    }
}

/// A GCS bucket and its service account.
#[derive(Debug, Clone)]
pub struct GcsConfig {
    pub bucket: Option<String>,
    pub service_account_path: Option<String>,
}

impl Default for GcsConfig {
    fn default() -> (r: Self)
        ensures
            r.bucket is None,
            r.service_account_path is None,
    {
        GcsConfig {
            bucket: None,
            service_account_path: None,
        }
    }
}

/// An Azure Blob container and its connection string.
#[derive(Debug, Clone)]
pub struct AzureConfig {
    pub container: Option<String>,
    pub connection_string: Option<String>,
}

impl Default for AzureConfig {
    fn default() -> (r: Self)
        ensures
            r.container is None,
            r.connection_string is None,
    {
        AzureConfig {
            container: None,
            connection_string: None,
        }
    }
}

/// Remote object storage.
#[derive(Debug, Clone)]
pub struct RemoteStoreConfig {
    pub enabled: bool,
    pub s3: Option<S3Config>,
    pub gcs: Option<GcsConfig>,
    pub azure: Option<AzureConfig>,
}

impl Default for RemoteStoreConfig {
    fn default() -> (r: Self)
        ensures
            r.enabled == false,
            r.s3 is None,
            r.gcs is None,
            r.azure is None,
    {
        RemoteStoreConfig {
            enabled: false,
            s3: None,
            gcs: None,
            azure: None,
        }
    }
}

/// A Kafka source of stream ingestion.
#[derive(Debug, Clone)]
pub struct KafkaConfig {
    pub brokers: Option<String>,
    pub topic: Option<String>,
    pub group_id: Option<String>,
}

impl Default for KafkaConfig {
    fn default() -> (r: Self)
        ensures
            r.brokers is None,
            r.topic is None,
            r.group_id is None,
    {
        KafkaConfig {
            brokers: None,
            topic: None,
            group_id: None,
        }
    }
}

/// HTTP push ingestion.
#[derive(Debug, Clone)]
pub struct HttpPushConfig {
    pub max_batch_size: usize,
}

impl Default for HttpPushConfig {
    fn default() -> (r: Self)
        ensures
            r.max_batch_size == 100,
    {
        HttpPushConfig {
            max_batch_size: 100,
        }
    }
}

/// Stream ingestion.
#[derive(Debug, Clone)]
pub struct StreamIngestConfig {
    pub enabled: bool,
    pub source: String,
    pub kafka: Option<KafkaConfig>,
    pub http_push: Option<HttpPushConfig>,
}

impl Default for StreamIngestConfig {
    fn default() -> (r: Self)
        ensures
            r.enabled == false,
            r.source@ == "http_push"@,
            r.kafka is None,
            r.http_push is None,
    {
        StreamIngestConfig {
            enabled: false,
            source: String::from_str("http_push"),
            kafka: None,
            http_push: None,
        }
    }
}

/// TTL-based cleanup of stale feature data.
#[derive(Debug, Clone)]
pub struct LifecycleConfig {
    pub ttl_default_days: u64,
    pub cleanup_interval_secs: u64,
    pub projects: Vec<String>,
}

impl Default for LifecycleConfig {
    fn default() -> (r: Self)
        ensures
            r.ttl_default_days == 90,
            r.cleanup_interval_secs == 3600,
            r.projects@.len() == 1 && r.projects@[0]@ == "default"@,
    {
        LifecycleConfig {
            ttl_default_days: 90,
            cleanup_interval_secs: 3600,
            projects: default_projects(),
        }
    }
}

/// Metrics, tracing and logging.
#[derive(Debug, Clone)]
pub struct ObservabilityConfig {
    pub metrics_enabled: bool,
    pub tracing_enabled: bool,
    pub log_level: String,
    pub log_format: String,
    pub audit_log_path: Option<String>,
}

impl Default for ObservabilityConfig {
    fn default() -> (r: Self)
        ensures
            r.metrics_enabled == true,
            r.tracing_enabled == true,
            r.log_level@ == "info"@,
            r.log_format@ == "json"@,
            r.audit_log_path is None,
    {
        ObservabilityConfig {
            metrics_enabled: true,
            tracing_enabled: true,
            log_level: String::from_str("info"),
            log_format: String::from_str("json"),
            audit_log_path: None,
        }
    }
}

/// The Redis (L2) cache.
#[derive(Debug, Clone)]
pub struct RedisCacheConfig {
    pub nodes: Vec<String>,
    pub password: Option<String>,
    pub mode: Option<String>,
    pub key_prefix: Option<String>,
    pub default_ttl_secs: Option<u64>,
}

impl Default for RedisCacheConfig {
    fn default() -> (r: Self)
        ensures
            r.nodes@.len() == 0,
            r.password is None,
            r.mode is None,
            r.key_prefix is None,
            r.default_ttl_secs is None,
    {
        RedisCacheConfig {
            nodes: Vec::new(),
            password: None,
            mode: None,
            key_prefix: None,
            default_ttl_secs: None,
        }
    }
}

/// The feature cache.
#[derive(Debug, Clone)]
pub struct CacheConfig {
    pub enabled: bool,
    pub max_size: usize,
    pub ttl_secs: u64,
    pub redis: Option<RedisCacheConfig>,
}

impl Default for CacheConfig {
    fn default() -> (r: Self)
        ensures
            r.enabled == true,
            r.max_size == 10000,
            r.ttl_secs == 300,
            r.redis is None,
    {
        CacheConfig {
            enabled: true,
            max_size: 10000,
            ttl_secs: 300,
            redis: None,
        }
    }
}

/// Materialization.
#[derive(Debug, Clone)]
pub struct MaterializationConfig {
    pub parallelism: usize,
    pub batch_size: usize,
}

impl Default for MaterializationConfig {
    fn default() -> (r: Self)
        ensures
            r.parallelism == 4,
            r.batch_size == 1000,
    {
        MaterializationConfig {
            parallelism: 4,
            batch_size: 1000,
        }
    }
}

/// The listening addresses and limits of the server.
#[derive(Debug, Clone)]
pub struct ServerConfig {
    pub host: String,
    pub port: u16,
    pub grpc_port: u16,
    pub max_request_size_mb: u32,
    pub rate_limit: Option<RateLimitConfig>,
    pub tls: Option<TlsConfig>,
}

impl Default for ServerConfig {
    fn default() -> (r: Self)
        ensures
            r.host@ == "0.0.0.0"@,
            r.port == 8080,
            r.grpc_port == 8081,
            r.max_request_size_mb == 10,
            r.rate_limit matches Some(rl) && rl.enabled && rl.default_rps == 100 && rl.tiers@.len() == 0,
            r.tls is None,
    {
        ServerConfig {
            host: String::from_str("0.0.0.0"),
            port: 8080,
            grpc_port: 8081,
            max_request_size_mb: 10,
            rate_limit: Some(RateLimitConfig::default()),
            tls: None,
        }
    }
}

/// The default authentication provider.
pub fn default_auth_provider() -> (r: String)
    ensures
        r@ == "noop"@,
{
    String::from_str("noop")
}

/// The default burst of a rate limit tier.
pub fn default_burst() -> (r: u32)
    ensures
        r == 10,
{
    10
}

/// The default of the flags that are on by default.
pub fn default_true() -> (r: bool)
    ensures
        r,
{
    true
}

/// The default request rate.
pub fn default_default_rps() -> (r: u32)
    ensures
        r == 100,
{
    100
}

/// The default host to listen on.
pub fn default_host() -> (r: String)
    ensures
        r@ == "0.0.0.0"@,
{
    String::from_str("0.0.0.0")
}

/// The default REST port.
pub fn default_port() -> (r: u16)
    ensures
        r == 8080,
{
    8080
}

/// The default gRPC port.
pub fn default_grpc_port() -> (r: u16)
    ensures
        r == 8081,
{
    8081
}

/// The default maximal request size, in MB.
pub fn default_max_request_size_mb() -> (r: u32)
    ensures
        r == 10,
{
    10
}

/// The default registry backend.
pub fn default_registry_backend() -> (r: String)
    ensures
        r@ == "sqlite"@,
{
    String::from_str("sqlite")
}

/// The default registry path.
pub fn default_registry_path() -> (r: String)
    ensures
        r@ == "./ofs.db"@,
{
    String::from_str("./ofs.db")
}

/// The default maximal batch of HTTP push ingestion.
pub fn default_http_push_batch() -> (r: usize)
    ensures
        r == 100,
{
    100
}

/// The default stream source.
pub fn default_stream_source() -> (r: String)
    ensures
        r@ == "http_push"@,
{
    String::from_str("http_push")
}

/// The default TTL of feature data, in days.
pub fn default_ttl_days() -> (r: u64)
    ensures
        r == 90,
{
    90
}

/// The default interval between cleanups, in seconds.
pub fn default_cleanup_interval() -> (r: u64)
    ensures
        r == 3600,
{
    3600
}

/// The default projects of the lifecycle manager: `default`.
pub fn default_projects() -> (r: Vec<String>)
    ensures
        r@.len() == 1,
        r@[0]@ == "default"@,
{
    vec![String::from_str("default")]
}

/// The default log level.
pub fn default_log_level() -> (r: String)
    ensures
        r@ == "info"@,
{
    String::from_str("info")
}

/// The default log format.
pub fn default_log_format() -> (r: String)
    ensures
        r@ == "json"@,
{
    String::from_str("json")
}

/// The default number of cache entries.
pub fn default_cache_max_size() -> (r: usize)
    ensures
        r == 10000,
{
    10000
}

/// The default cache TTL, in seconds.
pub fn default_cache_ttl_secs() -> (r: u64)
    ensures
        r == 300,
{
    300
}

/// The default materialization parallelism.
pub fn default_materialization_parallelism() -> (r: usize)
    ensures
        r == 4,
{
    4
}

/// The default materialization batch size.
pub fn default_materialization_batch_size() -> (r: usize)
    ensures
        r == 1000,
{
    1000
}

/// The default configuration version.
pub fn default_config_version() -> (r: String)
    ensures
        r@ == "1"@,
{
    String::from_str("1")
}

/// The whole configuration of the feature store; every section is optional.
#[derive(Debug, Clone)]
pub struct OpenFeatureStoreConfig {
    pub version: String,
    pub server: Option<ServerConfig>,
    pub tls: Option<TlsConfig>,
    pub auth: Option<AuthConfig>,
    pub registry: Option<RegistryConfig>,
    pub offline_store: Option<OfflineStoreConfig>,
    pub online_store: Option<OnlineStoreConfig>,
    pub remote_store: Option<RemoteStoreConfig>,
    pub stream_ingest: Option<StreamIngestConfig>,
    pub lifecycle: Option<LifecycleConfig>,
    pub observability: Option<ObservabilityConfig>,
    pub cache: Option<CacheConfig>,
    pub materialization: Option<MaterializationConfig>,
}

impl Default for OpenFeatureStoreConfig {
    /// Every section present with its defaults; the offline store is DuckDB
    /// at `./ofs-offline.db` and the online store SQLite at `./ofs-online.db`.
    fn default() -> (r: Self)
        ensures
            r.version@ == "1"@,
            r.server matches Some(s) && s.host@ == "0.0.0.0"@ && s.port == 8080 && s.grpc_port
                == 8081 && s.max_request_size_mb == 10 && s.tls is None && (s.rate_limit matches Some(
                rl,
            ) && rl.enabled && rl.default_rps == 100 && rl.tiers@.len() == 0),
            r.tls matches Some(t) && t.cert_path is None && t.key_path is None,
            r.auth matches Some(a) && a.provider@ == "noop"@ && a.api_keys@.len() == 0 && a.jwt is None,
            r.registry matches Some(g) && g.backend@ == "sqlite"@ && g.path@ == "./ofs.db"@
                && g.postgres is None,
            r.offline_store matches Some(o) && o.backend@ == "duckdb"@ && o.path@
                == "./ofs-offline.db"@,
            r.online_store matches Some(o) && o.backend@ == "sqlite"@ && o.path@
                == "./ofs-online.db"@ && o.redis is None,
            r.remote_store matches Some(m) && !m.enabled && m.s3 is None && m.gcs is None
                && m.azure is None,
            r.stream_ingest matches Some(i) && !i.enabled && i.source@ == "http_push"@ && i.kafka is None
                && i.http_push is None,
            r.lifecycle matches Some(l) && l.ttl_default_days == 90 && l.cleanup_interval_secs == 3600
                && l.projects@.len() == 1 && l.projects@[0]@ == "default"@,
            r.observability matches Some(o) && o.metrics_enabled && o.tracing_enabled && o.log_level@
                == "info"@ && o.log_format@ == "json"@ && o.audit_log_path is None,
            r.cache matches Some(c) && c.enabled && c.max_size == 10000 && c.ttl_secs == 300
                && c.redis is None,
            r.materialization matches Some(m) && m.parallelism == 4 && m.batch_size == 1000,
    {
        OpenFeatureStoreConfig {
            version: String::from_str("1"),
            server: Some(ServerConfig::default()),
            tls: Some(TlsConfig::default()),
            auth: Some(AuthConfig::default()),
            registry: Some(RegistryConfig::default()),
            offline_store: Some(
                OfflineStoreConfig {
                    backend: String::from_str("duckdb"),
                    path: String::from_str("./ofs-offline.db"),
                },
            ),
            online_store: Some(
                OnlineStoreConfig {
                    backend: String::from_str("sqlite"),
                    path: String::from_str("./ofs-online.db"),
                    redis: None,
                },
            ),
            remote_store: Some(RemoteStoreConfig::default()),
            stream_ingest: Some(StreamIngestConfig::default()),
            lifecycle: Some(LifecycleConfig::default()),
            observability: Some(ObservabilityConfig::default()),
            cache: Some(CacheConfig::default()),
            materialization: Some(MaterializationConfig::default()),
        }
    }
}

/// An error of loading or checking the configuration. I/O and YAML errors
/// carry their message.
#[derive(Debug, Clone)]
pub enum ConfigError {
    FileNotFound(String),
    Io(String),
    YamlParse(String),
    MissingField(String),
    InvalidField(String),
    MissingEnvVar(String),
    PathResolution(String),
}

/// The message of a configuration error (its `Display` form).
pub open spec fn config_error_message(e: ConfigError) -> Seq<char> {
    match e {
        ConfigError::FileNotFound(s) => "config file not found: "@ + s@,
        ConfigError::Io(s) => "failed to read config file: "@ + s@,
        ConfigError::YamlParse(s) => "failed to parse YAML: "@ + s@,
        ConfigError::MissingField(s) => "missing required field: "@ + s@,
        ConfigError::InvalidField(s) => "invalid field value: "@ + s@,
        ConfigError::MissingEnvVar(s) => "env var "@ + s@ + " not set and no default provided"@,
        ConfigError::PathResolution(s) => "failed to resolve path: "@ + s@,
    }
}

impl ConfigError {
    /// The message of this error.
    pub fn to_string(&self) -> (r: String)
        ensures
            r@ == config_error_message(*self),
    {
        match self {
            ConfigError::FileNotFound(s) => concat_str("config file not found: ", s.as_str()),
            ConfigError::Io(s) => concat_str("failed to read config file: ", s.as_str()),
            ConfigError::YamlParse(s) => concat_str("failed to parse YAML: ", s.as_str()),
            ConfigError::MissingField(s) => concat_str("missing required field: ", s.as_str()),
            ConfigError::InvalidField(s) => concat_str("invalid field value: ", s.as_str()),
            ConfigError::MissingEnvVar(s) => {
                let mut m = concat_str("env var ", s.as_str());
                m.append(" not set and no default provided");
                m
            },
            ConfigError::PathResolution(s) => concat_str("failed to resolve path: ", s.as_str()),
        }
    }
}

/// Whether some rate limit tier of the server section has an empty name.
pub open spec fn has_unnamed_tier(c: OpenFeatureStoreConfig) -> bool {
    c.server matches Some(s) && s.rate_limit matches Some(rl) && exists|i: int|
        0 <= i < rl.tiers@.len() && (#[trigger] rl.tiers@[i]).name@.len() == 0
}

/// The message of the first problem of a configuration, in the order of the
/// checks: registry backend, online store backend, offline store backend,
/// rate limit tier names.
pub open spec fn config_problem(c: OpenFeatureStoreConfig) -> Option<Seq<char>> {
    if c.registry matches Some(r) && !(r.backend@ == "sqlite"@ || r.backend@ == "postgres"@) {
        Some("unsupported registry backend: "@ + c.registry->0.backend@)
    } else if c.online_store matches Some(o) && !(o.backend@ == "sqlite"@ || o.backend@ == "redis"@) {
        Some("unsupported online store backend: "@ + c.online_store->0.backend@)
    } else if c.offline_store matches Some(o) && !(o.backend@ == "duckdb"@) {
        Some("unsupported offline store backend: "@ + c.offline_store->0.backend@)
    } else if has_unnamed_tier(c) {
        Some("rate limit tier name must not be empty"@)
    } else {
        None
    }
}

impl OpenFeatureStoreConfig {
    /// Checks the configuration: the registry backend must be `sqlite` or
    /// `postgres`, the online store `sqlite` or `redis`, the offline store
    /// `duckdb`, and no rate limit tier may have an empty name. The first
    /// problem is reported as an invalid field.
    pub fn validate(&self) -> (r: Result<(), ConfigError>)
        ensures
            match config_problem(*self) {
                None => r is Ok,
                Some(m) => r matches Err(e) && e matches ConfigError::InvalidField(s) && s@ == m,
            },
    {
        if let Some(registry) = &self.registry {
            let b = registry.backend.as_str();
            if !(str_eq(b, "sqlite") || str_eq(b, "postgres")) {
                return Err(ConfigError::InvalidField(concat_str("unsupported registry backend: ", b)));
            }
        }
        if let Some(online) = &self.online_store {
            let b = online.backend.as_str();
            if !(str_eq(b, "sqlite") || str_eq(b, "redis")) {
                return Err(
                    ConfigError::InvalidField(concat_str("unsupported online store backend: ", b)),
                );
            }
        }
        if let Some(offline) = &self.offline_store {
            let b = offline.backend.as_str();
            if !str_eq(b, "duckdb") {
                return Err(
                    ConfigError::InvalidField(concat_str("unsupported offline store backend: ", b)),
                );
            }
        }
        if let Some(server) = &self.server {
            if let Some(rate_limit) = &server.rate_limit {
                let n = rate_limit.tiers.len();
                let mut i: usize = 0;
                while i < n
                    invariant
                        n == rate_limit.tiers@.len(),
                        i <= n,
                        forall|j: int| 0 <= j < i ==> (#[trigger] rate_limit.tiers@[j]).name@.len() != 0,
                        self.server == Some(*server),
                        server.rate_limit == Some(*rate_limit),
                        config_problem(*self) == (if has_unnamed_tier(*self) {
                            Some("rate limit tier name must not be empty"@)
                        } else {
                            None::<Seq<char>>
                        }),
                    decreases n - i,
                {
                    if rate_limit.tiers[i].name.as_str().is_empty() {
                        proof {
                            reveal_strlit("rate limit tier name must not be empty");
                            assert(self.server->0.rate_limit->0.tiers@[i as int].name@.len() == 0);
                            assert(has_unnamed_tier(*self));
                        }
                        return Err(
                            ConfigError::InvalidField(
                                String::from_str("rate limit tier name must not be empty"),
                            ),
                        );
                    }
                    i = i + 1;
                }
            }
        }
        Ok(())
    }
}

/// A copy of an optional string.
pub fn clone_opt_string(o: &Option<String>) -> (r: Option<String>)
    ensures
        opt_view(r) == opt_view(*o),
{
    match o {
        Some(s) => Some(s.clone()),
        None => None,
    }
}

/// The key of an API key entry once secrets are resolved: an entry with no
/// key but a `key_env` takes the secret of that name from the environment.
pub open spec fn resolved_key(e: ApiKeyEntry, env: Seq<(Seq<char>, Seq<char>)>) -> Option<Seq<char>> {
    match (e.key, e.key_env) {
        (None, Some(k)) => lookup(env, secret_env_name(k@)),
        _ => opt_view(e.key),
    }
}

impl OpenFeatureStoreConfig {
    /// Fills in the key of each API key entry that names a secret instead of
    /// giving the key; everything else is left as it is.
    pub fn resolve_secrets(&mut self, env: &EnvVars)
        ensures
            *final(self) == (OpenFeatureStoreConfig { auth: final(self).auth, ..*old(self) }),
            match (old(self).auth, final(self).auth) {
                (None, None) => true,
                (Some(a), Some(b)) => {
                    &&& b.provider == a.provider
                    &&& b.jwt == a.jwt
                    &&& b.api_keys@.len() == a.api_keys@.len()
                    &&& forall|i: int|
                        0 <= i < a.api_keys@.len() ==> {
                            &&& opt_view(#[trigger] b.api_keys@[i].key) == resolved_key(
                                a.api_keys@[i],
                                env.view_pairs(),
                            )
                            &&& opt_view(b.api_keys@[i].key_env) == opt_view(a.api_keys@[i].key_env)
                            &&& opt_view(b.api_keys@[i].role) == opt_view(a.api_keys@[i].role)
                        }
                },
                _ => false,
            },
    {
        let mut taken: Option<AuthConfig> = None;
        std::mem::swap(&mut taken, &mut self.auth);
        match taken {
            None => {},
            Some(auth) => {
                let AuthConfig { provider, api_keys, jwt } = auth;
                let mut entries: Vec<ApiKeyEntry> = Vec::new();
                let n = api_keys.len();
                let mut i: usize = 0;
                while i < n
                    invariant
                        n == api_keys@.len(),
                        i <= n,
                        entries@.len() == i,
                        forall|j: int|
                            0 <= j < i ==> {
                                &&& opt_view(#[trigger] entries@[j].key) == resolved_key(
                                    api_keys@[j],
                                    env.view_pairs(),
                                )
                                &&& opt_view(entries@[j].key_env) == opt_view(api_keys@[j].key_env)
                                &&& opt_view(entries@[j].role) == opt_view(api_keys@[j].role)
                            },
                    decreases n - i,
                {
                    let e = &api_keys[i];
                    let key = match (&e.key, &e.key_env) {
                        (None, Some(k)) => resolve_secret(k.as_str(), env),
                        _ => clone_opt_string(&e.key),
                    };
                    entries.push(
                        ApiKeyEntry {
                            key,
                            key_env: clone_opt_string(&e.key_env),
                            role: clone_opt_string(&e.role),
                        },
                    );
                    i = i + 1;
                }
                self.auth = Some(AuthConfig { provider, api_keys: entries, jwt });
            },
        }
    }
}

/// The registry store that the server opens.
#[derive(Debug, Clone)]
pub enum RegistryBackend {
    Sqlite { path: String },
    Postgres { connection_string: String },
}

/// The registry section in force: the configured one, or the default
/// (SQLite at `./ofs.db`).
pub open spec fn registry_section(config: OpenFeatureStoreConfig) -> (Seq<char>, Seq<char>, Option<Seq<char>>) {
    match config.registry {
        Some(rc) => (rc.backend@, rc.path@, match rc.postgres {
            Some(p) => opt_view(p.connection_string),
            None => None,
        }),
        None => ("sqlite"@, "./ofs.db"@, None),
    }
}

/// The registry store of a backend name, path and PostgreSQL connection.
pub open spec fn registry_backend_spec(
    backend: Seq<char>,
    path: Seq<char>,
    conn: Option<Seq<char>>,
    r: Result<RegistryBackend, String>,
) -> bool {
    if backend == "sqlite"@ {
        r matches Ok(RegistryBackend::Sqlite { path: p }) && p@ == path
    } else if backend == "postgres"@ {
        r matches Ok(RegistryBackend::Postgres { connection_string: c }) && c@ == (match conn {
            Some(c) => c,
            None => "postgres://localhost:5432/ofs"@,
        })
    } else {
        r matches Err(m) && m@ == "unsupported registry backend: "@ + backend
    }
}

fn choose_registry(backend: &str, path: &str, conn: Option<String>) -> (r: Result<RegistryBackend, String>)
    ensures
        registry_backend_spec(backend@, path@, opt_view(conn), r),
{
    if str_eq(backend, "sqlite") {
        Ok(RegistryBackend::Sqlite { path: String::from_str(path) })
    } else if str_eq(backend, "postgres") {
        let connection_string = match conn {
            Some(c) => c,
            None => String::from_str("postgres://localhost:5432/ofs"),
        };
        Ok(RegistryBackend::Postgres { connection_string })
    } else {
        Err(concat_str("unsupported registry backend: ", backend))
    }
}

/// Which registry store a configuration opens: SQLite at the configured
/// path, or PostgreSQL at the configured connection string
/// (`postgres://localhost:5432/ofs` when none is given); any other backend
/// name is refused with `unsupported registry backend: {name}`.
pub fn registry_backend(config: &OpenFeatureStoreConfig) -> (r: Result<RegistryBackend, String>)
    ensures
        registry_backend_spec(registry_section(*config).0, registry_section(*config).1, registry_section(*config).2, r),
{
    match &config.registry {
        Some(rc) => {
            let conn = match &rc.postgres {
                Some(p) => clone_opt_string(&p.connection_string),
                None => None,
            };
            choose_registry(rc.backend.as_str(), rc.path.as_str(), conn)
        },
        None => choose_registry("sqlite", "./ofs.db", None),
    }
}

/// The online store that the server opens.
#[derive(Debug, Clone)]
pub enum OnlineBackend {
    Sqlite { path: String },
    Redis { connection_string: String },
}

/// The online store section in force: the configured one, or the default,
/// which names no backend.
pub open spec fn online_section(config: OpenFeatureStoreConfig) -> (Seq<char>, Seq<char>, Option<Seq<char>>) {
    match config.online_store {
        Some(oc) => (oc.backend@, oc.path@, match oc.redis {
            Some(rd) => opt_view(rd.connection_string),
            None => None,
        }),
        None => (""@, ""@, None),
    }
}

/// The online store of a backend name, path and Redis connection.
pub open spec fn online_backend_spec(
    backend: Seq<char>,
    path: Seq<char>,
    conn: Option<Seq<char>>,
    r: Result<OnlineBackend, String>,
) -> bool {
    if backend == "sqlite"@ {
        r matches Ok(OnlineBackend::Sqlite { path: p }) && p@ == path
    } else if backend == "redis"@ {
        r matches Ok(OnlineBackend::Redis { connection_string: c }) && c@ == (match conn {
            Some(c) => c,
            None => "redis://127.0.0.1:6379"@,
        })
    } else {
        r matches Err(m) && m@ == "unsupported online store backend: "@ + backend
    }
}

fn choose_online(backend: &str, path: &str, conn: Option<String>) -> (r: Result<OnlineBackend, String>)
    ensures
        online_backend_spec(backend@, path@, opt_view(conn), r),
{
    if str_eq(backend, "sqlite") {
        Ok(OnlineBackend::Sqlite { path: String::from_str(path) })
    } else if str_eq(backend, "redis") {
        let connection_string = match conn {
            Some(c) => c,
            None => String::from_str("redis://127.0.0.1:6379"),
        };
        Ok(OnlineBackend::Redis { connection_string })
    } else {
        Err(concat_str("unsupported online store backend: ", backend))
    }
}

/// Which online store a configuration opens: SQLite at the configured path,
/// or Redis at the configured connection string (`redis://127.0.0.1:6379`
/// when none is given); any other backend name, the empty name of a missing
/// section included, is refused with `unsupported online store backend:
/// {name}`.
pub fn online_backend(config: &OpenFeatureStoreConfig) -> (r: Result<OnlineBackend, String>)
    ensures
        online_backend_spec(online_section(*config).0, online_section(*config).1, online_section(*config).2, r),
{
    match &config.online_store {
        Some(oc) => {
            let conn = match &oc.redis {
                Some(rd) => clone_opt_string(&rd.connection_string),
                None => None,
            };
            choose_online(oc.backend.as_str(), oc.path.as_str(), conn)
        },
        None => choose_online("", "", None),
    }
}

} // verus!

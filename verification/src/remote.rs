//! Remote object stores: which cloud a URI names, where in it an object is,
//! and the local cache of downloaded objects.
use vstd::prelude::*;
use vstd::string::*;

use crate::source::trim_start_matches_spec;
use crate::strings::{concat_str, ends_with, has_suffix, str_eq};
use crate::time::UtcDateTime;

verus! {

/// A cloud whose object store holds remote data.
#[derive(Debug, Clone, Copy, PartialEq, Eq, Structural, Hash)]
pub enum CloudProvider {
    Aws,
    Gcp,
    Azure,
}

/// The cloud a URI scheme names: `s3` for AWS, `gs` for Google Cloud, and
/// `az`, `azure` or `abfs` for Azure.
pub open spec fn provider_of_scheme(scheme: Seq<char>) -> Option<CloudProvider> {
    if scheme == "s3"@ {
        Some(CloudProvider::Aws)
    } else if scheme == "gs"@ {
        Some(CloudProvider::Gcp)
    } else if scheme == "az"@ || scheme == "azure"@ || scheme == "abfs"@ {
        Some(CloudProvider::Azure)
    } else {
        None
    }
}

/// The scheme written for a cloud.
pub open spec fn scheme_of_provider(p: CloudProvider) -> Seq<char> {
    match p {
        CloudProvider::Aws => "s3"@,
        CloudProvider::Gcp => "gs"@,
        CloudProvider::Azure => "az"@,
    }
}

impl CloudProvider {
    /// The cloud a URI scheme names.
    pub fn from_scheme(scheme: &str) -> (r: Option<Self>)
        ensures
            r == provider_of_scheme(scheme@),
    {
        if str_eq(scheme, "s3") {
            Some(CloudProvider::Aws)
        } else if str_eq(scheme, "gs") {
            Some(CloudProvider::Gcp)
        } else if str_eq(scheme, "az") || str_eq(scheme, "azure") || str_eq(scheme, "abfs") {
            Some(CloudProvider::Azure)
        } else {
            None
        }
    }

    /// The scheme written for this cloud.
    pub fn default_scheme(&self) -> (r: &'static str)
        ensures
            r@ == scheme_of_provider(*self),
    {
        match self {
            CloudProvider::Aws => "s3",
            CloudProvider::Gcp => "gs",
            CloudProvider::Azure => "az",
        }
    }
}

/// The default scheme of a cloud names that cloud.
pub proof fn lemma_scheme_roundtrip(p: CloudProvider)
    ensures
        provider_of_scheme(scheme_of_provider(p)) == Some(p),
{
    reveal_strlit("s3");
    reveal_strlit("gs");
    reveal_strlit("az");
    reveal_strlit("azure");
    reveal_strlit("abfs");
    assert("gs"@[0] != "s3"@[0]);
    assert("az"@[0] != "s3"@[0]);
    assert("az"@[0] != "gs"@[0]);
}

/// An error of a remote store operation; errors of the object store, of URI
/// parsing and of I/O carry their message.
#[derive(Debug, Clone)]
pub enum RemoteStoreError {
    UnsupportedScheme(String),
    MissingCredential(String),
    ObjectStore(String),
    UriParse(String),
    Io(String),
    NotFound(String),
    InvalidField(String),
    NotImplemented(String),
}

/// The message of a remote store error (its `Display` form).
pub open spec fn remote_error_message(e: RemoteStoreError) -> Seq<char> {
    match e {
        RemoteStoreError::UnsupportedScheme(s) => "unsupported URI scheme: "@ + s@,
        RemoteStoreError::MissingCredential(s) => "missing credential: "@ + s@,
        RemoteStoreError::ObjectStore(s) => "object store error: "@ + s@,
        RemoteStoreError::UriParse(s) => "URI parse error: "@ + s@,
        RemoteStoreError::Io(s) => "IO error: "@ + s@,
        RemoteStoreError::NotFound(s) => "path not found: "@ + s@,
        RemoteStoreError::InvalidField(s) => "invalid field: "@ + s@,
        RemoteStoreError::NotImplemented(s) => "not implemented: "@ + s@,
    }
}

impl RemoteStoreError {
    /// The message of this error.
    pub fn to_string(&self) -> (r: String)
        ensures
            r@ == remote_error_message(*self),
    {
        match self {
            RemoteStoreError::UnsupportedScheme(s) => concat_str("unsupported URI scheme: ", s.as_str()),
            RemoteStoreError::MissingCredential(s) => concat_str("missing credential: ", s.as_str()),
            RemoteStoreError::ObjectStore(s) => concat_str("object store error: ", s.as_str()),
            RemoteStoreError::UriParse(s) => concat_str("URI parse error: ", s.as_str()),
            RemoteStoreError::Io(s) => concat_str("IO error: ", s.as_str()),
            RemoteStoreError::NotFound(s) => concat_str("path not found: ", s.as_str()),
            RemoteStoreError::InvalidField(s) => concat_str("invalid field: ", s.as_str()),
            RemoteStoreError::NotImplemented(s) => concat_str("not implemented: ", s.as_str()),
        }
    }
}

/// The parts of a parsed URI that locate an object: its scheme, its host
/// (where it has one) and its path.
#[derive(Debug, Clone)]
pub struct UrlParts {
    pub scheme: String,
    pub host: Option<String>,
    pub path: String,
}

/// What `url::Url::parse` makes of a text: the scheme, host and path of the
/// URL, or the message of the parse error.
pub uninterp spec fn url_parse(uri: Seq<char>) -> Result<(Seq<char>, Option<Seq<char>>, Seq<char>), Seq<char>>;

/// Calls `url::Url::parse`, and reads `scheme`, `host_str` and `path` of the
/// URL, or the message of the error.
#[verifier::external_body]
fn parse_url(uri: &str) -> (r: Result<UrlParts, String>)
    ensures
        match (r, url_parse(uri@)) {
            (Ok(p), Ok(t)) => p.scheme@ == t.0 && crate::source::opt_view(p.host) == t.1 && p.path@ == t.2,
            (Err(m), Err(t)) => m@ == t,
            _ => false,
        },
{
    match url::Url::parse(uri) {
        Ok(u) => Ok(
            UrlParts {
                scheme: u.scheme().to_string(),
                host: match u.host_str() {
                    Some(h) => Some(h.to_string()),
                    None => None,
                },
                path: u.path().to_string(),
            },
        ),
        Err(e) => Err(e.to_string()),
    }
}

/// An object in a cloud's store: the cloud, the bucket (or container) and
/// the key within it.
#[derive(Debug, Clone)]
pub struct RemoteLocation {
    pub provider: CloudProvider,
    pub bucket: String,
    pub key: String,
}

/// The location that a parsed URI names: its scheme must name a cloud, it
/// must have a host, which is the bucket, and its path without leading `/`
/// is the key. A parse error is passed on.
pub open spec fn location_spec(parsed: Result<(Seq<char>, Option<Seq<char>>, Seq<char>), Seq<char>>) -> Result<
    (CloudProvider, Seq<char>, Seq<char>),
    RemoteStoreErrorView,
> {
    match parsed {
        Err(m) => Err(RemoteStoreErrorView::UriParse(m)),
        Ok((scheme, host, path)) => match provider_of_scheme(scheme) {
            None => Err(RemoteStoreErrorView::UnsupportedScheme(scheme)),
            Some(p) => match host {
                None => Err(RemoteStoreErrorView::InvalidField("missing bucket/host in remote URI"@)),
                Some(h) => Ok((p, h, trim_start_matches_spec(path, "/"@))),
            },
        },
    }
}

/// The errors of reading a location, by their messages.
pub enum RemoteStoreErrorView {
    UnsupportedScheme(Seq<char>),
    UriParse(Seq<char>),
    InvalidField(Seq<char>),
}

/// Whether a result of reading a location is the one described.
pub open spec fn location_result_matches(
    r: Result<RemoteLocation, RemoteStoreError>,
    s: Result<(CloudProvider, Seq<char>, Seq<char>), RemoteStoreErrorView>,
) -> bool {
    match (r, s) {
        (Ok(l), Ok((p, b, k))) => l.provider == p && l.bucket@ == b && l.key@ == k,
        (Err(RemoteStoreError::UnsupportedScheme(m)), Err(RemoteStoreErrorView::UnsupportedScheme(n))) => m@ == n,
        (Err(RemoteStoreError::UriParse(m)), Err(RemoteStoreErrorView::UriParse(n))) => m@ == n,
        (Err(RemoteStoreError::InvalidField(m)), Err(RemoteStoreErrorView::InvalidField(n))) => m@ == n,
        _ => false,
    }
}

/// `s` without its leading `c` characters.
pub fn trim_start_char(s: &str, c: char) -> (r: String)
    ensures
        r@ == trim_start_matches_spec(s@, seq![c]),
{
    let cs = crate::strings::chars_of(s);
    let n = cs.len();
    let mut i: usize = 0;
    assert(s@.skip(0) =~= s@);
    while i < n && cs[i] == c
        invariant
            n == cs@.len(),
            cs@ == s@,
            i <= n,
            trim_start_matches_spec(s@, seq![c]) == trim_start_matches_spec(s@.skip(i as int), seq![c]),
        decreases n - i,
    {
        proof {
            assert(s@.skip(i as int).take(1) =~= seq![c]);
            assert(s@.skip(i as int).skip(1) =~= s@.skip(i + 1));
        }
        i = i + 1;
    }
    proof {
        if i < n {
            assert(s@.skip(i as int).take(1) != seq![c]) by {
                assert(s@.skip(i as int).take(1)[0] == cs@[i as int]);
            }
        }
    }
    String::from_str(s.substring_char(i, n))
}

impl RemoteLocation {
    /// The location a parsed URI names.
    pub fn from_parsed(parsed: Result<UrlParts, String>) -> (r: Result<Self, RemoteStoreError>)
        ensures
            location_result_matches(
                r,
                location_spec(
                    match parsed {
                        Ok(p) => Ok((p.scheme@, crate::source::opt_view(p.host), p.path@)),
                        Err(m) => Err(m@),
                    },
                ),
            ),
    {
        match parsed {
            Err(m) => Err(RemoteStoreError::UriParse(m)),
            Ok(p) => match CloudProvider::from_scheme(p.scheme.as_str()) {
                None => Err(RemoteStoreError::UnsupportedScheme(p.scheme)),
                Some(provider) => match p.host {
                    None => Err(
                        RemoteStoreError::InvalidField(
                            String::from_str("missing bucket/host in remote URI"),
                        ),
                    ),
                    Some(h) => {
                        proof {
                            reveal_strlit("/");
                            assert("/"@ =~= seq!['/']);
                        }
                        let key = trim_start_char(p.path.as_str(), '/');
                        Ok(RemoteLocation { provider, bucket: h, key })
                    },
                },
            },
        }
    }

    /// The location a URI names.
    pub fn from_uri(uri: &str) -> (r: Result<Self, RemoteStoreError>)
        ensures
            location_result_matches(r, location_spec(url_parse(uri@))),
    {
        let parsed = parse_url(uri);
        Self::from_parsed(parsed)
    }

    /// The URI of this location: `scheme://bucket/key`.
    pub fn to_uri(&self) -> (r: String)
        ensures
            r@ == scheme_of_provider(self.provider) + "://"@ + self.bucket@ + "/"@ + self.key@,
    {
        let mut r = String::from_str(self.provider.default_scheme());
        r.append("://");
        r.append(self.bucket.as_str());
        r.append("/");
        r.append(self.key.as_str());
        r
    }

    /// The location of `child` under this one: appended to the key, with a
    /// `/` between them unless the key is empty or already ends in one.
    pub fn join(&self, child: &str) -> (r: Self)
        ensures
            r.provider == self.provider,
            r.bucket@ == self.bucket@,
            r.key@ == (if self.key@.len() == 0 || has_suffix(self.key@, "/"@) {
                self.key@ + child@
            } else {
                self.key@ + "/"@ + child@
            }),
    {
        let key = if self.key.as_str().is_empty() || ends_with(self.key.as_str(), "/") {
            concat_str(self.key.as_str(), child)
        } else {
            let mut k = concat_str(self.key.as_str(), "/");
            k.append(child);
            k
        };
        RemoteLocation { provider: self.provider, bucket: self.bucket.clone(), key }
    }
}

/// A file in a remote store.
#[derive(Debug, Clone)]
pub struct RemoteFileInfo {
    pub location: RemoteLocation,
    pub size: u64,
    pub last_modified: UtcDateTime,
    pub path: String,
}

/// The format of a remote data set.
#[derive(Debug, Clone, Copy, PartialEq, Eq, Structural)]
pub enum RemoteFileFormat {
    Parquet,
    Csv,
    Json,
}

impl Default for RemoteFileFormat {
    /// Parquet.
    fn default() -> (r: Self)
        ensures
            r == RemoteFileFormat::Parquet,
    {
        RemoteFileFormat::Parquet
    }
}

/// A data set in a remote store: where it is, its format and its partition
/// columns.
#[derive(Debug, Clone)]
pub struct RemoteDataSet {
    pub location: RemoteLocation,
    pub file_format: RemoteFileFormat,
    pub partition_columns: Vec<String>,
}

/// How to build the object store client of a location: the S3 bucket with
/// its region (`us-east-1` unless configured) and the configured access key,
/// secret and endpoint; the GCS bucket with the configured service account
/// file; or the Azure container, whose client reads its credentials from the
/// environment (a configured connection string is noted but not used).
#[derive(Debug, Clone)]
pub enum BackendSettings {
    S3 {
        bucket: String,
        region: String,
        access_key_id: Option<String>,
        secret_access_key: Option<String>,
        endpoint: Option<String>,
    },
    Gcs { bucket: String, service_account_path: Option<String> },
    Azure { container: String, connection_string_ignored: bool },
}

/// A field of an optional section of the configuration.
pub open spec fn section_field<T>(section: Option<T>, field: spec_fn(T) -> Option<String>) -> Option<Seq<char>> {
    match section {
        Some(c) => crate::source::opt_view(field(c)),
        None => None,
    }
}

/// The settings for the client of `location` under `config`.
pub open spec fn backend_settings_spec(
    location: RemoteLocation,
    config: crate::config::RemoteStoreConfig,
    r: BackendSettings,
) -> bool {
    match location.provider {
        CloudProvider::Aws => r matches BackendSettings::S3 {
            bucket,
            region,
            access_key_id,
            secret_access_key,
            endpoint,
        } && bucket@ == location.bucket@ && region@ == (match section_field(
            config.s3,
            |c: crate::config::S3Config| c.region,
        ) {
            Some(rg) => rg,
            None => "us-east-1"@,
        }) && crate::source::opt_view(access_key_id) == section_field(
            config.s3,
            |c: crate::config::S3Config| c.access_key_id,
        ) && crate::source::opt_view(secret_access_key) == section_field(
            config.s3,
            |c: crate::config::S3Config| c.secret_access_key,
        ) && crate::source::opt_view(endpoint) == section_field(
            config.s3,
            |c: crate::config::S3Config| c.endpoint,
        ),
        CloudProvider::Gcp => r matches BackendSettings::Gcs { bucket, service_account_path } && bucket@
            == location.bucket@ && crate::source::opt_view(service_account_path) == section_field(
            config.gcs,
            |c: crate::config::GcsConfig| c.service_account_path,
        ),
        CloudProvider::Azure => r matches BackendSettings::Azure { container, connection_string_ignored }
            && container@ == location.bucket@ && connection_string_ignored == (section_field(
            config.azure,
            |c: crate::config::AzureConfig| c.connection_string,
        ) is Some),
    }
}

/// Chooses how to build the object store client for `location`.
pub fn backend_settings(location: &RemoteLocation, config: &crate::config::RemoteStoreConfig) -> (r:
    BackendSettings)
    ensures
        backend_settings_spec(*location, *config, r),
{
    match location.provider {
        CloudProvider::Aws => {
            let (region, access_key_id, secret_access_key, endpoint) = match &config.s3 {
                Some(s3) => (
                    match &s3.region {
                        Some(rg) => rg.clone(),
                        None => String::from_str("us-east-1"),
                    },
                    crate::config::clone_opt_string(&s3.access_key_id),
                    crate::config::clone_opt_string(&s3.secret_access_key),
                    crate::config::clone_opt_string(&s3.endpoint),
                ),
                None => (String::from_str("us-east-1"), None, None, None),
            };
            BackendSettings::S3 {
                bucket: location.bucket.clone(),
                region,
                access_key_id,
                secret_access_key,
                endpoint,
            }
        },
        CloudProvider::Gcp => {
            let service_account_path = match &config.gcs {
                Some(g) => crate::config::clone_opt_string(&g.service_account_path),
                None => None,
            };
            BackendSettings::Gcs { bucket: location.bucket.clone(), service_account_path }
        },
        CloudProvider::Azure => {
            let connection_string_ignored = match &config.azure {
                Some(a) => a.connection_string.is_some(),
                None => false,
            };
            BackendSettings::Azure { container: location.bucket.clone(), connection_string_ignored }
        },
    }
}

/// The name of a cloud's client in build errors.
pub open spec fn client_name(p: CloudProvider) -> Seq<char> {
    match p {
        CloudProvider::Aws => "S3"@,
        CloudProvider::Gcp => "GCS"@,
        CloudProvider::Azure => "Azure"@,
    }
}

/// The error reported when a cloud's client cannot be built:
/// `MissingCredential("failed to build {client} client: {message}")`.
pub fn backend_build_error(provider: CloudProvider, message: &str) -> (r: RemoteStoreError)
    ensures
        r matches RemoteStoreError::MissingCredential(m) && m@ == "failed to build "@ + client_name(provider)
            + " client: "@ + message@,
{
    let name = match provider {
        CloudProvider::Aws => "failed to build S3 client: ",
        CloudProvider::Gcp => "failed to build GCS client: ",
        CloudProvider::Azure => "failed to build Azure client: ",
    };
    proof {
        reveal_strlit("failed to build S3 client: ");
        reveal_strlit("failed to build GCS client: ");
        reveal_strlit("failed to build Azure client: ");
        reveal_strlit("failed to build ");
        reveal_strlit(" client: ");
        reveal_strlit("S3");
        reveal_strlit("GCS");
        reveal_strlit("Azure");
        assert(name@ == "failed to build "@ + client_name(provider) + " client: "@);
    }
    RemoteStoreError::MissingCredential(concat_str(name, message))
}

/// The name under which a downloaded object is kept in the temporary
/// directory: the download time in nanoseconds, `-`, and the last segment of
/// the object's path.
pub open spec fn download_name_spec(remote_path: Seq<char>, epoch_nanos: i64) -> Seq<char> {
    crate::strings::signed_decimal(epoch_nanos as int) + "-"@ + crate::strings::split_spec(remote_path, '/').last()
}

/// The file name for an object downloaded at `epoch_nanos`.
pub fn download_file_name(remote_path: &str, epoch_nanos: i64) -> (r: String)
    ensures
        r@ == download_name_spec(remote_path@, epoch_nanos),
{
    let parts = crate::strings::split_char(remote_path, '/');
    proof {
        crate::strings::lemma_split_nonempty(remote_path@, '/');
        assert(crate::strings::views(parts@).last() == parts@.last()@);
    }
    let last = parts[parts.len() - 1].as_str();
    let stamp = crate::strings::i64_to_decimal(epoch_nanos);
    concat_str(concat_str(stamp.as_str(), "-").as_str(), last)
}

} // verus!

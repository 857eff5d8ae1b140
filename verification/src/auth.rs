//! Authentication: who a request comes from, by API key or by token claims,
//! and the decisions of the request filter that checks it.
use vstd::prelude::*;
use vstd::string::*;
use vstd::utf8::*;

use crate::config::{ApiKeyEntry, AuthConfig};
use crate::errors::{error_message, OfsError};
use crate::kv::{distinct_keys, lemma_upsert_distinct, lookup, pairs_view, upsert, upsert_pair};
use crate::rbac::{
    access_granted, forbidden_message, Permission, RbacChecker,
};
use crate::source::{opt_view, EnvVars};
use crate::strings::{
    clone_strings, concat_str, split_char, split_spec, starts_with, has_prefix, str_eq, trim,
    trim_spec, views,
};

verus! {

broadcast use vstd::utf8::group_utf8_lib;

/// Who made a request: a subject, its global roles, and its role on each
/// project (one entry per project).
#[derive(Debug, Clone)]
pub struct AuthIdentity {
    pub subject: String,
    pub roles: Vec<String>,
    pub project_roles: Vec<(String, String)>,
}

/// The credentials that came with a request.
#[derive(Debug, Clone)]
pub struct AuthRequest {
    pub api_key: Option<String>,
    pub bearer_token: Option<String>,
}

/// Accepts every request as the anonymous administrator.
pub struct NoopAuth;

impl NoopAuth {
    /// Accepts the request as the anonymous administrator.
    pub fn authenticate(&self, request: &AuthRequest) -> (r: Result<AuthIdentity, OfsError>)
        ensures
            r matches Ok(id) && id.subject@ == "anonymous"@ && views(id.roles@) == seq!["admin"@]
                && id.project_roles@.len() == 0,
    {
        let mut roles: Vec<String> = Vec::new();
        roles.push(String::from_str("admin"));
        proof {
            assert(views(roles@) =~= seq!["admin"@]);
        }
        Ok(AuthIdentity { subject: String::from_str("anonymous"), roles, project_roles: Vec::new() })
    }
}

/// The roles of an API key: its comma-separated role list with each item
/// trimmed, or `read` alone when none is given.
pub open spec fn api_key_roles(role: Option<Seq<char>>) -> Seq<Seq<char>> {
    match role {
        Some(r) => split_spec(r, ',').map_values(|p: Seq<char>| trim_spec(p)),
        None => seq!["read"@],
    }
}

/// The key of an entry: the one it gives, else the value of the environment
/// variable it names, else empty.
pub open spec fn entry_key(e: ApiKeyEntry, env: Seq<(Seq<char>, Seq<char>)>) -> Seq<char> {
    match e.key {
        Some(k) => k@,
        None => match e.key_env {
            Some(v) => match lookup(env, v@) {
                Some(x) => x,
                None => Seq::empty(),
            },
            None => Seq::empty(),
        },
    }
}

/// The keys and roles that a list of entries yields, in order; entries with
/// an empty key are left out.
pub open spec fn api_key_table(entries: Seq<ApiKeyEntry>, env: Seq<(Seq<char>, Seq<char>)>) -> Seq<
    (Seq<char>, Seq<Seq<char>>),
>
    decreases entries.len(),
{
    if entries.len() == 0 {
        Seq::empty()
    } else {
        let t = api_key_table(entries.drop_last(), env);
        let k = entry_key(entries.last(), env);
        if k.len() == 0 {
            t
        } else {
            t.push((k, api_key_roles(opt_view(entries.last().role))))
        }
    }
}

/// The first seven bytes of a key (all of it when shorter), as text.
pub open spec fn key_head(k: Seq<char>) -> Seq<char> {
    let b = encode_utf8(k);
    decode_utf8(b.take(if b.len() < 7 { b.len() as int } else { 7 }))
}

/// Whether the first seven bytes of a key end on a character boundary.
pub open spec fn key_head_on_boundary(k: Seq<char>) -> bool {
    let b = encode_utf8(k);
    is_char_boundary(b, if b.len() < 7 { b.len() as int } else { 7 })
}

/// Authenticates requests by API key.
pub struct ApiKeyAuth {
    keys: Vec<(String, Vec<String>)>,
}

/// Splits a role list at commas and trims each item.
fn parse_roles(role: &str) -> (r: Vec<String>)
    ensures
        views(r@) == split_spec(role@, ',').map_values(|p: Seq<char>| trim_spec(p)),
{
    let parts = split_char(role, ',');
    let ghost target = split_spec(role@, ',').map_values(|p: Seq<char>| trim_spec(p));
    let mut out: Vec<String> = Vec::new();
    let n = parts.len();
    let mut i: usize = 0;
    while i < n
        invariant
            n == parts@.len(),
            views(parts@) == split_spec(role@, ','),
            target == split_spec(role@, ',').map_values(|p: Seq<char>| trim_spec(p)),
            i <= n,
            views(out@) == target.take(i as int),
        decreases n - i,
    {
        let t = trim(parts[i].as_str());
        let ghost before = out@;
        out.push(t);
        i = i + 1;
        proof {
            assert(views(parts@)[i - 1] == parts@[i - 1]@);
            assert(views(out@) =~= views(before).push(t@));
            assert(target.take(i as int) =~= target.take(i - 1).push(target[i - 1]));
        }
    }
    proof {
        assert(target.take(n as int) =~= target);
    }
    out
}

impl ApiKeyAuth {
    /// The keys this provider accepts, each with its roles, in order.
    pub closed spec fn table(&self) -> Seq<(Seq<char>, Seq<Seq<char>>)> {
        self.keys@.map_values(|e: (String, Vec<String>)| (e.0@, views(e.1@)))
    }

    /// Takes each entry's key (given, or read from the environment variable
    /// it names) and its roles; entries that end up with an empty key are
    /// left out.
    pub fn new(config: &AuthConfig, env: &EnvVars) -> (r: Self)
        ensures
            r.table() == api_key_table(config.api_keys@, env.view_pairs()),
    {
        let mut keys: Vec<(String, Vec<String>)> = Vec::new();
        let n = config.api_keys.len();
        let mut i: usize = 0;
        while i < n
            invariant
                n == config.api_keys@.len(),
                i <= n,
                keys@.map_values(|e: (String, Vec<String>)| (e.0@, views(e.1@))) == api_key_table(
                    config.api_keys@.take(i as int),
                    env.view_pairs(),
                ),
            decreases n - i,
        {
            let entry = &config.api_keys[i];
            proof {
                assert(config.api_keys@.take(i + 1).drop_last() =~= config.api_keys@.take(i as int));
                assert(config.api_keys@.take(i + 1).last() == *entry);
            }
            let key: String = match &entry.key {
                Some(k) => k.clone(),
                None => match &entry.key_env {
                    Some(v) => match env.get(v.as_str()) {
                        Some(x) => x,
                        None => String::new(),
                    },
                    None => String::new(),
                },
            };
            if !key.as_str().is_empty() {
                let roles: Vec<String> = match &entry.role {
                    Some(r) => parse_roles(r.as_str()),
                    None => {
                        let mut v: Vec<String> = Vec::new();
                        v.push(String::from_str("read"));
                        proof {
                            assert(views(v@) =~= seq!["read"@]);
                        }
                        v
                    },
                };
                let ghost before = keys@;
                keys.push((key, roles));
                proof {
                    assert(keys@.map_values(|e: (String, Vec<String>)| (e.0@, views(e.1@))) =~= before.map_values(
                        |e: (String, Vec<String>)| (e.0@, views(e.1@)),
                    ).push((key@, views(roles@))));
                }
            }
            i = i + 1;
        }
        proof {
            assert(config.api_keys@.take(n as int) =~= config.api_keys@);
        }
        ApiKeyAuth { keys }
    }

    /// Whether `key` is one of the accepted keys.
    pub open spec fn accepts(&self, key: Seq<char>) -> bool {
        lookup(self.table(), key) is Some
    }

    /// Authenticates by the request's API key. An accepted key gives the
    /// subject `apikey:` followed by the key's first seven bytes, and the
    /// key's roles; a missing or unknown key is refused.
    pub fn authenticate(&self, request: &AuthRequest) -> (r: Result<AuthIdentity, OfsError>)
        requires
            (request.api_key matches Some(k) && self.accepts(k@)) ==> key_head_on_boundary(request.api_key->0@),
        ensures
            match request.api_key {
                None => r matches Err(OfsError::Auth(m)) && m@ == "Missing API key"@,
                Some(k) => match lookup(self.table(), k@) {
                    None => r matches Err(OfsError::Auth(m)) && m@ == "Invalid API key"@,
                    Some(roles) => r matches Ok(id) && id.subject@ == "apikey:"@ + key_head(k@)
                        && views(id.roles@) == roles && id.project_roles@.len() == 0,
                },
            },
    {
        match &request.api_key {
            None => Err(OfsError::Auth(String::from_str("Missing API key"))),
            Some(key) => {
                let n = self.keys.len();
                let mut i: usize = 0;
                assert(self.table().skip(0) =~= self.table());
                while i < n
                    invariant
                        n == self.keys@.len(),
                        i <= n,
                        request.api_key == Some(*key),
                        lookup(self.table(), key@) == lookup(self.table().skip(i as int), key@),
                        self.accepts(key@) ==> key_head_on_boundary(key@),
                    decreases n - i,
                {
                    proof {
                        let sk = self.table().skip(i as int);
                        assert(sk.drop_first() =~= self.table().skip(i + 1));
                        assert(sk[0] == (self.keys@[i as int].0@, views(self.keys@[i as int].1@)));
                    }
                    let stored = &self.keys[i].0;
                    if str_eq(stored.as_str(), key.as_str()) {
                        proof {
                            let sk = self.table().skip(i as int);
                            assert(sk[0].0 == key@);
                            assert(lookup(sk, key@) == Some(sk[0].1));
                            assert(self.accepts(key@));
                        }
                        let sref: &str = stored.as_str();
                        let len = sref.as_bytes().len();
                        let mid: usize = if len < 7 {
                            len
                        } else {
                            7
                        };
                        proof {
                            assert(key_head_on_boundary(key@));
                            assert(stored@ == key@);
                            assert(len == encode_utf8(key@).len());
                            assert(is_char_boundary(encode_utf8(key@), mid as int));
                        }
                        let (head, _) = sref.split_at(mid);
                        proof {
                            encode_utf8_decode_utf8(head@);
                            assert(encode_utf8(stored@).subrange(0, mid as int) =~= encode_utf8(key@).take(
                                mid as int,
                            ));
                            let sk = self.table().skip(i as int);
                            assert(lookup(self.table(), key@) == Some(views(self.keys@[i as int].1@)));
                        }
                        let subject = concat_str("apikey:", head);
                        let roles = clone_strings(&self.keys[i].1);
                        proof {
                            assert(head@ == key_head(key@));
                            assert(subject@ == "apikey:"@ + key_head(key@));
                            assert(views(roles@) == lookup(self.table(), key@)->Some_0);
                        }
                        let id = AuthIdentity { subject, roles, project_roles: Vec::new() };
                        proof {
                        }
                        return Ok(id);
                    }
                    i = i + 1;
                }
                proof {
                    assert(self.table().skip(n as int).len() == 0);
                }
                Err(OfsError::Auth(String::from_str("Invalid API key")))
            },
        }
    }
}

/// The (resource, role) pairs of a token's resource access claims, in order.
pub open spec fn resource_role_pairs(resources: Seq<(Seq<char>, Seq<Seq<char>>)>) -> Seq<
    (Seq<char>, Seq<char>),
>
    decreases resources.len(),
{
    if resources.len() == 0 {
        Seq::empty()
    } else {
        resource_role_pairs(resources.drop_last()) + resources.last().1.map_values(
            |r: Seq<char>| (resources.last().0, r),
        )
    }
}

/// The entries left after setting each pair in turn.
pub open spec fn upsert_all(m: Seq<(Seq<char>, Seq<char>)>, pairs: Seq<(Seq<char>, Seq<char>)>) -> Seq<
    (Seq<char>, Seq<char>),
>
    decreases pairs.len(),
{
    if pairs.len() == 0 {
        m
    } else {
        upsert(upsert_all(m, pairs.drop_last()), pairs.last().0, pairs.last().1)
    }
}

/// Setting pairs in turn keeps the keys distinct.
pub proof fn lemma_upsert_all_distinct(m: Seq<(Seq<char>, Seq<char>)>, pairs: Seq<(Seq<char>, Seq<char>)>)
    requires
        distinct_keys(m),
    ensures
        distinct_keys(upsert_all(m, pairs)),
    decreases pairs.len(),
{
    if pairs.len() > 0 {
        lemma_upsert_all_distinct(m, pairs.drop_last());
        lemma_upsert_distinct(upsert_all(m, pairs.drop_last()), pairs.last().0, pairs.last().1);
    }
}

/// The project roles that a token's resource access claims give: for each
/// resource, the last of its roles.
pub open spec fn claims_project_roles(resources: Seq<(Seq<char>, Seq<Seq<char>>)>) -> Seq<
    (Seq<char>, Seq<char>),
> {
    upsert_all(Seq::empty(), resource_role_pairs(resources))
}

/// The view of resource access claims.
pub open spec fn resources_view(r: Seq<(String, Vec<String>)>) -> Seq<(Seq<char>, Seq<Seq<char>>)> {
    r.map_values(|e: (String, Vec<String>)| (e.0@, views(e.1@)))
}

/// The identity that a validated token's claims describe: the subject
/// (`unknown` when absent), the token's roles followed by its realm roles,
/// and for each resource of its resource access the last of its roles.
pub fn identity_from_claims(
    sub: Option<String>,
    roles: Option<Vec<String>>,
    realm_roles: Option<Vec<String>>,
    resource_access: Option<Vec<(String, Vec<String>)>>,
) -> (r: AuthIdentity)
    ensures
        r.subject@ == match sub {
            Some(s) => s@,
            None => "unknown"@,
        },
        views(r.roles@) == (match roles {
            Some(v) => views(v@),
            None => Seq::empty(),
        }) + (match realm_roles {
            Some(v) => views(v@),
            None => Seq::empty(),
        }),
        pairs_view(r.project_roles@) == match resource_access {
            Some(ra) => claims_project_roles(resources_view(ra@)),
            None => Seq::empty(),
        },
        distinct_keys(pairs_view(r.project_roles@)),
{
    let subject = match sub {
        Some(s) => s,
        None => String::from_str("unknown"),
    };
    let mut all_roles: Vec<String> = match roles {
        Some(v) => v,
        None => Vec::new(),
    };
    let ghost first = views(all_roles@);
    if let Some(realm) = realm_roles {
        let n = realm.len();
        let mut i: usize = 0;
        while i < n
            invariant
                n == realm@.len(),
                i <= n,
                views(all_roles@) == first + views(realm@).take(i as int),
            decreases n - i,
        {
            let ghost before = all_roles@;
            all_roles.push(realm[i].clone());
            i = i + 1;
            proof {
                assert(views(all_roles@) =~= views(before).push(realm@[i - 1]@));
                assert(views(realm@).take(i as int) =~= views(realm@).take(i - 1).push(realm@[i - 1]@));
            }
        }
        proof {
            assert(views(realm@).take(n as int) =~= views(realm@));
        }
    } else {
        assert(views(all_roles@) =~= first + Seq::<Seq<char>>::empty());
    }
    let mut project_roles: Vec<(String, String)> = Vec::new();
    if let Some(resources) = resource_access {
        let ghost rv = resources_view(resources@);
        let n = resources.len();
        let mut i: usize = 0;
        while i < n
            invariant
                n == resources@.len(),
                rv == resources_view(resources@),
                i <= n,
                pairs_view(project_roles@) == upsert_all(Seq::empty(), resource_role_pairs(rv.take(i as int))),
            decreases n - i,
        {
            let name = &resources[i].0;
            let rs = &resources[i].1;
            let m = rs.len();
            let mut j: usize = 0;
            let ghost base = resource_role_pairs(rv.take(i as int));
            let ghost pairs_i = rv[i as int].1.map_values(|r: Seq<char>| (rv[i as int].0, r));
            while j < m
                invariant
                    m == rs@.len(),
                    j <= m,
                    rv[i as int] == (name@, views(rs@)),
                    pairs_i == rv[i as int].1.map_values(|r: Seq<char>| (rv[i as int].0, r)),
                    pairs_view(project_roles@) == upsert_all(Seq::empty(), base + pairs_i.take(j as int)),
                decreases m - j,
            {
                upsert_pair(&mut project_roles, name, &rs[j]);
                j = j + 1;
                proof {
                    let prev = base + pairs_i.take(j - 1);
                    let cur = base + pairs_i.take(j as int);
                    assert(cur.drop_last() =~= prev);
                    assert(cur.last() == (name@, rs@[j - 1]@));
                }
            }
            proof {
                assert(rv.take(i + 1).drop_last() =~= rv.take(i as int));
                assert(pairs_i.take(m as int) =~= pairs_i);
            }
            i = i + 1;
        }
        proof {
            assert(rv.take(n as int) =~= rv);
            lemma_upsert_all_distinct(Seq::empty(), resource_role_pairs(rv));
        }
    }
    AuthIdentity { subject, roles: all_roles, project_roles }
}

/// A key of a JSON Web Key Set.
#[derive(Debug, Clone)]
pub struct Jwk {
    pub kty: Option<String>,
    pub kid: Option<String>,
    pub n: Option<String>,
    pub e: Option<String>,
}

/// A JSON Web Key Set as served by an identity provider.
#[derive(Debug, Clone)]
pub struct JwksResponse {
    pub keys: Vec<Jwk>,
}

/// The RSA keys of a key set that can be used: those with both a modulus
/// and an exponent, each as (key id, modulus, exponent), the key id empty
/// when absent.
pub open spec fn usable_jwks(keys: Seq<Jwk>) -> Seq<(Seq<char>, Seq<char>, Seq<char>)>
    decreases keys.len(),
{
    if keys.len() == 0 {
        Seq::empty()
    } else {
        let rest = usable_jwks(keys.drop_last());
        let k = keys.last();
        match (k.n, k.e) {
            (Some(n), Some(e)) => rest.push(
                (
                    match k.kid {
                        Some(kid) => kid@,
                        None => Seq::empty(),
                    },
                    n@,
                    e@,
                ),
            ),
            _ => rest,
        }
    }
}

impl JwksResponse {
    /// The usable RSA components of the key set, in order.
    pub fn rsa_components(&self) -> (r: Vec<(String, String, String)>)
        ensures
            r@.map_values(|t: (String, String, String)| (t.0@, t.1@, t.2@)) == usable_jwks(self.keys@),
    {
        let mut out: Vec<(String, String, String)> = Vec::new();
        let n = self.keys.len();
        let mut i: usize = 0;
        while i < n
            invariant
                n == self.keys@.len(),
                i <= n,
                out@.map_values(|t: (String, String, String)| (t.0@, t.1@, t.2@)) == usable_jwks(
                    self.keys@.take(i as int),
                ),
            decreases n - i,
        {
            let k = &self.keys[i];
            proof {
                assert(self.keys@.take(i + 1).drop_last() =~= self.keys@.take(i as int));
                assert(self.keys@.take(i + 1).last() == *k);
            }
            match (&k.n, &k.e) {
                (Some(nn), Some(ee)) => {
                    let kid = match &k.kid {
                        Some(x) => x.clone(),
                        None => String::new(),
                    };
                    let ghost before = out@;
                    out.push((kid, nn.clone(), ee.clone()));
                    proof {
                        assert(out@.map_values(|t: (String, String, String)| (t.0@, t.1@, t.2@)) =~= before.map_values(
                            |t: (String, String, String)| (t.0@, t.1@, t.2@),
                        ).push((kid@, nn@, ee@)));
                    }
                },
                _ => {},
            }
            i = i + 1;
        }
        proof {
            assert(self.keys@.take(n as int) =~= self.keys@);
        }
        out
    }
}

/// Which authentication a configuration asks for.
#[derive(Debug, Clone, Copy, PartialEq, Eq, Structural)]
pub enum AuthProviderKind {
    ApiKey,
    Jwt,
    Noop,
}

/// The authentication a configuration selects: `api_key` or `apikey` for
/// API keys, `jwt` or `oidc` for tokens when token settings are given, and
/// none otherwise.
pub open spec fn provider_kind_spec(provider: Seq<char>, has_jwt: bool) -> AuthProviderKind {
    if provider == "api_key"@ || provider == "apikey"@ {
        AuthProviderKind::ApiKey
    } else if (provider == "jwt"@ || provider == "oidc"@) && has_jwt {
        AuthProviderKind::Jwt
    } else {
        AuthProviderKind::Noop
    }
}

/// The authentication that a configuration selects.
pub fn auth_provider_kind(config: &AuthConfig) -> (r: AuthProviderKind)
    ensures
        r == provider_kind_spec(config.provider@, config.jwt is Some),
{
    let p = config.provider.as_str();
    if str_eq(p, "api_key") || str_eq(p, "apikey") {
        AuthProviderKind::ApiKey
    } else if str_eq(p, "jwt") || str_eq(p, "oidc") {
        if config.jwt.is_some() {
            AuthProviderKind::Jwt
        } else {
            AuthProviderKind::Noop
        }
    } else {
        AuthProviderKind::Noop
    }
}

/// The credentials of a request from its `x-api-key` header and its
/// `Authorization` header (as text, where they are); a token counts only
/// after the `Bearer ` prefix.
pub fn auth_request_from_headers(api_key: Option<String>, authorization: Option<String>) -> (r:
    AuthRequest)
    ensures
        opt_view(r.api_key) == opt_view(api_key),
        opt_view(r.bearer_token) == match authorization {
            Some(a) => if has_prefix(a@, "Bearer "@) {
                Some(a@.skip(7))
            } else {
                None
            },
            None => None,
        },
{
    let bearer_token = match authorization {
        Some(a) => {
            proof {
                reveal_strlit("Bearer ");
            }
            if starts_with(a.as_str(), "Bearer ") {
                let s = a.as_str();
                let n = crate::strings::chars_of(s).len();
                Some(String::from_str(s.substring_char(7, n)))
            } else {
                None
            }
        },
        None => None,
    };
    AuthRequest { api_key, bearer_token }
}

/// The project a request path names: the segment after `/v1/projects/`, or
/// `default` for other paths under `/v1/`; none for paths outside `/v1/`.
pub open spec fn project_from_path_spec(path: Seq<char>) -> Option<Seq<char>> {
    if has_prefix(path, "/v1/projects/"@) {
        Some(split_spec(path.skip(13), '/')[0])
    } else if has_prefix(path, "/v1/"@) {
        Some("default"@)
    } else {
        None
    }
}

/// The project that a request path names.
pub fn extract_project_from_path(path: &str) -> (r: Option<String>)
    ensures
        opt_view(r) == project_from_path_spec(path@),
{
    proof {
        reveal_strlit("/v1/projects/");
    }
    if starts_with(path, "/v1/projects/") {
        let n = crate::strings::chars_of(path).len();
        let rest = path.substring_char(13, n);
        let parts = split_char(rest, '/');
        proof {
            crate::strings::lemma_split_nonempty(rest@, '/');
            assert(views(parts@)[0] == parts@[0]@);
        }
        Some(parts[0].clone())
    } else if starts_with(path, "/v1/") {
        Some(String::from_str("default"))
    } else {
        None
    }
}

/// The permission an HTTP method needs: reading for `GET`, `HEAD` and
/// `OPTIONS`, writing for `POST`, `PUT`, `PATCH` and `DELETE`, none for
/// others.
pub open spec fn permission_for_method(method: Seq<char>) -> Option<Permission> {
    if method == "GET"@ || method == "HEAD"@ || method == "OPTIONS"@ {
        Some(Permission::Read)
    } else if method == "POST"@ || method == "PUT"@ || method == "PATCH"@ || method == "DELETE"@ {
        Some(Permission::Write)
    } else {
        None
    }
}

/// The permission that an HTTP method (by its name) needs.
pub fn extract_permission_from_method(method: &str) -> (r: Option<Permission>)
    ensures
        r == permission_for_method(method@),
{
    if str_eq(method, "GET") || str_eq(method, "HEAD") || str_eq(method, "OPTIONS") {
        Some(Permission::Read)
    } else if str_eq(method, "POST") || str_eq(method, "PUT") || str_eq(method, "PATCH") || str_eq(
        method,
        "DELETE",
    ) {
        Some(Permission::Write)
    } else {
        None
    }
}

/// The path prefixes that skip authentication by default: health checks and
/// metrics.
pub fn default_exclude_paths() -> (r: Vec<String>)
    ensures
        views(r@) == seq!["/health"@, "/metrics"@],
{
    let mut v: Vec<String> = Vec::new();
    v.push(String::from_str("/health"));
    v.push(String::from_str("/metrics"));
    proof {
        assert(views(v@) =~= seq!["/health"@, "/metrics"@]);
    }
    v
}

/// Whether a request path starts with one of the excluded prefixes.
pub fn is_excluded_path(exclude_paths: &Vec<String>, path: &str) -> (r: bool)
    ensures
        r == exists|i: int|
            0 <= i < exclude_paths@.len() && has_prefix(path@, (#[trigger] exclude_paths@[i])@),
{
    let n = exclude_paths.len();
    let mut i: usize = 0;
    while i < n
        invariant
            n == exclude_paths@.len(),
            i <= n,
            forall|j: int| 0 <= j < i ==> !has_prefix(path@, (#[trigger] exclude_paths@[j])@),
        decreases n - i,
    {
        if starts_with(path, exclude_paths[i].as_str()) {
            return true;
        }
        i = i + 1;
    }
    false
}

/// What the request filter does with an authenticated (or refused) request.
#[derive(Debug, Clone)]
pub enum AuthDecision {
    /// Let the request through, carrying the identity.
    Proceed(AuthIdentity),
    /// Answer with the status, an error label and a message.
    Reject { status: u16, error: String, message: String },
}

/// The decision for a request whose authentication gave `auth`: a failed
/// authentication is answered 401 (`unauthorized`) for an authentication
/// error and 500 (`internal_error`) otherwise; an identity without the
/// permission the method needs on the project the path names is answered 403
/// (`forbidden`); everything else goes through.
pub open spec fn auth_decision_spec(
    rbac: RbacChecker,
    path: Seq<char>,
    method: Seq<char>,
    auth: Result<AuthIdentity, OfsError>,
    d: AuthDecision,
) -> bool {
    match auth {
        Err(e) => d matches AuthDecision::Reject { status, error, message } && status == (if e is Auth {
            401u16
        } else {
            500u16
        }) && error@ == (if e is Auth {
            "unauthorized"@
        } else {
            "internal_error"@
        }) && message@ == error_message(e),
        Ok(id) => {
            let p = project_from_path_spec(path);
            let perm = permission_for_method(method);
            if p is Some && perm is Some && !access_granted(
                rbac.roles(),
                rbac.project_roles(),
                id,
                p->0,
                perm->0,
            ) {
                d matches AuthDecision::Reject { status, error, message } && status == 403 && error@
                    == "forbidden"@ && message@ == "authorization error: "@ + forbidden_message(
                    id.subject@,
                    perm->0,
                    p->0,
                )
            } else {
                d matches AuthDecision::Proceed(id2) && id2 == id
            }
        },
    }
}

/// Decides what to do with a request whose authentication gave `auth`.
pub fn authorize_request(
    rbac: &RbacChecker,
    path: &str,
    method: &str,
    auth: Result<AuthIdentity, OfsError>,
) -> (d: AuthDecision)
    ensures
        auth_decision_spec(*rbac, path@, method@, auth, d),
{
    match auth {
        Err(e) => {
            let is_auth = matches!(e, OfsError::Auth(_));
            let message = e.to_string();
            if is_auth {
                AuthDecision::Reject {
                    status: 401,
                    error: String::from_str("unauthorized"),
                    message,
                }
            } else {
                AuthDecision::Reject {
                    status: 500,
                    error: String::from_str("internal_error"),
                    message,
                }
            }
        },
        Ok(identity) => {
            let project = extract_project_from_path(path);
            let permission = extract_permission_from_method(method);
            if let (Some(p), Some(perm)) = (&project, permission) {
                match rbac.check_access(&identity, p.as_str(), perm) {
                    Err(e) => {
                        return AuthDecision::Reject {
                            status: 403,
                            error: String::from_str("forbidden"),
                            message: e.to_string(),
                        };
                    },
                    Ok(()) => {},
                }
            }
            AuthDecision::Proceed(identity)
        },
    }
}

} // verus!

//! Where the configuration comes from: the candidate file paths, and the
//! environment variables that fill placeholders and secrets.
use vstd::prelude::*;
use vstd::string::*;

use crate::config::ConfigError;
use crate::kv::{distinct_keys, find_value, lemma_upsert_distinct, lookup, pairs_view, upsert_pair};
use crate::strings::{
    chars_of, concat_str, debug_string, ends_with, has_prefix, has_suffix, replace_char,
    join_spec, replace_char_spec, str_debug_spec, str_to_uppercase, str_to_uppercase_spec,
    string_from_chars, views,
};

verus! {

/// A snapshot of the process environment: variable names and their values,
/// each name once.
pub struct EnvVars {
    vars: Vec<(String, String)>,
}

impl EnvVars {
    /// No name occurs twice.
    #[verifier::type_invariant]
    spec fn names_distinct(&self) -> bool {
        distinct_keys(pairs_view(self.vars@))
    }

    /// An empty environment.
    pub fn new() -> (r: Self)
        ensures
            r.view_pairs().len() == 0,
    {
        EnvVars { vars: Vec::new() }
    }

    /// The environment as name and value pairs.
    pub closed spec fn view_pairs(&self) -> Seq<(Seq<char>, Seq<char>)> {
        pairs_view(self.vars@)
    }

    /// Sets a variable, replacing an earlier value of the same name.
    pub fn set(&mut self, name: &str, value: &str)
        ensures
            lookup(final(self).view_pairs(), name@) == Some(value@),
            forall|k: Seq<char>| k != name@ ==> lookup(final(self).view_pairs(), k) == lookup(
                old(self).view_pairs(),
                k,
            ),
            distinct_keys(final(self).view_pairs()),
    {
        proof {
            use_type_invariant(&*self);
        }
        let mut vars: Vec<(String, String)> = Vec::new();
        std::mem::swap(&mut vars, &mut self.vars);
        let ghost before = pairs_view(vars@);
        upsert_pair(&mut vars, &String::from_str(name), &String::from_str(value));
        proof {
            lemma_upsert_distinct(before, name@, value@);
        }
        self.vars = vars;
    }

    /// The value of a variable, if it is set.
    pub fn get(&self, name: &str) -> (r: Option<String>)
        ensures
            match (r, lookup(self.view_pairs(), name@)) {
                (Some(v), Some(w)) => v@ == w,
                (None, None) => true,
                _ => false,
            },
    {
        match find_value(&self.vars, name) {
            Some(v) => Some(v.clone()),
            None => None,
        }
    }
}

/// The candidate configuration files, the prefix of the environment
/// variables that override settings, and whether secrets are read from the
/// environment.
#[derive(Debug, Clone)]
pub struct ConfigSource {
    pub paths: Vec<String>,
    pub env_prefix: String,
    pub secrets_from_env: bool,
}

/// `name` appended to the path `base` (`Path::join`): an absolute `name`
/// replaces `base`, and a separator is put between them where `base` is not
/// empty and does not already end in one.
pub open spec fn path_join_spec(base: Seq<char>, name: Seq<char>) -> Seq<char> {
    if has_prefix(name, seq!['/']) || base.len() == 0 {
        name
    } else if has_suffix(base, seq!['/']) {
        base + name
    } else {
        base + seq!['/'] + name
    }
}

/// Appends `name` to the path `base`.
pub fn path_join(base: &str, name: &str) -> (r: String)
    ensures
        r@ == path_join_spec(base@, name@),
{
    proof {
        reveal_strlit("/");
        assert("/"@ =~= seq!['/']);
    }
    let abs = crate::strings::starts_with(name, "/");
    if abs || base.is_empty() {
        return String::from_str(name);
    }
    if ends_with(base, "/") {
        concat_str(base, name)
    } else {
        let mut r = concat_str(base, "/");
        r.append(name);
        r
    }
}

/// The candidate configuration files: `./ofs.yaml`, `./ofs.yml`, and
/// `openfeaturestore/config.yaml` under the user's configuration directory
/// where there is one.
pub open spec fn default_config_paths(config_dir: Option<Seq<char>>) -> Seq<Seq<char>> {
    match config_dir {
        Some(d) => seq![
            "./ofs.yaml"@,
            "./ofs.yml"@,
            path_join_spec(path_join_spec(d, "openfeaturestore"@), "config.yaml"@),
        ],
        None => seq!["./ofs.yaml"@, "./ofs.yml"@],
    }
}

/// The view of an optional string.
pub open spec fn opt_view(o: Option<String>) -> Option<Seq<char>> {
    match o {
        Some(s) => Some(s@),
        None => None,
    }
}

/// Calls `dirs::config_dir`, the user's configuration directory, which
/// depends on the platform and the environment; the path is read as text,
/// with any bytes that are not UTF-8 replaced.
#[verifier::external_body]
fn config_dir() -> (r: Option<String>) {
    match dirs::config_dir() {
        Some(p) => Some(p.to_string_lossy().into_owned()),
        None => None,
    }
}

/// Calls `shellexpand::tilde`. A path that starts with `~` followed by a
/// path separator (`/`, and on Windows also `\\`) or by nothing has the `~`
/// replaced by the home directory where that is known, and is otherwise
/// unchanged; either way it keeps what followed the `~`. A path that does
/// not start with `~` is unchanged.
#[verifier::external_body]
fn expand_tilde(path: &str) -> (r: String)
    ensures
        !has_prefix(path@, "~"@) ==> r@ == path@,
        has_prefix(path@, "~"@) ==> has_suffix(r@, path@.drop_first()),
{
    shellexpand::tilde(path).into_owned()
}

/// Calls `Path::exists`: whether something is at the path on disk when the
/// call is made.
#[verifier::external_body]
pub(crate) fn path_exists(path: &str) -> (r: bool) {
    std::path::Path::new(path).exists()
}

/// The `Debug` form of a list of paths: each quoted and escaped, between
/// brackets, separated by `, `.
pub open spec fn debug_list_spec(items: Seq<Seq<char>>) -> Seq<char> {
    "["@ + join_spec(items.map_values(|p: Seq<char>| str_debug_spec(p)), ", "@) + "]"@
}

/// Formats a list of paths with `{:?}`.
pub fn debug_list(items: &Vec<String>) -> (r: String)
    ensures
        r@ == debug_list_spec(views(items@)),
{
    let ghost ds = views(items@).map_values(|p: Seq<char>| str_debug_spec(p));
    let mut body = String::new();
    let n = items.len();
    let mut i: usize = 0;
    while i < n
        invariant
            n == items@.len(),
            ds == views(items@).map_values(|p: Seq<char>| str_debug_spec(p)),
            i <= n,
            body@ == join_spec(ds.take(i as int), ", "@),
        decreases n - i,
    {
        let d = debug_string(items[i].as_str());
        proof {
            assert(ds.take(i + 1).drop_last() =~= ds.take(i as int));
            assert(ds.take(i + 1).last() == d@);
        }
        if i > 0 {
            body.append(", ");
        }
        body.append(d.as_str());
        i = i + 1;
    }
    proof {
        assert(ds.take(n as int) =~= ds);
    }
    let mut r = String::from_str("[");
    r.append(body.as_str());
    r.append("]");
    r
}

/// The message of the error when no candidate file exists.
pub open spec fn no_config_message(paths: Seq<Seq<char>>) -> Seq<char> {
    "no config file found at "@ + debug_list_spec(paths)
}

/// The first candidate, in its expanded form, that exists; `expanded[i]` and
/// `exists[i]` are what expansion and the disk gave for `paths[i]`.
pub open spec fn select_config_path_spec(
    paths: Seq<Seq<char>>,
    expanded: Seq<Seq<char>>,
    exists: Seq<bool>,
) -> Result<Seq<char>, Seq<char>>
    decreases exists.len(),
{
    if exists.len() == 0 || expanded.len() == 0 {
        Err(no_config_message(paths))
    } else if exists[0] {
        Ok(expanded[0])
    } else {
        select_config_path_spec(paths, expanded.drop_first(), exists.drop_first())
    }
}

/// Picks the first candidate that exists, given the expanded candidates and
/// whether each exists; with none, the error names all candidates.
pub fn select_config_path(paths: &Vec<String>, expanded: &Vec<String>, exists: &Vec<bool>) -> (r:
    Result<String, ConfigError>)
    requires
        expanded@.len() == exists@.len(),
    ensures
        match (r, select_config_path_spec(views(paths@), views(expanded@), exists@)) {
            (Ok(p), Ok(q)) => p@ == q,
            (Err(ConfigError::FileNotFound(m)), Err(q)) => m@ == q,
            _ => false,
        },
{
    let n = exists.len();
    let mut i: usize = 0;
    assert(views(expanded@).skip(0) =~= views(expanded@));
    assert(exists@.skip(0) =~= exists@);
    while i < n
        invariant
            n == exists@.len(),
            n == expanded@.len(),
            i <= n,
            select_config_path_spec(views(paths@), views(expanded@), exists@)
                == select_config_path_spec(
                views(paths@),
                views(expanded@).skip(i as int),
                exists@.skip(i as int),
            ),
        decreases n - i,
    {
        proof {
            assert(views(expanded@).skip(i as int).drop_first() =~= views(expanded@).skip(i + 1));
            assert(exists@.skip(i as int).drop_first() =~= exists@.skip(i + 1));
        }
        if exists[i] {
            return Ok(expanded[i].clone());
        }
        i = i + 1;
    }
    let list = debug_list(paths);
    Err(ConfigError::FileNotFound(concat_str("no config file found at ", list.as_str())))
}

impl ConfigSource {
    /// The default candidates, with the user's configuration directory as
    /// given.
    pub fn with_config_dir(config_dir: Option<String>) -> (r: Self)
        ensures
            views(r.paths@) == default_config_paths(opt_view(config_dir)),
            r.env_prefix@ == "OFS_"@,
            r.secrets_from_env,
    {
        let mut paths: Vec<String> = Vec::new();
        paths.push(String::from_str("./ofs.yaml"));
        paths.push(String::from_str("./ofs.yml"));
        if let Some(d) = config_dir {
            let app_dir = path_join(d.as_str(), "openfeaturestore");
            let file = path_join(app_dir.as_str(), "config.yaml");
            paths.push(file);
        }
        proof {
            reveal_strlit("./ofs.yaml");
            reveal_strlit("./ofs.yml");
            assert(views(paths@) =~= default_config_paths(opt_view(config_dir)));
        }
        ConfigSource { paths, env_prefix: String::from_str("OFS_"), secrets_from_env: true }
    }

    /// A source with the single candidate `path`.
    pub fn from_path(path: &str) -> (r: Self)
        ensures
            views(r.paths@) == seq![path@],
            r.env_prefix@ == "OFS_"@,
            r.secrets_from_env,
    {
        let mut paths: Vec<String> = Vec::new();
        paths.push(String::from_str(path));
        proof {
            assert(views(paths@) =~= seq![path@]);
        }
        ConfigSource { paths, env_prefix: String::from_str("OFS_"), secrets_from_env: true }
    }

    /// The first candidate, with a leading `~` expanded to the home
    /// directory, that exists on disk; an error that lists the candidates
    /// when none does.
    pub fn resolve_path(&self) -> (r: Result<String, ConfigError>)
        ensures
            self.paths@.len() == 0 ==> (r matches Err(ConfigError::FileNotFound(m)) && m@
                == no_config_message(views(self.paths@))),
            r matches Err(e) ==> (e matches ConfigError::FileNotFound(m) && m@ == no_config_message(
                views(self.paths@),
            )),
            r matches Ok(p) ==> exists|i: int|
                0 <= i < self.paths@.len() && expansion_of(#[trigger] self.paths@[i]@, p@),
    {
        let mut expanded: Vec<String> = Vec::new();
        let mut exists: Vec<bool> = Vec::new();
        let n = self.paths.len();
        let mut i: usize = 0;
        while i < n
            invariant
                n == self.paths@.len(),
                i <= n,
                expanded@.len() == i,
                exists@.len() == i,
                forall|j: int| 0 <= j < i ==> expansion_of(self.paths@[j]@, #[trigger] expanded@[j]@),
            decreases n - i,
        {
            let e = expand_tilde(self.paths[i].as_str());
            let x = path_exists(e.as_str());
            expanded.push(e);
            exists.push(x);
            i = i + 1;
        }
        let r = select_config_path(&self.paths, &expanded, &exists);
        proof {
            lemma_select_config_path(views(self.paths@), views(expanded@), exists@);
            if r is Ok {
                let q = select_config_path_spec(views(self.paths@), views(expanded@), exists@)->Ok_0;
                let j = choose|j: int| 0 <= j < exists@.len() && j < expanded@.len() && views(expanded@)[j] == q;
                assert(expansion_of(self.paths@[j]@, expanded@[j]@));
            }
        }
        r
    }
}

/// The selected candidate is one of the expanded candidates; the error is
/// always the one that names the candidates.
proof fn lemma_select_config_path(paths: Seq<Seq<char>>, expanded: Seq<Seq<char>>, exists: Seq<bool>)
    ensures
        select_config_path_spec(paths, expanded, exists) matches Ok(p) ==> exists|j: int|
            0 <= j < exists.len() && j < expanded.len() && expanded[j] == p,
        select_config_path_spec(paths, expanded, exists) matches Err(m) ==> m == no_config_message(paths),
    decreases exists.len(),
{
    if exists.len() > 0 && expanded.len() > 0 && !exists[0] {
        lemma_select_config_path(paths, expanded.drop_first(), exists.drop_first());
        if select_config_path_spec(paths, expanded, exists) is Ok {
            let p = select_config_path_spec(paths, expanded, exists)->Ok_0;
            let j = choose|j: int| 0 <= j < exists.len() - 1 && j < expanded.len() - 1 && expanded.drop_first()[j] == p;
            assert(expanded[j + 1] == p);
        }
    }
}

/// What a tilde expansion of `path` may give: the path itself, or, for a
/// path that starts with `~`, something that ends with what followed it.
pub open spec fn expansion_of(path: Seq<char>, expanded: Seq<char>) -> bool {
    &&& !has_prefix(path, "~"@) ==> expanded == path
    &&& has_prefix(path, "~"@) ==> has_suffix(expanded, path.drop_first())
}

impl Default for ConfigSource {
    /// The default candidates, with the user's configuration directory as the
    /// platform reports it.
    fn default() -> (r: Self)
        ensures
            views(r.paths@).take(2) == seq!["./ofs.yaml"@, "./ofs.yml"@],
            r.paths@.len() == 2 || r.paths@.len() == 3,
            r.env_prefix@ == "OFS_"@,
            r.secrets_from_env,
    {
        let r = Self::with_config_dir(config_dir());
        proof {
            assert(views(r.paths@).take(2) =~= seq!["./ofs.yaml"@, "./ofs.yml"@]);
        }
        r
    }
}

/// `s` with every leading occurrence of the non-empty `pat` removed
/// (`str::trim_start_matches`).
pub open spec fn trim_start_matches_spec(s: Seq<char>, pat: Seq<char>) -> Seq<char>
    decreases s.len(),
{
    if pat.len() > 0 && has_prefix(s, pat) {
        trim_start_matches_spec(s.skip(pat.len() as int), pat)
    } else {
        s
    }
}

/// `s` with every trailing `c` removed (`str::trim_end_matches` on a
/// character).
pub open spec fn trim_end_char_spec(s: Seq<char>, c: char) -> Seq<char>
    decreases s.len(),
{
    if s.len() > 0 && s.last() == c {
        trim_end_char_spec(s.drop_last(), c)
    } else {
        s
    }
}

/// The name of the variable that a `${NAME}` reference names: `key` without
/// its leading `${` and trailing `}`.
pub open spec fn env_reference_name(key: Seq<char>) -> Seq<char> {
    trim_end_char_spec(trim_start_matches_spec(key, "${"@), '}')
}

/// Resolves a `${NAME}` reference (or a bare name) against the environment.
pub fn resolve_env_var(key: &str, env: &EnvVars) -> (r: Option<String>)
    ensures
        opt_view(r) == lookup(env.view_pairs(), env_reference_name(key@)),
{
    let cs = chars_of(key);
    let n = cs.len();
    let mut i: usize = 0;
    proof {
        reveal_strlit("${");
        assert("${"@ =~= seq!['$', '{']);
        assert(key@.skip(0) =~= key@);
    }
    while n >= 2 && i <= n - 2 && cs[i] == '$' && cs[i + 1] == '{'
        invariant
            n == cs@.len(),
            "${"@ == seq!['$', '{'],
            cs@ == key@,
            i <= n,
            trim_start_matches_spec(key@, "${"@) == trim_start_matches_spec(key@.skip(i as int), "${"@),
        decreases n - i,
    {
        proof {
            assert(key@.skip(i as int).take(2) =~= seq!['$', '{']);
            assert(key@.skip(i as int).skip(2) =~= key@.skip(i + 2));
        }
        i = i + 2;
    }
    proof {
        if n >= 2 && i <= n - 2 {
            assert(key@.skip(i as int).take(2) != seq!['$', '{']) by {
                if key@.skip(i as int).take(2) == seq!['$', '{'] {
                    assert(key@.skip(i as int).take(2)[0] == cs@[i as int]);
                    assert(key@.skip(i as int).take(2)[1] == cs@[i + 1]);
                }
            }
        }
    }
    let mut j: usize = n;
    let ghost start = key@.skip(i as int);
    assert(start =~= key@.subrange(i as int, n as int));
    while j > i && cs[j - 1] == '}'
        invariant
            n == cs@.len(),
            cs@ == key@,
            i <= j <= n,
            start == key@.subrange(i as int, n as int),
            trim_end_char_spec(start, '}') == trim_end_char_spec(key@.subrange(i as int, j as int), '}'),
        decreases j,
    {
        proof {
            assert(key@.subrange(i as int, j as int).drop_last() =~= key@.subrange(i as int, j - 1));
        }
        j = j - 1;
    }
    proof {
        if j > i {
            assert(key@.subrange(i as int, j as int).last() == cs@[j - 1]);
        }
        assert(trim_start_matches_spec(key@.skip(i as int), "${"@) == key@.skip(i as int));
    }
    let name = key.substring_char(i, j);
    env.get(name)
}

/// The index of the first `c` in `s`, or the length of `s` where there is
/// none.
pub open spec fn index_of_char(s: Seq<char>, c: char) -> nat
    decreases s.len(),
{
    if s.len() == 0 {
        0
    } else if s[0] == c {
        0
    } else {
        1 + index_of_char(s.drop_first(), c)
    }
}

/// The index found is the first position of `c`, or the end.
pub proof fn lemma_index_of_char(s: Seq<char>, c: char, m: int)
    requires
        0 <= m <= s.len(),
        forall|t: int| 0 <= t < m ==> s[t] != c,
        m == s.len() || s[m] == c,
    ensures
        index_of_char(s, c) == m,
    decreases s.len(),
{
    if s.len() > 0 && s[0] != c {
        lemma_index_of_char(s.drop_first(), c, m - 1);
    }
}

/// What a `${NAME}` placeholder is replaced by: the variable's value, or
/// the placeholder itself when the variable is not set.
pub open spec fn placeholder_value(env: Seq<(Seq<char>, Seq<char>)>, name: Seq<char>) -> Seq<char> {
    match lookup(env, name) {
        Some(v) => v,
        None => "${"@ + name + "}"@,
    }
}

/// `s` with each `${NAME}` placeholder replaced. A placeholder runs from
/// `${` to the next `}`, or to the end of the text where there is none.
pub open spec fn interpolate_spec(s: Seq<char>, env: Seq<(Seq<char>, Seq<char>)>) -> Seq<char>
    decreases s.len(),
{
    if s.len() == 0 {
        Seq::empty()
    } else if s.len() >= 2 && s[0] == '$' && s[1] == '{' {
        let rest = s.skip(2);
        let k = index_of_char(rest, '}');
        let after = if k < rest.len() {
            rest.skip(k + 1 as int)
        } else {
            Seq::empty()
        };
        placeholder_value(env, rest.take(k as int)) + interpolate_spec(after, env)
    } else {
        seq![s[0]] + interpolate_spec(s.drop_first(), env)
    }
}

/// Appends the characters of `src` to `out`.
fn push_chars(out: &mut Vec<char>, src: &str)
    ensures
        final(out)@ == old(out)@ + src@,
{
    let cs = chars_of(src);
    let n = cs.len();
    let mut i: usize = 0;
    while i < n
        invariant
            n == cs@.len(),
            cs@ == src@,
            i <= n,
            out@ == old(out)@ + src@.take(i as int),
        decreases n - i,
    {
        out.push(cs[i]);
        i = i + 1;
        proof {
            assert(src@.take(i as int) =~= src@.take(i - 1).push(src@[i - 1]));
        }
    }
    proof {
        assert(src@.take(n as int) =~= src@);
    }
}

/// Replaces each `${NAME}` placeholder in `value` by the value of the
/// environment variable `NAME`, leaving the placeholder where it is not set.
#[verifier::rlimit(40)]
pub fn interpolate_env_vars(value: &str, env: &EnvVars) -> (r: String)
    ensures
        r@ == interpolate_spec(value@, env.view_pairs()),
{
    let cs = chars_of(value);
    let n = cs.len();
    let mut out: Vec<char> = Vec::new();
    let mut i: usize = 0;
    assert(value@.skip(0) =~= value@);
    while i < n
        invariant
            n == cs@.len(),
            cs@ == value@,
            i <= n,
            out@ + interpolate_spec(value@.skip(i as int), env.view_pairs()) == interpolate_spec(
                value@,
                env.view_pairs(),
            ),
        decreases n - i,
    {
        let ghost s = value@.skip(i as int);
        if i + 1 < n && cs[i] == '$' && cs[i + 1] == '{' {
            let mut j: usize = i + 2;
            let mut name: Vec<char> = Vec::new();
            while j < n && cs[j] != '}'
                invariant
                    n == cs@.len(),
                    cs@ == value@,
                    i + 2 <= j <= n,
                    name@ == value@.subrange(i + 2, j as int),
                    forall|t: int| i + 2 <= t < j ==> value@[t] != '}',
                decreases n - j,
            {
                name.push(cs[j]);
                j = j + 1;
                proof {
                    assert(name@ =~= value@.subrange(i + 2, j as int));
                }
            }
            let ghost rest = s.skip(2);
            let ghost before = out@;
            proof {
                assert(s[0] == cs@[i as int] && s[1] == cs@[i + 1]);
                assert(rest =~= value@.skip(i + 2));
                lemma_index_of_char(rest, '}', j - (i + 2));
                assert(rest.take(j - (i + 2)) =~= name@);
            }
            let name_str = string_from_chars(name.as_slice());
            match env.get(name_str.as_str()) {
                Some(v) => push_chars(&mut out, v.as_str()),
                None => {
                    proof {
                        reveal_strlit("${");
                        reveal_strlit("}");
                    }
                    out.push('$');
                    out.push('{');
                    push_chars(&mut out, name_str.as_str());
                    out.push('}');
                    proof {
                        assert("${"@ =~= seq!['$', '{']);
                        assert("}"@ =~= seq!['}']);
                    }
                },
            }
            let ghost k = j - (i + 2);
            proof {
                assert(out@ == before + placeholder_value(env.view_pairs(), rest.take(k)));
                assert(interpolate_spec(s, env.view_pairs()) == placeholder_value(
                    env.view_pairs(),
                    rest.take(k),
                ) + interpolate_spec(
                    if k < rest.len() {
                        rest.skip(k + 1)
                    } else {
                        Seq::empty()
                    },
                    env.view_pairs(),
                ));
            }
            if j < n {
                proof {
                    assert(rest.skip(k + 1) =~= value@.skip(j + 1));
                }
                i = j + 1;
            } else {
                proof {
                    assert(value@.skip(n as int) =~= Seq::<char>::empty());
                }
                i = n;
            }
            proof {
                assert(out@ + interpolate_spec(value@.skip(i as int), env.view_pairs()) =~= before + (
                interpolate_spec(s, env.view_pairs())));
            }
        } else {
            let ghost before = out@;
            out.push(cs[i]);
            proof {
                assert(s.drop_first() =~= value@.skip(i + 1));
                assert(s[0] == cs@[i as int]);
                if s.len() >= 2 {
                    assert(s[1] == cs@[i + 1]);
                }
                assert(out@ + interpolate_spec(value@.skip(i + 1), env.view_pairs()) =~= before + (
                seq![cs@[i as int]] + interpolate_spec(value@.skip(i + 1), env.view_pairs())));
            }
            i = i + 1;
        }
    }
    proof {
        assert(value@.skip(n as int) =~= Seq::<char>::empty());
        assert(out@ + Seq::<char>::empty() =~= out@);
    }
    string_from_chars(out.as_slice())
}

/// The environment variable that holds the secret `key`: `OFS_SECRET_`
/// followed by the key in upper case with `-` turned into `_`.
pub open spec fn secret_env_name(key: Seq<char>) -> Seq<char> {
    "OFS_SECRET_"@ + replace_char_spec(str_to_uppercase_spec(key), '-', "_"@)
}

/// Reads the secret `key` from the environment.
pub fn resolve_secret(key: &str, env: &EnvVars) -> (r: Option<String>)
    ensures
        opt_view(r) == lookup(env.view_pairs(), secret_env_name(key@)),
{
    let upper = str_to_uppercase(key);
    let underscored = replace_char(upper.as_str(), '-', "_");
    let name = concat_str("OFS_SECRET_", underscored.as_str());
    env.get(name.as_str())
}

} // verus!

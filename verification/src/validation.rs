//! Validation of request fields: entity keys, feature names, project names.
use vstd::prelude::*;
use vstd::utf8::encode_utf8;

use crate::strings::{char_is_alphanumeric, char_is_alphanumeric_spec, chars_of};

verus! {

/// A field of a request and why it is invalid.
#[derive(Debug, Clone)]
pub struct ValidationError {
    pub field: String,
    pub reason: String,
}

impl ValidationError {
    /// A validation error for `field` with the given reason.
    pub fn new(field: &str, reason: &str) -> (r: Self)
        ensures
            r.field@ == field@,
            r.reason@ == reason@,
    {
        ValidationError { field: String::from_str(field), reason: String::from_str(reason) }
    }
}

/// Something a request carries that can check itself.
pub trait Validate {
    fn validate(&self) -> Result<(), Vec<ValidationError>>;
}

/// The length of a string in UTF-8 bytes (what `str::len` counts).
pub open spec fn byte_len(s: Seq<char>) -> nat {
    encode_utf8(s).len()
}

/// The error of an entity key, if it has one: it must be non-empty and at
/// most 1024 bytes long.
pub open spec fn entity_key_error(key: Seq<char>) -> Option<(Seq<char>, Seq<char>)> {
    if key.len() == 0 {
        Some(("entity_key"@, "must not be empty"@))
    } else if byte_len(key) > 1024 {
        Some(("entity_key"@, "must not exceed 1024 characters"@))
    } else {
        None
    }
}

/// The characters allowed in a feature name.
pub open spec fn feature_name_char(c: char) -> bool {
    char_is_alphanumeric_spec(c) || c == '_' || c == '-' || c == '.'
}

/// The characters allowed in a project name.
pub open spec fn project_name_char(c: char) -> bool {
    char_is_alphanumeric_spec(c) || c == '_' || c == '-'
}

/// The error of a feature name, if it has one: non-empty, at most 256 bytes,
/// and only alphanumeric, underscore, hyphen and dot characters.
pub open spec fn feature_name_error(name: Seq<char>) -> Option<(Seq<char>, Seq<char>)> {
    if name.len() == 0 {
        Some(("feature_name"@, "must not be empty"@))
    } else if byte_len(name) > 256 {
        Some(("feature_name"@, "must not exceed 256 characters"@))
    } else if !(forall|i: int| 0 <= i < name.len() ==> feature_name_char(#[trigger] name[i])) {
        Some(
            (
                "feature_name"@,
                "must contain only alphanumeric, underscore, hyphen, or dot characters"@,
            ),
        )
    } else {
        None
    }
}

/// The error of a project name, if it has one: non-empty, at most 128 bytes,
/// and only alphanumeric, underscore and hyphen characters.
pub open spec fn project_name_error(name: Seq<char>) -> Option<(Seq<char>, Seq<char>)> {
    if name.len() == 0 {
        Some(("project"@, "must not be empty"@))
    } else if byte_len(name) > 128 {
        Some(("project"@, "must not exceed 128 characters"@))
    } else if !(forall|i: int| 0 <= i < name.len() ==> project_name_char(#[trigger] name[i])) {
        Some(("project"@, "must contain only alphanumeric, underscore, or hyphen characters"@))
    } else {
        None
    }
}

/// The field and reason of a validation error.
pub open spec fn error_view(e: ValidationError) -> (Seq<char>, Seq<char>) {
    (e.field@, e.reason@)
}

/// A result that holds an error exactly when the spec gives one, and then the
/// same field and reason.
pub open spec fn result_matches(r: Result<(), ValidationError>, e: Option<(Seq<char>, Seq<char>)>) -> bool {
    match (r, e) {
        (Ok(()), None) => true,
        (Err(v), Some(x)) => error_view(v) == x,
        _ => false,
    }
}

/// The errors of a list, in order: each element that has one contributes it.
pub open spec fn collect_errors(
    items: Seq<Seq<char>>,
    err: spec_fn(Seq<char>) -> Option<(Seq<char>, Seq<char>)>,
) -> Seq<(Seq<char>, Seq<char>)>
    decreases items.len(),
{
    if items.len() == 0 {
        Seq::empty()
    } else {
        let rest = collect_errors(items.drop_last(), err);
        match err(items.last()) {
            Some(e) => rest.push(e),
            None => rest,
        }
    }
}

/// Checks an entity key: it must be non-empty and at most 1024 bytes long.
pub fn validate_entity_key(key: &str) -> (r: Result<(), ValidationError>)
    ensures
        result_matches(r, entity_key_error(key@)),
{
    if key.is_empty() {
        return Err(ValidationError::new("entity_key", "must not be empty"));
    }
    if key.as_bytes().len() > 1024 {
        return Err(ValidationError::new("entity_key", "must not exceed 1024 characters"));
    }
    Ok(())
}

/// Whether every character is allowed, by the given character class.
fn all_chars(s: &str, allow_dot: bool) -> (r: bool)
    ensures
        allow_dot ==> (r <==> forall|i: int| 0 <= i < s@.len() ==> feature_name_char(#[trigger] s@[i])),
        !allow_dot ==> (r <==> forall|i: int| 0 <= i < s@.len() ==> project_name_char(#[trigger] s@[i])),
{
    let cs = chars_of(s);
    let n = cs.len();
    let mut i: usize = 0;
    while i < n
        invariant
            n == cs@.len(),
            cs@ == s@,
            i <= n,
            allow_dot ==> forall|j: int| 0 <= j < i ==> feature_name_char(#[trigger] s@[j]),
            !allow_dot ==> forall|j: int| 0 <= j < i ==> project_name_char(#[trigger] s@[j]),
        decreases n - i,
    {
        let c = cs[i];
        let ok = char_is_alphanumeric(c) || c == '_' || c == '-' || (allow_dot && c == '.');
        if !ok {
            assert(s@[i as int] == c);
            return false;
        }
        i = i + 1;
    }
    true
}

/// Checks a feature name: non-empty, at most 256 bytes, and only alphanumeric,
/// underscore, hyphen and dot characters.
pub fn validate_feature_name(name: &str) -> (r: Result<(), ValidationError>)
    ensures
        result_matches(r, feature_name_error(name@)),
{
    if name.is_empty() {
        return Err(ValidationError::new("feature_name", "must not be empty"));
    }
    if name.as_bytes().len() > 256 {
        return Err(ValidationError::new("feature_name", "must not exceed 256 characters"));
    }
    if !all_chars(name, true) {
        return Err(
            ValidationError::new(
                "feature_name",
                "must contain only alphanumeric, underscore, hyphen, or dot characters",
            ),
        );
    }
    Ok(())
}

/// Checks a project name: non-empty, at most 128 bytes, and only alphanumeric,
/// underscore and hyphen characters.
pub fn validate_project_name(name: &str) -> (r: Result<(), ValidationError>)
    ensures
        result_matches(r, project_name_error(name@)),
{
    if name.is_empty() {
        return Err(ValidationError::new("project", "must not be empty"));
    }
    if name.as_bytes().len() > 128 {
        return Err(ValidationError::new("project", "must not exceed 128 characters"));
    }
    if !all_chars(name, false) {
        return Err(
            ValidationError::new(
                "project",
                "must contain only alphanumeric, underscore, or hyphen characters",
            ),
        );
    }
    Ok(())
}

/// The views of a list of strings.
pub open spec fn strings_view(v: Seq<String>) -> Seq<Seq<char>> {
    v.map_values(|s: String| s@)
}

/// The views of a list of validation errors.
pub open spec fn errors_view(v: Seq<ValidationError>) -> Seq<(Seq<char>, Seq<char>)> {
    v.map_values(|e: ValidationError| error_view(e))
}

/// Checks a list of entity keys: there must be between 1 and 1000 of them;
/// otherwise the errors of the keys that have one, in order.
pub fn validate_entity_keys(keys: &[String]) -> (r: Result<(), Vec<ValidationError>>)
    ensures
        keys@.len() == 0 ==> (r matches Err(es) && errors_view(es@) == seq![
            ("entity_keys"@, "must contain at least one key"@),
        ]),
        keys@.len() > 1000 ==> (r matches Err(es) && errors_view(es@) == seq![
            ("entity_keys"@, "must not exceed 1000 keys per request"@),
        ]),
        1 <= keys@.len() <= 1000 ==> {
            let es = collect_errors(strings_view(keys@), |k: Seq<char>| entity_key_error(k));
            &&& (r is Ok <==> es.len() == 0)
            &&& r matches Err(v) ==> errors_view(v@) == es
        },
{
    if keys.len() == 0 {
        let r = vec![ValidationError::new("entity_keys", "must contain at least one key")];
        assert(errors_view(r@) =~= seq![("entity_keys"@, "must contain at least one key"@)]);
        return Err(r);
    }
    if keys.len() > 1000 {
        let r = vec![ValidationError::new("entity_keys", "must not exceed 1000 keys per request")];
        assert(errors_view(r@) =~= seq![("entity_keys"@, "must not exceed 1000 keys per request"@)]);
        return Err(r);
    }
    let ghost f = |k: Seq<char>| entity_key_error(k);
    let ghost ks = strings_view(keys@);
    let mut errors: Vec<ValidationError> = Vec::new();
    let n = keys.len();
    let mut i: usize = 0;
    while i < n
        invariant
            n == keys@.len(),
            ks == strings_view(keys@),
            f == (|k: Seq<char>| entity_key_error(k)),
            i <= n,
            errors_view(errors@) == collect_errors(ks.take(i as int), f),
        decreases n - i,
    {
        let ghost before = errors@;
        let res = validate_entity_key(keys[i].as_str());
        proof {
            assert(ks.take(i + 1).drop_last() =~= ks.take(i as int));
            assert(ks.take(i + 1).last() == keys@[i as int]@);
        }
        match res {
            Err(e) => {
                errors.push(e);
                assert(errors_view(errors@) =~= errors_view(before).push(error_view(e)));
            },
            Ok(()) => {},
        }
        i = i + 1;
    }
    proof {
        assert(ks.take(n as int) =~= ks);
    }
    if errors.len() == 0 {
        Ok(())
    } else {
        Err(errors)
    }
}

/// Checks a list of feature names: there must be at least one; otherwise the
/// errors of the names that have one, in order.
pub fn validate_feature_names(names: &[String]) -> (r: Result<(), Vec<ValidationError>>)
    ensures
        names@.len() == 0 ==> (r matches Err(es) && errors_view(es@) == seq![
            ("feature_names"@, "must contain at least one feature"@),
        ]),
        names@.len() > 0 ==> {
            let es = collect_errors(strings_view(names@), |k: Seq<char>| feature_name_error(k));
            &&& (r is Ok <==> es.len() == 0)
            &&& r matches Err(v) ==> errors_view(v@) == es
        },
{
    if names.len() == 0 {
        let r = vec![ValidationError::new("feature_names", "must contain at least one feature")];
        assert(errors_view(r@) =~= seq![("feature_names"@, "must contain at least one feature"@)]);
        return Err(r);
    }
    let ghost f = |k: Seq<char>| feature_name_error(k);
    let ghost ks = strings_view(names@);
    let mut errors: Vec<ValidationError> = Vec::new();
    let n = names.len();
    let mut i: usize = 0;
    while i < n
        invariant
            n == names@.len(),
            ks == strings_view(names@),
            f == (|k: Seq<char>| feature_name_error(k)),
            i <= n,
            errors_view(errors@) == collect_errors(ks.take(i as int), f),
        decreases n - i,
    {
        let ghost before = errors@;
        let res = validate_feature_name(names[i].as_str());
        proof {
            assert(ks.take(i + 1).drop_last() =~= ks.take(i as int));
            assert(ks.take(i + 1).last() == names@[i as int]@);
        }
        match res {
            Err(e) => {
                errors.push(e);
                assert(errors_view(errors@) =~= errors_view(before).push(error_view(e)));
            },
            Ok(()) => {},
        }
        i = i + 1;
    }
    proof {
        assert(ks.take(n as int) =~= ks);
    }
    if errors.len() == 0 {
        Ok(())
    } else {
        Err(errors)
    }
}

} // verus!

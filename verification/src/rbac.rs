//! Role-based access control: which roles grant which permissions, globally
//! and per project.
use vstd::prelude::*;

use crate::auth::AuthIdentity;
use crate::errors::OfsError;
use crate::kv::{distinct_keys, find_value, lemma_lookup3, lookup, pairs_view};
use crate::strings::{concat_str, str_eq};

verus! {

/// A permission that a request needs.
#[derive(Debug, Clone, Copy, PartialEq, Eq, Structural)]
pub enum Permission {
    Read,
    Write,
    Admin,
}

/// The name of a permission (its `Debug` form).
pub open spec fn permission_name(p: Permission) -> Seq<char> {
    match p {
        Permission::Read => "Read"@,
        Permission::Write => "Write"@,
        Permission::Admin => "Admin"@,
    }
}

impl Permission {
    /// The name of this permission.
    pub fn name(&self) -> (r: &'static str)
        ensures
            r@ == permission_name(*self),
    {
        match self {
            Permission::Read => "Read",
            Permission::Write => "Write",
            Permission::Admin => "Admin",
        }
    }
}

/// A set of permissions grants `required` when it holds it or holds `Admin`.
pub open spec fn grants(perms: Seq<Permission>, required: Permission) -> bool {
    perms.contains(required) || perms.contains(Permission::Admin)
}

/// The permissions of the global roles by default.
pub open spec fn default_role_permissions(role: Seq<char>) -> Option<Seq<Permission>> {
    if role == "admin"@ {
        Some(seq![Permission::Read, Permission::Write, Permission::Admin])
    } else if role == "write"@ {
        Some(seq![Permission::Read, Permission::Write])
    } else if role == "read"@ {
        Some(seq![Permission::Read])
    } else {
        None
    }
}

/// The permissions of the project roles by default.
pub open spec fn default_project_role_permissions(role: Seq<char>) -> Option<Seq<Permission>> {
    if role == "admin"@ {
        Some(seq![Permission::Read, Permission::Write, Permission::Admin])
    } else if role == "writer"@ {
        Some(seq![Permission::Read, Permission::Write])
    } else if role == "reader"@ {
        Some(seq![Permission::Read])
    } else {
        None
    }
}

/// The view of a table of roles and their permissions.
pub open spec fn table_view(t: Seq<(String, Vec<Permission>)>) -> Seq<(Seq<char>, Seq<Permission>)> {
    t.map_values(|e: (String, Vec<Permission>)| (e.0@, e.1@))
}

/// Checks identities against role permissions.
pub struct RbacChecker {
    role_permissions: Vec<(String, Vec<Permission>)>,
    project_role_permissions: Vec<(String, Vec<Permission>)>,
}

/// Whether one of the identity's global roles grants `required` under the
/// role table `table`.
pub open spec fn global_roles_grant(
    table: Seq<(Seq<char>, Seq<Permission>)>,
    roles: Seq<Seq<char>>,
    required: Permission,
) -> bool {
    exists|i: int|
        0 <= i < roles.len() && (lookup(table, #[trigger] roles[i]) matches Some(perms) && grants(
            perms,
            required,
        ))
}

/// Whether the identity's role on `project` grants `required` under the
/// project role table `table`.
pub open spec fn project_role_grants(
    table: Seq<(Seq<char>, Seq<Permission>)>,
    project_roles: Seq<(Seq<char>, Seq<char>)>,
    project: Seq<char>,
    required: Permission,
) -> bool {
    lookup(project_roles, project) matches Some(role) && lookup(table, role) matches Some(perms)
        && grants(perms, required)
}

/// Whether the identity has `required` on `project` under the role tables:
/// through one of its global roles, or else through its role on the project.
pub open spec fn access_granted(
    roles_table: Seq<(Seq<char>, Seq<Permission>)>,
    project_roles_table: Seq<(Seq<char>, Seq<Permission>)>,
    identity: AuthIdentity,
    project: Seq<char>,
    required: Permission,
) -> bool {
    global_roles_grant(roles_table, identity.roles@.map_values(|s: String| s@), required)
        || project_role_grants(
        project_roles_table,
        pairs_view(identity.project_roles@),
        project,
        required,
    )
}

/// The message of a refused access.
pub open spec fn forbidden_message(subject: Seq<char>, required: Permission, project: Seq<char>) -> Seq<char> {
    "Identity '"@ + subject + "' lacks "@ + permission_name(required) + " permission on project '"@
        + project + "'"@
}

impl RbacChecker {
    /// No role occurs twice in either table.
    #[verifier::type_invariant]
    spec fn roles_distinct(&self) -> bool {
        distinct_keys(self.roles()) && distinct_keys(self.project_roles())
    }

    /// The global role table.
    pub closed spec fn roles(&self) -> Seq<(Seq<char>, Seq<Permission>)> {
        table_view(self.role_permissions@)
    }

    /// The project role table.
    pub closed spec fn project_roles(&self) -> Seq<(Seq<char>, Seq<Permission>)> {
        table_view(self.project_role_permissions@)
    }

    /// The checker with the default tables: globally `admin` grants read,
    /// write and admin, `write` grants read and write, `read` grants read; on
    /// a project `admin`, `writer` and `reader` grant the same.
    pub fn new() -> (r: Self)
        ensures
            forall|role: Seq<char>| lookup(r.roles(), role) == default_role_permissions(role),
            forall|role: Seq<char>|
                lookup(r.project_roles(), role) == default_project_role_permissions(role),
    {
        let mut role_permissions: Vec<(String, Vec<Permission>)> = Vec::new();
        role_permissions.push(
            (String::from_str("admin"), vec![Permission::Read, Permission::Write, Permission::Admin]),
        );
        role_permissions.push((String::from_str("write"), vec![Permission::Read, Permission::Write]));
        role_permissions.push((String::from_str("read"), vec![Permission::Read]));
        let mut project_role_permissions: Vec<(String, Vec<Permission>)> = Vec::new();
        project_role_permissions.push(
            (String::from_str("admin"), vec![Permission::Read, Permission::Write, Permission::Admin]),
        );
        project_role_permissions.push(
            (String::from_str("writer"), vec![Permission::Read, Permission::Write]),
        );
        project_role_permissions.push((String::from_str("reader"), vec![Permission::Read]));
        proof {
            reveal_strlit("admin");
            reveal_strlit("write");
            reveal_strlit("read");
            reveal_strlit("writer");
            reveal_strlit("reader");
            let t = table_view(role_permissions@);
            let pt = table_view(project_role_permissions@);
            assert(t[0].0 == "admin"@ && t[1].0 == "write"@ && t[2].0 == "read"@);
            assert(pt[0].0 == "admin"@ && pt[1].0 == "writer"@ && pt[2].0 == "reader"@);
            assert("admin"@[0] != "write"@[0]);
            assert("writer"@[0] != "reader"@[0]);
            assert(distinct_keys(t));
            assert(distinct_keys(pt));
        }
        let r = RbacChecker { role_permissions, project_role_permissions };
        proof {
            let t = r.roles();
            let pt = r.project_roles();
            assert(t[0] == ("admin"@, seq![Permission::Read, Permission::Write, Permission::Admin]));
            assert(t[1] == ("write"@, seq![Permission::Read, Permission::Write]));
            assert(t[2] == ("read"@, seq![Permission::Read]));
            assert(t.drop_first().drop_first().drop_first().len() == 0);
            assert(pt[0] == ("admin"@, seq![Permission::Read, Permission::Write, Permission::Admin]));
            assert(pt[1] == ("writer"@, seq![Permission::Read, Permission::Write]));
            assert(pt[2] == ("reader"@, seq![Permission::Read]));
            assert(pt.drop_first().drop_first().drop_first().len() == 0);
            reveal_strlit("admin");
            reveal_strlit("write");
            reveal_strlit("read");
            reveal_strlit("writer");
            reveal_strlit("reader");
            assert forall|role: Seq<char>| lookup(t, role) == default_role_permissions(role) by {
                lemma_lookup3(t, role);
            }
            assert(distinct_keys(t));
            assert(distinct_keys(pt));
            assert forall|role: Seq<char>| lookup(pt, role) == default_project_role_permissions(
                role,
            ) by {
                lemma_lookup3(pt, role);
            }
        }
        r
    }

    /// The permissions of a role in a table, by its first entry.
    fn find_role<'a>(table: &'a Vec<(String, Vec<Permission>)>, role: &String) -> (r: Option<&'a Vec<Permission>>)
        ensures
            match (r, lookup(table_view(table@), role@)) {
                (Some(p), Some(q)) => p@ == q,
                (None, None) => true,
                _ => false,
            },
    {
        let n = table.len();
        let mut i: usize = 0;
        assert(table_view(table@).skip(0) =~= table_view(table@));
        while i < n
            invariant
                n == table@.len(),
                i <= n,
                lookup(table_view(table@), role@) == lookup(table_view(table@).skip(i as int), role@),
            decreases n - i,
        {
            proof {
                let sk = table_view(table@).skip(i as int);
                assert(sk.drop_first() =~= table_view(table@).skip(i + 1));
                assert(sk[0] == (table@[i as int].0@, table@[i as int].1@));
            }
            if str_eq(table[i].0.as_str(), role.as_str()) {
                return Some(&table[i].1);
            }
            i = i + 1;
        }
        proof {
            assert(table_view(table@).skip(n as int).len() == 0);
        }
        None
    }

    /// Whether a permission list grants `required`.
    fn perms_grant(perms: &Vec<Permission>, required: Permission) -> (r: bool)
        ensures
            r == grants(perms@, required),
    {
        let n = perms.len();
        let mut i: usize = 0;
        while i < n
            invariant
                n == perms@.len(),
                i <= n,
                forall|j: int| 0 <= j < i ==> perms@[j] != required && perms@[j] != Permission::Admin,
            decreases n - i,
        {
            if perms[i] == required || perms[i] == Permission::Admin {
                assert(perms@.contains(perms@[i as int]));
                return true;
            }
            i = i + 1;
        }
        false
    }

    /// Checks that the identity has `required` on `project`: through one of
    /// its global roles, or else through its role on the project. A role
    /// grants a permission when it holds it or holds `Admin`. Otherwise the
    /// access is forbidden.
    pub fn check_access(&self, identity: &AuthIdentity, project: &str, required: Permission) -> (r:
        Result<(), OfsError>)
        ensures
            r is Ok <==> access_granted(self.roles(), self.project_roles(), *identity, project@, required),
            r matches Err(e) ==> e matches OfsError::Forbidden(m) && m@ == forbidden_message(
                identity.subject@,
                required,
                project@,
            ),
    {
        let ghost roles = identity.roles@.map_values(|s: String| s@);
        let n = identity.roles.len();
        let mut i: usize = 0;
        while i < n
            invariant
                n == identity.roles@.len(),
                roles == identity.roles@.map_values(|s: String| s@),
                i <= n,
                forall|j: int|
                    0 <= j < i ==> !(lookup(self.roles(), #[trigger] roles[j]) matches Some(perms)
                        && grants(perms, required)),
            decreases n - i,
        {
            match Self::find_role(&self.role_permissions, &identity.roles[i]) {
                Some(perms) => {
                    if Self::perms_grant(perms, required) {
                        assert(lookup(self.roles(), roles[i as int]) matches Some(p) && grants(
                            p,
                            required,
                        ));
                        return Ok(());
                    }
                },
                None => {},
            }
            i = i + 1;
        }
        let ghost pr = pairs_view(identity.project_roles@);
        let found = find_value(&identity.project_roles, project);
        if let Some(project_role) = found {
            assert(lookup(pr, project@) == Some(project_role@));
            match Self::find_role(&self.project_role_permissions, project_role) {
                Some(perms) => {
                    if Self::perms_grant(perms, required) {
                        return Ok(());
                    }
                },
                None => {},
            }
        } else {
            assert(lookup(pr, project@) is None);
        }
        let mut msg = concat_str("Identity '", identity.subject.as_str());
        msg.append("' lacks ");
        msg.append(required.name());
        msg.append(" permission on project '");
        msg.append(project);
        msg.append("'");
        Err(OfsError::Forbidden(msg))
    }

    /// Whether the identity is an administrator: it has the global role
    /// `admin` or the role `admin` on some project.
    pub fn is_admin(&self, identity: &AuthIdentity) -> (r: bool)
        ensures
            r == (identity.roles@.map_values(|s: String| s@).contains("admin"@) || exists|i: int|
                0 <= i < identity.project_roles@.len() && (#[trigger] identity.project_roles@[i]).1@
                    == "admin"@),
    {
        let ghost roles = identity.roles@.map_values(|s: String| s@);
        let n = identity.roles.len();
        let mut i: usize = 0;
        while i < n
            invariant
                n == identity.roles@.len(),
                roles == identity.roles@.map_values(|s: String| s@),
                i <= n,
                forall|j: int| 0 <= j < i ==> roles[j] != "admin"@,
            decreases n - i,
        {
            if str_eq(identity.roles[i].as_str(), "admin") {
                assert(roles.contains(roles[i as int]));
                return true;
            }
            i = i + 1;
        }
        let m = identity.project_roles.len();
        let mut k: usize = 0;
        while k < m
            invariant
                m == identity.project_roles@.len(),
                k <= m,
                forall|j: int| 0 <= j < k ==> (#[trigger] identity.project_roles@[j]).1@ != "admin"@,
            decreases m - k,
        {
            if str_eq(identity.project_roles[k].1.as_str(), "admin") {
                return true;
            }
            k = k + 1;
        }
        assert(!roles.contains("admin"@));
        false
    }
}

impl Default for RbacChecker {
    fn default() -> (r: Self)
        ensures
            forall|role: Seq<char>| lookup(r.roles(), role) == default_role_permissions(role),
            forall|role: Seq<char>|
                lookup(r.project_roles(), role) == default_project_role_permissions(role),
    {
        RbacChecker::new()
    }
}

/// With the default tables, the global role `admin` grants every permission
/// on every project, the global role `read` grants reading and nothing more
/// on every project, and a project role grants nothing on other projects.
pub proof fn lemma_default_rbac(
    c: RbacChecker,
    roles: Seq<Seq<char>>,
    project_roles: Seq<(Seq<char>, Seq<char>)>,
    project: Seq<char>,
    required: Permission,
)
    requires
        forall|role: Seq<char>| lookup(c.roles(), role) == default_role_permissions(role),
        forall|role: Seq<char>|
            lookup(c.project_roles(), role) == default_project_role_permissions(role),
    ensures
        roles.contains("admin"@) ==> global_roles_grant(c.roles(), roles, required),
        roles == seq!["read"@] ==> (global_roles_grant(c.roles(), roles, required) <==> required
            == Permission::Read),
        lookup(project_roles, project) is None ==> !project_role_grants(
            c.project_roles(),
            project_roles,
            project,
            required,
        ),
{
    if roles.contains("admin"@) {
        let i = choose|i: int| 0 <= i < roles.len() && roles[i] == "admin"@;
        let perms = seq![Permission::Read, Permission::Write, Permission::Admin];
        assert(perms[2] == Permission::Admin);
        assert(lookup(c.roles(), roles[i]) == default_role_permissions(roles[i]));
        assert(default_role_permissions("admin"@) == Some(perms));
        assert(lookup(c.roles(), roles[i]) == Some(perms));
    }
    if roles == seq!["read"@] {
        reveal_strlit("read");
        reveal_strlit("admin");
        reveal_strlit("write");
        let perms = seq![Permission::Read];
        assert(lookup(c.roles(), roles[0]) == default_role_permissions(roles[0]));
        assert("read"@ != "admin"@ && "read"@ != "write"@) by {
            assert("read"@.len() != "admin"@.len());
            assert("read"@[1] != "write"@[1]);
        }
        assert(default_role_permissions("read"@) == Some(perms));
        assert(lookup(c.roles(), roles[0]) == Some(perms));
        assert(perms[0] == Permission::Read);
        if required == Permission::Read {
            assert(perms.contains(Permission::Read));
        } else {
            assert(!perms.contains(required));
            assert(!perms.contains(Permission::Admin));
        }
    }
}


/// What the default permission lists grant.
proof fn lemma_default_lists_grant()
    ensures
        grants(seq![Permission::Read, Permission::Write, Permission::Admin], Permission::Read),
        grants(seq![Permission::Read, Permission::Write, Permission::Admin], Permission::Write),
        grants(seq![Permission::Read, Permission::Write, Permission::Admin], Permission::Admin),
        grants(seq![Permission::Read, Permission::Write], Permission::Read),
        grants(seq![Permission::Read, Permission::Write], Permission::Write),
        !grants(seq![Permission::Read, Permission::Write], Permission::Admin),
        grants(seq![Permission::Read], Permission::Read),
        !grants(seq![Permission::Read], Permission::Write),
        !grants(seq![Permission::Read], Permission::Admin),
{
    let a = seq![Permission::Read, Permission::Write, Permission::Admin];
    let w = seq![Permission::Read, Permission::Write];
    let d = seq![Permission::Read];
    assert(a[0] == Permission::Read && a[1] == Permission::Write && a[2] == Permission::Admin);
    assert(w[0] == Permission::Read && w[1] == Permission::Write);
    assert(d[0] == Permission::Read);
    assert(!w.contains(Permission::Admin)) by {
        assert forall|i: int| 0 <= i < w.len() implies w[i] != Permission::Admin by {}
    }
    assert(!d.contains(Permission::Admin)) by {
        assert forall|i: int| 0 <= i < d.len() implies d[i] != Permission::Admin by {}
    }
    assert(!d.contains(Permission::Write)) by {
        assert forall|i: int| 0 <= i < d.len() implies d[i] != Permission::Write by {}
    }
}

/// Under the default tables, an identity without global roles has on a
/// project exactly what its role there grants: `admin` reads, writes and
/// administers; `writer` reads and writes but does not administer; `reader`
/// only reads; any other role, or none, grants nothing.
pub proof fn lemma_default_project_role_access(r: RbacChecker, id: AuthIdentity, project: Seq<char>)
    requires
        forall|role: Seq<char>| lookup(r.roles(), role) == default_role_permissions(role),
        forall|role: Seq<char>| lookup(r.project_roles(), role) == default_project_role_permissions(role),
        id.roles@.len() == 0,
    ensures
        ({
            let granted = |p: Permission| access_granted(r.roles(), r.project_roles(), id, project, p);
            match lookup(pairs_view(id.project_roles@), project) {
                Some(role) => if role == "admin"@ {
                    granted(Permission::Read) && granted(Permission::Write) && granted(Permission::Admin)
                } else if role == "writer"@ {
                    granted(Permission::Read) && granted(Permission::Write) && !granted(Permission::Admin)
                } else if role == "reader"@ {
                    granted(Permission::Read) && !granted(Permission::Write) && !granted(Permission::Admin)
                } else {
                    !granted(Permission::Read) && !granted(Permission::Write) && !granted(Permission::Admin)
                },
                None => !granted(Permission::Read) && !granted(Permission::Write) && !granted(Permission::Admin),
            }
        }),
{
    reveal_strlit("admin");
    reveal_strlit("writer");
    reveal_strlit("reader");
    assert("admin"@ != "writer"@) by {
        assert("admin"@.len() != "writer"@.len());
    }
    assert("admin"@ != "reader"@) by {
        assert("admin"@.len() != "reader"@.len());
    }
    assert("writer"@ != "reader"@) by {
        assert("writer"@[0] != "reader"@[0]);
    }
    lemma_default_lists_grant();
    let roles = id.roles@.map_values(|s: String| s@);
    assert(roles.len() == 0);
    assert(forall|p: Permission| !global_roles_grant(r.roles(), roles, p));
    match lookup(pairs_view(id.project_roles@), project) {
        Some(role) => {
            assert(lookup(r.project_roles(), role) == default_project_role_permissions(role));
        },
        None => {},
    }
}

/// Under the default tables, an identity whose only role is a global one,
/// with no project roles, has on every project what that role grants:
/// `admin` reads, writes and administers; `write` reads and writes but does
/// not administer; `read` only reads; any other role grants nothing.
pub proof fn lemma_default_global_role_access(r: RbacChecker, id: AuthIdentity, project: Seq<char>)
    requires
        forall|role: Seq<char>| lookup(r.roles(), role) == default_role_permissions(role),
        forall|role: Seq<char>| lookup(r.project_roles(), role) == default_project_role_permissions(role),
        id.roles@.len() == 1,
        id.project_roles@.len() == 0,
    ensures
        ({
            let granted = |p: Permission| access_granted(r.roles(), r.project_roles(), id, project, p);
            let role = id.roles@[0]@;
            if role == "admin"@ {
                granted(Permission::Read) && granted(Permission::Write) && granted(Permission::Admin)
            } else if role == "write"@ {
                granted(Permission::Read) && granted(Permission::Write) && !granted(Permission::Admin)
            } else if role == "read"@ {
                granted(Permission::Read) && !granted(Permission::Write) && !granted(Permission::Admin)
            } else {
                !granted(Permission::Read) && !granted(Permission::Write) && !granted(Permission::Admin)
            }
        }),
{
    reveal_strlit("admin");
    reveal_strlit("write");
    reveal_strlit("read");
    assert("admin"@ != "write"@) by {
        assert("admin"@[0] != "write"@[0]);
    }
    assert("admin"@ != "read"@) by {
        assert("admin"@.len() != "read"@.len());
    }
    assert("write"@ != "read"@) by {
        assert("write"@.len() != "read"@.len());
    }
    lemma_default_lists_grant();
    let roles = id.roles@.map_values(|s: String| s@);
    let role = id.roles@[0]@;
    assert(roles.len() == 1 && roles[0] == role);
    assert(pairs_view(id.project_roles@).len() == 0);
    assert(lookup(pairs_view(id.project_roles@), project) is None);
    assert(lookup(r.roles(), role) == default_role_permissions(role));
    assert forall|p: Permission| global_roles_grant(r.roles(), roles, p) <==> (lookup(r.roles(), role) matches Some(
        perms,
    ) && grants(perms, p)) by {
        if global_roles_grant(r.roles(), roles, p) {
            let i = choose|i: int|
                0 <= i < roles.len() && (lookup(r.roles(), #[trigger] roles[i]) matches Some(perms) && grants(
                    perms,
                    p,
                ));
            assert(i == 0);
        }
    }
}


/// A role's permission list grants what it holds, grants everything when it
/// holds `Admin`, and grants nothing else.
pub proof fn lemma_grants_by_admin(perms: Seq<Permission>, p: Permission)
    ensures
        perms.contains(p) ==> grants(perms, p),
        perms.contains(Permission::Admin) ==> grants(perms, p),
        !perms.contains(p) && !perms.contains(Permission::Admin) ==> !grants(perms, p),
{
}

} // verus!

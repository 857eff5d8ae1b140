//! The registry of a project: its entities, feature views, feature services,
//! data sources and on-demand feature views, kept as messages and looked up
//! by name within a project, and the materialization intervals of feature
//! views. Loading and saving the registry is up to the caller.
use vstd::prelude::*;

use crate::conversion::{
    data_source_canonical, data_source_from_proto, data_source_from_rel, data_source_to_proto, data_source_to_rel,
    entity_canonical, entity_from_proto, entity_from_rel, entity_to_proto, entity_to_rel, feature_service_canonical,
    feature_service_from_proto, feature_service_from_rel, feature_service_to_proto, feature_service_to_rel,
    feature_view_canonical, feature_view_from_proto, feature_view_from_rel, feature_view_readable,
    feature_view_to_proto, feature_view_to_rel, intervals_from_proto, intervals_from_spec, odfv_from_proto,
    odfv_from_rel, odfv_readable, odfv_to_proto, odfv_to_rel, same_data_source, same_entity,
    same_feature_service, same_feature_view,
};
use crate::proto;
use crate::strings::str_eq;
use crate::time::UtcDateTime;
use crate::types::{DataSource, Entity, FeatureService, FeatureView, OnDemandFeatureView};

verus! {

// ---------------------------------------------------------------------------
// Items kept by name within a project
// ---------------------------------------------------------------------------

/// A message kept in the registry under a name within a project (none when
/// the message has no specification).
pub trait Keyed: Sized {
    spec fn key(&self) -> Option<(Seq<char>, Seq<char>)>;

    fn has_key(&self, name: &str, project: &str) -> (r: bool)
        ensures
            r == (self.key() == Some((name@, project@)));

    fn in_project(&self, project: &str) -> (r: bool)
        ensures
            r == (self.key() matches Some(k) && k.1 == project@);
}

impl Keyed for proto::Entity {
    open spec fn key(&self) -> Option<(Seq<char>, Seq<char>)> {
        match self.spec {
            Some(s) => Some((s.name@, s.project@)),
            None => None,
        }
    }

    fn has_key(&self, name: &str, project: &str) -> (r: bool) {
        match &self.spec {
            Some(s) => str_eq(s.name.as_str(), name) && str_eq(s.project.as_str(), project),
            None => false,
        }
    }

    fn in_project(&self, project: &str) -> (r: bool) {
        match &self.spec {
            Some(s) => str_eq(s.project.as_str(), project),
            None => false,
        }
    }
}

impl Keyed for proto::FeatureView {
    open spec fn key(&self) -> Option<(Seq<char>, Seq<char>)> {
        match self.spec {
            Some(s) => Some((s.name@, s.project@)),
            None => None,
        }
    }

    fn has_key(&self, name: &str, project: &str) -> (r: bool) {
        match &self.spec {
            Some(s) => str_eq(s.name.as_str(), name) && str_eq(s.project.as_str(), project),
            None => false,
        }
    }

    fn in_project(&self, project: &str) -> (r: bool) {
        match &self.spec {
            Some(s) => str_eq(s.project.as_str(), project),
            None => false,
        }
    }
}

impl Keyed for proto::FeatureService {
    open spec fn key(&self) -> Option<(Seq<char>, Seq<char>)> {
        match self.spec {
            Some(s) => Some((s.name@, s.project@)),
            None => None,
        }
    }

    fn has_key(&self, name: &str, project: &str) -> (r: bool) {
        match &self.spec {
            Some(s) => str_eq(s.name.as_str(), name) && str_eq(s.project.as_str(), project),
            None => false,
        }
    }

    fn in_project(&self, project: &str) -> (r: bool) {
        match &self.spec {
            Some(s) => str_eq(s.project.as_str(), project),
            None => false,
        }
    }
}

impl Keyed for proto::OnDemandFeatureView {
    open spec fn key(&self) -> Option<(Seq<char>, Seq<char>)> {
        match self.spec {
            Some(s) => Some((s.name@, s.project@)),
            None => None,
        }
    }

    fn has_key(&self, name: &str, project: &str) -> (r: bool) {
        match &self.spec {
            Some(s) => str_eq(s.name.as_str(), name) && str_eq(s.project.as_str(), project),
            None => false,
        }
    }

    fn in_project(&self, project: &str) -> (r: bool) {
        match &self.spec {
            Some(s) => str_eq(s.project.as_str(), project),
            None => false,
        }
    }
}

impl Keyed for proto::DataSource {
    open spec fn key(&self) -> Option<(Seq<char>, Seq<char>)> {
        Some((self.name@, self.project@))
    }

    fn has_key(&self, name: &str, project: &str) -> (r: bool) {
        str_eq(self.name.as_str(), name) && str_eq(self.project.as_str(), project)
    }

    fn in_project(&self, project: &str) -> (r: bool) {
        str_eq(self.project.as_str(), project)
    }
}

/// The position of the first item kept under a name within a project.
pub open spec fn first_match<T: Keyed>(items: Seq<T>, name: Seq<char>, project: Seq<char>) -> Option<int>
    decreases items.len(),
{
    if items.len() == 0 {
        None
    } else if items[0].key() == Some((name, project)) {
        Some(0)
    } else {
        match first_match(items.drop_first(), name, project) {
            Some(i) => Some(i + 1),
            None => None,
        }
    }
}

/// The items after putting `item` under a name: it replaces the first item
/// kept under that name, or is appended.
pub open spec fn put_spec<T: Keyed>(items: Seq<T>, item: T, name: Seq<char>, project: Seq<char>) -> Seq<T> {
    match first_match(items, name, project) {
        Some(i) => items.update(i, item),
        None => items.push(item),
    }
}

/// Whether an item is not kept under a name.
pub open spec fn not_keyed_as<T: Keyed>(name: Seq<char>, project: Seq<char>) -> spec_fn(T) -> bool {
    |t: T| t.key() != Some((name, project))
}

/// Whether an item belongs to a project.
pub open spec fn of_project<T: Keyed>(project: Seq<char>) -> spec_fn(T) -> bool {
    |t: T| t.key() matches Some(k) && k.1 == project
}

proof fn lemma_first_match_at<T: Keyed>(items: Seq<T>, name: Seq<char>, project: Seq<char>, i: int)
    requires
        0 <= i < items.len(),
        items[i].key() == Some((name, project)),
        forall|j: int| 0 <= j < i ==> items[j].key() != Some((name, project)),
    ensures
        first_match(items, name, project) == Some(i),
    decreases items.len(),
{
    if i > 0 {
        lemma_first_match_at(items.drop_first(), name, project, i - 1);
    }
}

proof fn lemma_first_match_none<T: Keyed>(items: Seq<T>, name: Seq<char>, project: Seq<char>)
    requires
        forall|j: int| 0 <= j < items.len() ==> items[j].key() != Some((name, project)),
    ensures
        first_match(items, name, project) is None,
    decreases items.len(),
{
    if items.len() > 0 {
        lemma_first_match_none(items.drop_first(), name, project);
    }
}

/// The first match is a match, with none before it.
pub proof fn lemma_first_match_props<T: Keyed>(items: Seq<T>, name: Seq<char>, project: Seq<char>)
    ensures
        match first_match(items, name, project) {
            Some(i) => 0 <= i < items.len() && items[i].key() == Some((name, project)) && forall|j: int|
                0 <= j < i ==> items[j].key() != Some((name, project)),
            None => forall|j: int| 0 <= j < items.len() ==> items[j].key() != Some((name, project)),
        },
    decreases items.len(),
{
    if items.len() > 0 {
        lemma_first_match_props(items.drop_first(), name, project);
        if items[0].key() != Some((name, project)) {
            assert forall|j: int| 0 <= j < items.len() && items[j].key() == Some((name, project)) implies j >= 1 by {}
            match first_match(items.drop_first(), name, project) {
                Some(i) => {
                    assert forall|j: int| 0 <= j < i + 1 implies items[j].key() != Some((name, project)) by {
                        if j > 0 {
                            assert(items[j] == items.drop_first()[j - 1]);
                        }
                    }
                },
                None => {
                    assert forall|j: int| 0 <= j < items.len() implies items[j].key() != Some((name, project)) by {
                        if j > 0 {
                            assert(items[j] == items.drop_first()[j - 1]);
                        }
                    }
                },
            }
        }
    }
}

/// The position of the first item kept under a name within a project.
pub fn find_item<T: Keyed>(items: &Vec<T>, name: &str, project: &str) -> (r: Option<usize>)
    ensures
        match (r, first_match(items@, name@, project@)) {
            (Some(i), Some(j)) => i == j,
            (None, None) => true,
            _ => false,
        },
        r matches Some(i) ==> i < items@.len(),
{
    let n = items.len();
    let mut i: usize = 0;
    while i < n
        invariant
            n == items@.len(),
            i <= n,
            forall|j: int| 0 <= j < i ==> items@[j].key() != Some((name@, project@)),
        decreases n - i,
    {
        if items[i].has_key(name, project) {
            proof {
                lemma_first_match_at(items@, name@, project@, i as int);
            }
            return Some(i);
        }
        i = i + 1;
    }
    proof {
        lemma_first_match_none(items@, name@, project@);
    }
    None
}

/// Puts an item under a name: it replaces the first item kept under that
/// name, or is appended.
pub fn put_item<T: Keyed>(items: &mut Vec<T>, item: T, name: &str, project: &str)
    ensures
        final(items)@ == put_spec(old(items)@, item, name@, project@),
{
    match find_item(items, name, project) {
        Some(i) => {
            items.set(i, item);
        },
        None => {
            items.push(item);
        },
    }
}

/// Removes every item kept under a name, keeping the others in order.
pub fn remove_items<T: Keyed>(items: &mut Vec<T>, name: &str, project: &str)
    ensures
        final(items)@ == old(items)@.filter(not_keyed_as::<T>(name@, project@)),
{
    let ghost all = items@;
    let mut rest: Vec<T> = Vec::new();
    std::mem::swap(&mut rest, items);
    let n = rest.len();
    let mut i: usize = 0;
    while i < n
        invariant
            n == all.len(),
            i <= n,
            rest@ == all.skip(i as int),
            items@ == all.take(i as int).filter(not_keyed_as::<T>(name@, project@)),
        decreases n - i,
    {
        let x = rest.remove(0);
        proof {
            assert(x == all[i as int]);
            assert(rest@ =~= all.skip(i + 1));
            assert(all.take(i + 1) =~= all.take(i as int).push(all[i as int]));
            all.take(i as int).lemma_filter_push(all[i as int], not_keyed_as::<T>(name@, project@));
        }
        let keyed = x.has_key(name, project);
        if !keyed {
            items.push(x);
        }
        i = i + 1;
    }
    proof {
        assert(all.take(n as int) =~= all);
    }
}

/// Putting an item under its own name makes it the item found under that
/// name.
pub proof fn lemma_put_then_find<T: Keyed>(items: Seq<T>, item: T, name: Seq<char>, project: Seq<char>)
    requires
        item.key() == Some((name, project)),
    ensures
        first_match(put_spec(items, item, name, project), name, project) matches Some(i) && put_spec(
            items,
            item,
            name,
            project,
        )[i] == item,
{
    lemma_first_match_props(items, name, project);
    let after = put_spec(items, item, name, project);
    match first_match(items, name, project) {
        Some(i) => {
            assert forall|j: int| 0 <= j < i implies after[j].key() != Some((name, project)) by {
                assert(after[j] == items[j]);
            }
            lemma_first_match_at(after, name, project, i);
        },
        None => {
            assert forall|j: int| 0 <= j < items.len() implies after[j].key() != Some((name, project)) by {
                assert(after[j] == items[j]);
            }
            lemma_first_match_at(after, name, project, items.len() as int);
        },
    }
}

/// Putting an item under one name leaves what is found under any other
/// name as it was.
pub proof fn lemma_put_keeps_others<T: Keyed>(
    items: Seq<T>,
    item: T,
    name: Seq<char>,
    project: Seq<char>,
    other_name: Seq<char>,
    other_project: Seq<char>,
)
    requires
        item.key() == Some((name, project)),
        (other_name, other_project) != (name, project),
    ensures
        match (first_match(items, other_name, other_project), first_match(
            put_spec(items, item, name, project),
            other_name,
            other_project,
        )) {
            (Some(i), Some(j)) => i == j && items[i] == put_spec(items, item, name, project)[j],
            (None, None) => true,
            _ => false,
        },
{
    lemma_first_match_props(items, name, project);
    lemma_first_match_props(items, other_name, other_project);
    let after = put_spec(items, item, name, project);
    lemma_first_match_props(after, other_name, other_project);
    assert forall|j: int| 0 <= j < items.len() implies (after[j].key() == Some((other_name, other_project))) == (
    items[j].key() == Some((other_name, other_project))) && (items[j].key() == Some((other_name, other_project))
        ==> after[j] == items[j]) by {
        match first_match(items, name, project) {
            Some(i) => {
                if j == i {
                    assert(after[j] == item);
                } else {
                    assert(after[j] == items[j]);
                }
            },
            None => {
                assert(after[j] == items[j]);
            },
        }
    }
    match first_match(items, other_name, other_project) {
        Some(i) => {
            lemma_first_match_at(after, other_name, other_project, i);
        },
        None => {
            if first_match(items, name, project) is None {
                assert(after[items.len() as int] == item);
            }
            assert forall|j: int| 0 <= j < after.len() implies after[j].key() != Some((other_name, other_project)) by {
                if j < items.len() {
                } else {
                    assert(after[j] == item);
                }
            }
            lemma_first_match_none(after, other_name, other_project);
        },
    }
}

/// After removing the items kept under a name, none is found under it.
pub proof fn lemma_removed_not_found<T: Keyed>(items: Seq<T>, name: Seq<char>, project: Seq<char>)
    ensures
        first_match(items.filter(not_keyed_as::<T>(name, project)), name, project) is None,
{
    let f = items.filter(not_keyed_as::<T>(name, project));
    items.filter_lemma(not_keyed_as::<T>(name, project));
    assert forall|j: int| 0 <= j < f.len() implies f[j].key() != Some((name, project)) by {
        assert(not_keyed_as::<T>(name, project)(f[j]));
    }
    lemma_first_match_none(f, name, project);
}

// ---------------------------------------------------------------------------
// The registry
// ---------------------------------------------------------------------------

/// The registry of a project, as kept between loads and saves.
#[derive(Debug, Clone)]
pub struct RegistryMessage {
    pub entities: Vec<proto::Entity>,
    pub feature_views: Vec<proto::FeatureView>,
    pub data_sources: Vec<proto::DataSource>,
    pub on_demand_feature_views: Vec<proto::OnDemandFeatureView>,
    pub feature_services: Vec<proto::FeatureService>,
    pub registry_schema_version: String,
    pub version_id: String,
}

/// Whether every stored feature view and on-demand feature view can be
/// read back.
pub open spec fn registry_readable(r: RegistryMessage) -> bool {
    &&& forall|i: int| 0 <= i < r.feature_views@.len() ==> feature_view_readable(#[trigger] r.feature_views@[i])
    &&& forall|i: int| 0 <= i < r.on_demand_feature_views@.len() ==> odfv_readable(
        #[trigger] r.on_demand_feature_views@[i],
    )
}

impl RegistryMessage {
    /// The registry of a project that has none stored yet: empty, at
    /// schema version 1.
    pub fn empty() -> (r: Self)
        ensures
            r.entities@.len() == 0,
            r.feature_views@.len() == 0,
            r.data_sources@.len() == 0,
            r.on_demand_feature_views@.len() == 0,
            r.feature_services@.len() == 0,
            r.registry_schema_version@ == "1"@,
            r.version_id@.len() == 0,
            registry_readable(r),
    {
        RegistryMessage {
            entities: Vec::new(),
            feature_views: Vec::new(),
            data_sources: Vec::new(),
            on_demand_feature_views: Vec::new(),
            feature_services: Vec::new(),
            registry_schema_version: String::from_str("1"),
            version_id: String::new(),
        }
    }
}

// ---------------------------------------------------------------------------
// Entities
// ---------------------------------------------------------------------------

/// The message of an entity as applied to a project: the message of the
/// entity with its project set.
pub open spec fn is_entity_message(p: proto::Entity, entity: Entity, project: Seq<char>) -> bool {
    exists|s: String| s@ == project && entity_to_rel(Entity { project: s, ..entity }, p)
}

/// The message of an entity as applied to a project: the entity with the
/// project set.
fn entity_message(entity: &Entity, project: &str) -> (r: proto::Entity)
    ensures
        is_entity_message(r, *entity, project@),
        r.key() == Some((entity.name@, project@)),
{
    let pstr = String::from_str(project);
    let ghost e = Entity { project: pstr, ..*entity };
    let mut p = entity_to_proto(entity);
    let spec = p.spec;
    p.spec = match spec {
        Some(mut s) => {
            s.project = pstr;
            Some(s)
        },
        None => None,
    };
    proof {
        assert(entity_to_rel(e, p));
    }
    p
}

/// Applies an entity to a project: its message replaces the one kept under
/// its name in the project, or is added.
pub fn apply_entity(reg: &mut RegistryMessage, entity: &Entity, project: &str)
    ensures
        exists|m: proto::Entity|
            is_entity_message(m, *entity, project@) && m.key() == Some((entity.name@, project@))
                && final(reg).entities@ == put_spec(old(reg).entities@, m, entity.name@, project@),
        final(reg).feature_views@ == old(reg).feature_views@,
        final(reg).data_sources@ == old(reg).data_sources@,
        final(reg).on_demand_feature_views@ == old(reg).on_demand_feature_views@,
        final(reg).feature_services@ == old(reg).feature_services@,
{
    let m = entity_message(entity, project);
    put_item(&mut reg.entities, m, entity.name.as_str(), project);
}

/// The entity kept under a name in a project, if any.
pub fn get_entity(reg: &RegistryMessage, name: &str, project: &str) -> (r: Option<Entity>)
    ensures
        match first_match(reg.entities@, name@, project@) {
            Some(i) => r matches Some(e) && entity_from_rel(reg.entities@[i], e),
            None => r is None,
        },
{
    proof {
        lemma_first_match_props(reg.entities@, name@, project@);
    }
    match find_item(&reg.entities, name, project) {
        Some(i) => Some(entity_from_proto(&reg.entities[i])),
        None => None,
    }
}

/// The entities of a project, in the order they are kept.
pub fn list_entities(reg: &RegistryMessage, project: &str) -> (r: Vec<Entity>)
    ensures
        r@.len() == reg.entities@.filter(of_project::<proto::Entity>(project@)).len(),
        forall|i: int|
            0 <= i < r@.len() ==> entity_from_rel(
                reg.entities@.filter(of_project::<proto::Entity>(project@))[i],
                #[trigger] r@[i],
            ),
{
    let ghost all = reg.entities@;
    let ghost f = of_project::<proto::Entity>(project@);
    let n = reg.entities.len();
    let mut out: Vec<Entity> = Vec::new();
    let mut i: usize = 0;
    while i < n
        invariant
            n == all.len(),
            all == reg.entities@,
            f == of_project::<proto::Entity>(project@),
            i <= n,
            out@.len() == all.take(i as int).filter(f).len(),
            forall|j: int| 0 <= j < out@.len() ==> entity_from_rel(all.take(i as int).filter(f)[j], #[trigger] out@[j]),
        decreases n - i,
    {
        proof {
            assert(all.take(i + 1) =~= all.take(i as int).push(all[i as int]));
            all.take(i as int).lemma_filter_push(all[i as int], of_project::<proto::Entity>(project@));
        }
        if reg.entities[i].in_project(project) {
            let e = entity_from_proto(&reg.entities[i]);
            out.push(e);
        }
        i = i + 1;
    }
    proof {
        assert(all.take(n as int) =~= all);
    }
    out
}

/// Deletes the entities kept under a name in a project.
pub fn delete_entity(reg: &mut RegistryMessage, name: &str, project: &str)
    ensures
        final(reg).entities@ == old(reg).entities@.filter(not_keyed_as::<proto::Entity>(name@, project@)),
        final(reg).feature_views@ == old(reg).feature_views@,
        final(reg).data_sources@ == old(reg).data_sources@,
        final(reg).on_demand_feature_views@ == old(reg).on_demand_feature_views@,
        final(reg).feature_services@ == old(reg).feature_services@,
{
    remove_items(&mut reg.entities, name, project);
}

/// What is applied is what is read back: after an entity is applied to a
/// project, the entity read under its name there holds the same values as
/// the applied entity with its project set, for every entity that a write
/// and a read keep.
pub proof fn lemma_entity_apply_then_get(
    before: Seq<proto::Entity>,
    after: Seq<proto::Entity>,
    entity: Entity,
    project: Seq<char>,
    got: Entity,
)
    requires
        entity_canonical(entity),
        exists|m: proto::Entity|
            is_entity_message(m, entity, project) && m.key() == Some((entity.name@, project))
                && after == put_spec(before, m, entity.name@, project),
        first_match(after, entity.name@, project) matches Some(i) && entity_from_rel(after[i], got),
    ensures
        exists|s: String| s@ == project && same_entity(Entity { project: s, ..entity }, got),
{
    let m = choose|m: proto::Entity|
        is_entity_message(m, entity, project) && m.key() == Some((entity.name@, project)) && after == put_spec(
            before,
            m,
            entity.name@,
            project,
        );
    lemma_put_then_find(before, m, entity.name@, project);
    let s = choose|s: String| s@ == project && entity_to_rel(Entity { project: s, ..entity }, m);
    crate::conversion::lemma_entity_roundtrip(Entity { project: s, ..entity }, m, got);
}

/// After the entities under a name are deleted, none is read there.
pub proof fn lemma_entity_delete_then_get(before: Seq<proto::Entity>, name: Seq<char>, project: Seq<char>)
    ensures
        first_match(before.filter(not_keyed_as::<proto::Entity>(name, project)), name, project) is None,
{
    lemma_removed_not_found(before, name, project);
}

// ---------------------------------------------------------------------------
// Feature views
// ---------------------------------------------------------------------------

/// The message of a feature view as applied to a project: the message of
/// the feature view with its project set.
pub open spec fn is_feature_view_message(p: proto::FeatureView, fv: FeatureView, project: Seq<char>) -> bool {
    exists|s: String| s@ == project && feature_view_to_rel(FeatureView { project: s, ..fv }, p)
}

fn feature_view_message(fv: &FeatureView, project: &str) -> (r: proto::FeatureView)
    ensures
        is_feature_view_message(r, *fv, project@),
        r.key() == Some((fv.name@, project@)),
        (fv.ttl matches Some(t) ==> t.nanos < 1_000_000_000) ==> feature_view_readable(r),
{
    let pstr = String::from_str(project);
    let ghost f = FeatureView { project: pstr, ..*fv };
    let mut p = feature_view_to_proto(fv);
    let spec = p.spec;
    p.spec = match spec {
        Some(mut s) => {
            s.project = pstr;
            Some(s)
        },
        None => None,
    };
    proof {
        assert(feature_view_to_rel(f, p));
        if fv.ttl matches Some(t) ==> t.nanos < 1_000_000_000 {
            crate::conversion::lemma_feature_view_message_readable(f, p);
        }
    }
    p
}

/// Applies a feature view to a project: its message replaces the one kept
/// under its name in the project, or is added.
pub fn apply_feature_view(reg: &mut RegistryMessage, fv: &FeatureView, project: &str)
    ensures
        exists|m: proto::FeatureView|
            is_feature_view_message(m, *fv, project@) && m.key() == Some((fv.name@, project@))
                && final(reg).feature_views@ == put_spec(old(reg).feature_views@, m, fv.name@, project@)
                && ((fv.ttl matches Some(t) ==> t.nanos < 1_000_000_000) ==> feature_view_readable(m)),
        (registry_readable(*old(reg)) && (fv.ttl matches Some(t) ==> t.nanos < 1_000_000_000)) ==> registry_readable(
            *final(reg),
        ),
        final(reg).entities@ == old(reg).entities@,
        final(reg).data_sources@ == old(reg).data_sources@,
        final(reg).on_demand_feature_views@ == old(reg).on_demand_feature_views@,
        final(reg).feature_services@ == old(reg).feature_services@,
{
    let m = feature_view_message(fv, project);
    let ghost mm = m;
    put_item(&mut reg.feature_views, m, fv.name.as_str(), project);
    proof {
        if registry_readable(*old(reg)) && (fv.ttl matches Some(t) ==> t.nanos < 1_000_000_000) {
            assert forall|i: int| 0 <= i < reg.feature_views@.len() implies feature_view_readable(
                #[trigger] reg.feature_views@[i],
            ) by {
                lemma_first_match_props(old(reg).feature_views@, fv.name@, project@);
                if i < old(reg).feature_views@.len() && reg.feature_views@[i] != mm {
                    assert(reg.feature_views@[i] == old(reg).feature_views@[i]);
                }
            }
        }
    }
}

/// The feature view kept under a name in a project, if any.
pub fn get_feature_view(reg: &RegistryMessage, name: &str, project: &str) -> (r: Option<FeatureView>)
    requires
        registry_readable(*reg),
    ensures
        match first_match(reg.feature_views@, name@, project@) {
            Some(i) => r matches Some(f) && feature_view_from_rel(reg.feature_views@[i], f),
            None => r is None,
        },
{
    proof {
        lemma_first_match_props(reg.feature_views@, name@, project@);
    }
    match find_item(&reg.feature_views, name, project) {
        Some(i) => Some(feature_view_from_proto(&reg.feature_views[i])),
        None => None,
    }
}

/// The feature views of a project, in the order they are kept.
pub fn list_feature_views(reg: &RegistryMessage, project: &str) -> (r: Vec<FeatureView>)
    requires
        registry_readable(*reg),
    ensures
        r@.len() == reg.feature_views@.filter(of_project::<proto::FeatureView>(project@)).len(),
        forall|i: int|
            0 <= i < r@.len() ==> feature_view_from_rel(
                reg.feature_views@.filter(of_project::<proto::FeatureView>(project@))[i],
                #[trigger] r@[i],
            ),
{
    let ghost all = reg.feature_views@;
    let ghost f = of_project::<proto::FeatureView>(project@);
    let n = reg.feature_views.len();
    let mut out: Vec<FeatureView> = Vec::new();
    let mut i: usize = 0;
    while i < n
        invariant
            n == all.len(),
            all == reg.feature_views@,
            registry_readable(*reg),
            f == of_project::<proto::FeatureView>(project@),
            i <= n,
            out@.len() == all.take(i as int).filter(f).len(),
            forall|j: int|
                0 <= j < out@.len() ==> feature_view_from_rel(all.take(i as int).filter(f)[j], #[trigger] out@[j]),
        decreases n - i,
    {
        proof {
            assert(all.take(i + 1) =~= all.take(i as int).push(all[i as int]));
            all.take(i as int).lemma_filter_push(all[i as int], of_project::<proto::FeatureView>(project@));
        }
        if reg.feature_views[i].in_project(project) {
            let v = feature_view_from_proto(&reg.feature_views[i]);
            out.push(v);
        }
        i = i + 1;
    }
    proof {
        assert(all.take(n as int) =~= all);
    }
    out
}

/// Deletes the feature views kept under a name in a project.
pub fn delete_feature_view(reg: &mut RegistryMessage, name: &str, project: &str)
    ensures
        final(reg).feature_views@ == old(reg).feature_views@.filter(
            not_keyed_as::<proto::FeatureView>(name@, project@),
        ),
        registry_readable(*old(reg)) ==> registry_readable(*final(reg)),
        final(reg).entities@ == old(reg).entities@,
        final(reg).data_sources@ == old(reg).data_sources@,
        final(reg).on_demand_feature_views@ == old(reg).on_demand_feature_views@,
        final(reg).feature_services@ == old(reg).feature_services@,
{
    remove_items(&mut reg.feature_views, name, project);
    proof {
        let pred = not_keyed_as::<proto::FeatureView>(name@, project@);
        old(reg).feature_views@.filter_lemma(pred);
        if registry_readable(*old(reg)) {
            assert forall|i: int| 0 <= i < reg.feature_views@.len() implies feature_view_readable(
                #[trigger] reg.feature_views@[i],
            ) by {
                assert(reg.feature_views@.contains(reg.feature_views@[i]));
                old(reg).feature_views@.lemma_filter_contains_rev(pred, reg.feature_views@[i]);
                let k = choose|k: int| 0 <= k < old(reg).feature_views@.len() && old(reg).feature_views@[k]
                    == reg.feature_views@[i];
                assert(feature_view_readable(old(reg).feature_views@[k]));
            }
        }
    }
}

/// What is applied is what is read back: after a feature view is applied
/// to a project, the feature view read under its name there holds the same
/// values as the applied one with its project set, for every feature view
/// that a write and a read keep.
pub proof fn lemma_feature_view_apply_then_get(
    before: Seq<proto::FeatureView>,
    after: Seq<proto::FeatureView>,
    fv: FeatureView,
    project: Seq<char>,
    got: FeatureView,
)
    requires
        feature_view_canonical(fv),
        exists|m: proto::FeatureView|
            is_feature_view_message(m, fv, project) && m.key() == Some((fv.name@, project))
                && after == put_spec(before, m, fv.name@, project),
        first_match(after, fv.name@, project) matches Some(i) && feature_view_from_rel(after[i], got),
    ensures
        exists|s: String| s@ == project && same_feature_view(FeatureView { project: s, ..fv }, got),
{
    let m = choose|m: proto::FeatureView|
        is_feature_view_message(m, fv, project) && m.key() == Some((fv.name@, project)) && after == put_spec(
            before,
            m,
            fv.name@,
            project,
        );
    lemma_put_then_find(before, m, fv.name@, project);
    let s = choose|s: String| s@ == project && feature_view_to_rel(FeatureView { project: s, ..fv }, m);
    crate::conversion::lemma_feature_view_roundtrip(FeatureView { project: s, ..fv }, m, got);
}

// ---------------------------------------------------------------------------
// Feature services
// ---------------------------------------------------------------------------

/// The message of a feature service as applied to a project: the message of the
/// feature service with its project set.
pub open spec fn is_feature_service_message(p: proto::FeatureService, x: FeatureService, project: Seq<char>) -> bool {
    exists|s: String| s@ == project && feature_service_to_rel(FeatureService { project: s, ..x }, p)
}

fn feature_service_message(x: &FeatureService, project: &str) -> (r: proto::FeatureService)
    ensures
        is_feature_service_message(r, *x, project@),
        r.key() == Some((x.name@, project@)),
{
    let pstr = String::from_str(project);
    let ghost f = FeatureService { project: pstr, ..*x };
    let mut p = feature_service_to_proto(x);
    let spec = p.spec;
    p.spec = match spec {
        Some(mut s) => {
            s.project = pstr;
            Some(s)
        },
        None => None,
    };
    proof {
        assert(feature_service_to_rel(f, p));
    }
    p
}

/// Applies a feature service to a project: its message replaces the one kept under
/// its name in the project, or is added.
pub fn apply_feature_service(reg: &mut RegistryMessage, x: &FeatureService, project: &str)
    ensures
        exists|m: proto::FeatureService|
            is_feature_service_message(m, *x, project@) && m.key() == Some((x.name@, project@))
                && final(reg).feature_services@ == put_spec(old(reg).feature_services@, m, x.name@, project@),
        final(reg).entities@ == old(reg).entities@,
        final(reg).feature_views@ == old(reg).feature_views@,
        final(reg).data_sources@ == old(reg).data_sources@,
        final(reg).on_demand_feature_views@ == old(reg).on_demand_feature_views@,
        registry_readable(*old(reg)) ==> registry_readable(*final(reg)),
{
    let m = feature_service_message(x, project);
    put_item(&mut reg.feature_services, m, x.name.as_str(), project);
}

/// The feature service kept under a name in a project, if any.
pub fn get_feature_service(reg: &RegistryMessage, name: &str, project: &str) -> (r: Option<FeatureService>)
    ensures
        match first_match(reg.feature_services@, name@, project@) {
            Some(i) => r matches Some(x) && feature_service_from_rel(reg.feature_services@[i], x),
            None => r is None,
        },
{
    proof {
        lemma_first_match_props(reg.feature_services@, name@, project@);
    }
    match find_item(&reg.feature_services, name, project) {
        Some(i) => Some(feature_service_from_proto(&reg.feature_services[i])),
        None => None,
    }
}

/// The feature services of a project, in the order they are kept.
pub fn list_feature_services(reg: &RegistryMessage, project: &str) -> (r: Vec<FeatureService>)
    ensures
        r@.len() == reg.feature_services@.filter(of_project::<proto::FeatureService>(project@)).len(),
        forall|i: int|
            0 <= i < r@.len() ==> feature_service_from_rel(
                reg.feature_services@.filter(of_project::<proto::FeatureService>(project@))[i],
                #[trigger] r@[i],
            ),
{
    let ghost all = reg.feature_services@;
    let ghost f = of_project::<proto::FeatureService>(project@);
    let n = reg.feature_services.len();
    let mut out: Vec<FeatureService> = Vec::new();
    let mut i: usize = 0;
    while i < n
        invariant
            n == all.len(),
            all == reg.feature_services@,
            f == of_project::<proto::FeatureService>(project@),
            i <= n,
            out@.len() == all.take(i as int).filter(f).len(),
            forall|j: int| 0 <= j < out@.len() ==> feature_service_from_rel(all.take(i as int).filter(f)[j], #[trigger] out@[j]),
        decreases n - i,
    {
        proof {
            assert(all.take(i + 1) =~= all.take(i as int).push(all[i as int]));
            all.take(i as int).lemma_filter_push(all[i as int], of_project::<proto::FeatureService>(project@));
        }
        if reg.feature_services[i].in_project(project) {
            let v = feature_service_from_proto(&reg.feature_services[i]);
            out.push(v);
        }
        i = i + 1;
    }
    proof {
        assert(all.take(n as int) =~= all);
    }
    out
}

/// Deletes the feature services kept under a name in a project.
pub fn delete_feature_service(reg: &mut RegistryMessage, name: &str, project: &str)
    ensures
        final(reg).feature_services@ == old(reg).feature_services@.filter(not_keyed_as::<proto::FeatureService>(name@, project@)),
        final(reg).entities@ == old(reg).entities@,
        final(reg).feature_views@ == old(reg).feature_views@,
        final(reg).data_sources@ == old(reg).data_sources@,
        final(reg).on_demand_feature_views@ == old(reg).on_demand_feature_views@,
        registry_readable(*old(reg)) ==> registry_readable(*final(reg)),
{
    remove_items(&mut reg.feature_services, name, project);
}

/// What is applied is what is read back: after a feature service is applied to a
/// project, the feature service read under its name there holds the same values as
/// the applied one with its project set, for every feature service that a write and
/// a read keep.
pub proof fn lemma_feature_service_apply_then_get(
    before: Seq<proto::FeatureService>,
    after: Seq<proto::FeatureService>,
    x: FeatureService,
    project: Seq<char>,
    got: FeatureService,
)
    requires
        feature_service_canonical(x),
        exists|m: proto::FeatureService|
            is_feature_service_message(m, x, project) && m.key() == Some((x.name@, project))
                && after == put_spec(before, m, x.name@, project),
        first_match(after, x.name@, project) matches Some(i) && feature_service_from_rel(after[i], got),
    ensures
        exists|s: String| s@ == project && same_feature_service(FeatureService { project: s, ..x }, got),
{
    let m = choose|m: proto::FeatureService|
        is_feature_service_message(m, x, project) && m.key() == Some((x.name@, project)) && after == put_spec(
            before,
            m,
            x.name@,
            project,
        );
    lemma_put_then_find(before, m, x.name@, project);
    let s = choose|s: String| s@ == project && feature_service_to_rel(FeatureService { project: s, ..x }, m);
    crate::conversion::lemma_feature_service_roundtrip(FeatureService { project: s, ..x }, m, got);
}

// ---------------------------------------------------------------------------
// Data sources
// ---------------------------------------------------------------------------

/// The message of a data source as applied to a project: the message of the
/// data source with its project set.
pub open spec fn is_data_source_message(p: proto::DataSource, x: DataSource, project: Seq<char>) -> bool {
    exists|s: String| s@ == project && data_source_to_rel(DataSource { project: s, ..x }, p)
}

fn data_source_message(x: &DataSource, project: &str) -> (r: proto::DataSource)
    ensures
        is_data_source_message(r, *x, project@),
        r.key() == Some((x.name@, project@)),
{
    let pstr = String::from_str(project);
    let ghost f = DataSource { project: pstr, ..*x };
    let mut p = data_source_to_proto(x);
    p.project = pstr;
    proof {
        assert(data_source_to_rel(f, p));
    }
    p
}

/// Applies a data source to a project: its message replaces the one kept under
/// its name in the project, or is added.
pub fn apply_data_source(reg: &mut RegistryMessage, x: &DataSource, project: &str)
    ensures
        exists|m: proto::DataSource|
            is_data_source_message(m, *x, project@) && m.key() == Some((x.name@, project@))
                && final(reg).data_sources@ == put_spec(old(reg).data_sources@, m, x.name@, project@),
        final(reg).entities@ == old(reg).entities@,
        final(reg).feature_views@ == old(reg).feature_views@,
        final(reg).on_demand_feature_views@ == old(reg).on_demand_feature_views@,
        final(reg).feature_services@ == old(reg).feature_services@,
        registry_readable(*old(reg)) ==> registry_readable(*final(reg)),
{
    let m = data_source_message(x, project);
    put_item(&mut reg.data_sources, m, x.name.as_str(), project);
}

/// The data source kept under a name in a project, if any.
pub fn get_data_source(reg: &RegistryMessage, name: &str, project: &str) -> (r: Option<DataSource>)
    ensures
        match first_match(reg.data_sources@, name@, project@) {
            Some(i) => r matches Some(x) && data_source_from_rel(reg.data_sources@[i], x),
            None => r is None,
        },
{
    proof {
        lemma_first_match_props(reg.data_sources@, name@, project@);
    }
    match find_item(&reg.data_sources, name, project) {
        Some(i) => Some(data_source_from_proto(&reg.data_sources[i])),
        None => None,
    }
}

/// The data sources of a project, in the order they are kept.
pub fn list_data_sources(reg: &RegistryMessage, project: &str) -> (r: Vec<DataSource>)
    ensures
        r@.len() == reg.data_sources@.filter(of_project::<proto::DataSource>(project@)).len(),
        forall|i: int|
            0 <= i < r@.len() ==> data_source_from_rel(
                reg.data_sources@.filter(of_project::<proto::DataSource>(project@))[i],
                #[trigger] r@[i],
            ),
{
    let ghost all = reg.data_sources@;
    let ghost f = of_project::<proto::DataSource>(project@);
    let n = reg.data_sources.len();
    let mut out: Vec<DataSource> = Vec::new();
    let mut i: usize = 0;
    while i < n
        invariant
            n == all.len(),
            all == reg.data_sources@,
            f == of_project::<proto::DataSource>(project@),
            i <= n,
            out@.len() == all.take(i as int).filter(f).len(),
            forall|j: int| 0 <= j < out@.len() ==> data_source_from_rel(all.take(i as int).filter(f)[j], #[trigger] out@[j]),
        decreases n - i,
    {
        proof {
            assert(all.take(i + 1) =~= all.take(i as int).push(all[i as int]));
            all.take(i as int).lemma_filter_push(all[i as int], of_project::<proto::DataSource>(project@));
        }
        if reg.data_sources[i].in_project(project) {
            let v = data_source_from_proto(&reg.data_sources[i]);
            out.push(v);
        }
        i = i + 1;
    }
    proof {
        assert(all.take(n as int) =~= all);
    }
    out
}

/// Deletes the data sources kept under a name in a project.
pub fn delete_data_source(reg: &mut RegistryMessage, name: &str, project: &str)
    ensures
        final(reg).data_sources@ == old(reg).data_sources@.filter(not_keyed_as::<proto::DataSource>(name@, project@)),
        final(reg).entities@ == old(reg).entities@,
        final(reg).feature_views@ == old(reg).feature_views@,
        final(reg).on_demand_feature_views@ == old(reg).on_demand_feature_views@,
        final(reg).feature_services@ == old(reg).feature_services@,
        registry_readable(*old(reg)) ==> registry_readable(*final(reg)),
{
    remove_items(&mut reg.data_sources, name, project);
}

/// What is applied is what is read back: after a data source is applied to a
/// project, the data source read under its name there holds the same values as
/// the applied one with its project set, for every data source that a write and
/// a read keep.
pub proof fn lemma_data_source_apply_then_get(
    before: Seq<proto::DataSource>,
    after: Seq<proto::DataSource>,
    x: DataSource,
    project: Seq<char>,
    got: DataSource,
)
    requires
        data_source_canonical(x),
        exists|m: proto::DataSource|
            is_data_source_message(m, x, project) && m.key() == Some((x.name@, project))
                && after == put_spec(before, m, x.name@, project),
        first_match(after, x.name@, project) matches Some(i) && data_source_from_rel(after[i], got),
    ensures
        exists|s: String| s@ == project && same_data_source(DataSource { project: s, ..x }, got),
{
    let m = choose|m: proto::DataSource|
        is_data_source_message(m, x, project) && m.key() == Some((x.name@, project)) && after == put_spec(
            before,
            m,
            x.name@,
            project,
        );
    lemma_put_then_find(before, m, x.name@, project);
    let s = choose|s: String| s@ == project && data_source_to_rel(DataSource { project: s, ..x }, m);
    crate::conversion::lemma_data_source_roundtrip(DataSource { project: s, ..x }, m, got);
}

// ---------------------------------------------------------------------------
// On-demand feature views
// ---------------------------------------------------------------------------

/// The message of an on-demand feature view as applied to a project.
pub open spec fn is_odfv_message(p: proto::OnDemandFeatureView, x: OnDemandFeatureView, project: Seq<char>) -> bool {
    exists|s: String| s@ == project && odfv_to_rel(OnDemandFeatureView { project: s, ..x }, p)
}

fn odfv_message(x: &OnDemandFeatureView, project: &str) -> (r: proto::OnDemandFeatureView)
    ensures
        is_odfv_message(r, *x, project@),
        r.key() == Some((x.name@, project@)),
{
    let pstr = String::from_str(project);
    let ghost f = OnDemandFeatureView { project: pstr, ..*x };
    let mut p = odfv_to_proto(x);
    let spec = p.spec;
    p.spec = match spec {
        Some(mut s) => {
            s.project = pstr;
            Some(s)
        },
        None => None,
    };
    proof {
        assert(odfv_to_rel(f, p));
    }
    p
}

/// Applies an on-demand feature view to a project: its message replaces
/// the one kept under its name in the project, or is added.
pub fn apply_on_demand_feature_view(reg: &mut RegistryMessage, x: &OnDemandFeatureView, project: &str)
    ensures
        exists|m: proto::OnDemandFeatureView|
            is_odfv_message(m, *x, project@) && m.key() == Some((x.name@, project@))
                && final(reg).on_demand_feature_views@ == put_spec(
                old(reg).on_demand_feature_views@,
                m,
                x.name@,
                project@,
            ),
        final(reg).entities@ == old(reg).entities@,
        final(reg).feature_views@ == old(reg).feature_views@,
        final(reg).data_sources@ == old(reg).data_sources@,
        final(reg).feature_services@ == old(reg).feature_services@,
{
    let m = odfv_message(x, project);
    put_item(&mut reg.on_demand_feature_views, m, x.name.as_str(), project);
}

/// The on-demand feature views of a project, in the order they are kept.
pub fn list_on_demand_feature_views(reg: &RegistryMessage, project: &str) -> (r: Vec<OnDemandFeatureView>)
    requires
        registry_readable(*reg),
    ensures
        r@.len() == reg.on_demand_feature_views@.filter(of_project::<proto::OnDemandFeatureView>(project@)).len(),
        forall|i: int|
            0 <= i < r@.len() ==> odfv_from_rel(
                reg.on_demand_feature_views@.filter(of_project::<proto::OnDemandFeatureView>(project@))[i],
                #[trigger] r@[i],
            ),
{
    let ghost all = reg.on_demand_feature_views@;
    let ghost f = of_project::<proto::OnDemandFeatureView>(project@);
    let n = reg.on_demand_feature_views.len();
    let mut out: Vec<OnDemandFeatureView> = Vec::new();
    let mut i: usize = 0;
    while i < n
        invariant
            n == all.len(),
            all == reg.on_demand_feature_views@,
            registry_readable(*reg),
            f == of_project::<proto::OnDemandFeatureView>(project@),
            i <= n,
            out@.len() == all.take(i as int).filter(f).len(),
            forall|j: int| 0 <= j < out@.len() ==> odfv_from_rel(all.take(i as int).filter(f)[j], #[trigger] out@[j]),
        decreases n - i,
    {
        proof {
            assert(all.take(i + 1) =~= all.take(i as int).push(all[i as int]));
            all.take(i as int).lemma_filter_push(all[i as int], of_project::<proto::OnDemandFeatureView>(project@));
        }
        if reg.on_demand_feature_views[i].in_project(project) {
            let v = odfv_from_proto(&reg.on_demand_feature_views[i]);
            out.push(v);
        }
        i = i + 1;
    }
    proof {
        assert(all.take(n as int) =~= all);
    }
    out
}

// ---------------------------------------------------------------------------
// Materialization intervals
// ---------------------------------------------------------------------------

/// The interval message of a span of time.
pub open spec fn interval_message(start: UtcDateTime, end: UtcDateTime) -> proto::MaterializationInterval {
    proto::MaterializationInterval {
        start_time: Some(proto::Timestamp { seconds: start.secs, nanos: start.nanos as i32 }),
        end_time: Some(proto::Timestamp { seconds: end.secs, nanos: end.nanos as i32 }),
    }
}

/// Whether two interval messages have the same start and end.
pub open spec fn same_interval(a: proto::MaterializationInterval, b: proto::MaterializationInterval) -> bool {
    a.start_time == b.start_time && a.end_time == b.end_time
}

/// The intervals with `iv` added, unless one with the same start and end is
/// already there.
pub open spec fn add_interval(ivs: Seq<proto::MaterializationInterval>, iv: proto::MaterializationInterval) -> Seq<
    proto::MaterializationInterval,
> {
    if exists|j: int| 0 <= j < ivs.len() && same_interval(ivs[j], iv) {
        ivs
    } else {
        ivs.push(iv)
    }
}

/// The feature view message with the interval recorded: its metadata (or
/// the default metadata) with the interval added.
pub open spec fn records_interval(after: proto::FeatureView, before: proto::FeatureView, iv: proto::MaterializationInterval) -> bool {
    &&& after.spec == before.spec
    &&& after.meta matches Some(m) && match before.meta {
        Some(old_m) => {
            &&& m.created_timestamp == old_m.created_timestamp
            &&& m.last_updated_timestamp == old_m.last_updated_timestamp
            &&& m.current_version_number == old_m.current_version_number
            &&& m.version_id == old_m.version_id
            &&& m.state == old_m.state
            &&& m.materialization_intervals@ == add_interval(old_m.materialization_intervals@, iv)
        },
        None => {
            &&& m.created_timestamp is None
            &&& m.last_updated_timestamp is None
            &&& m.current_version_number == 1
            &&& m.version_id@.len() == 0
            &&& m.state == 0
            &&& m.materialization_intervals@ == seq![iv]
        },
    }
}

fn interval_present(ivs: &Vec<proto::MaterializationInterval>, iv: &proto::MaterializationInterval) -> (r: bool)
    ensures
        r == exists|j: int| 0 <= j < ivs@.len() && same_interval(ivs@[j], *iv),
{
    let n = ivs.len();
    let mut i: usize = 0;
    while i < n
        invariant
            n == ivs@.len(),
            i <= n,
            forall|j: int| 0 <= j < i ==> !same_interval(ivs@[j], *iv),
        decreases n - i,
    {
        let a = ivs[i];
        let same_start = match (a.start_time, iv.start_time) {
            (Some(x), Some(y)) => x.seconds == y.seconds && x.nanos == y.nanos,
            (None, None) => true,
            _ => false,
        };
        let same_end = match (a.end_time, iv.end_time) {
            (Some(x), Some(y)) => x.seconds == y.seconds && x.nanos == y.nanos,
            (None, None) => true,
            _ => false,
        };
        if same_start && same_end {
            return true;
        }
        i = i + 1;
    }
    false
}

/// Records that a feature view was materialized from `start` to `end`: the
/// feature view kept under the name in the project gets the interval added
/// to its metadata (unless it is there already); without such a feature
/// view nothing changes.
pub fn apply_materialization(reg: &mut RegistryMessage, fv_name: &str, project: &str, start: UtcDateTime, end: UtcDateTime)
    ensures
        final(reg).feature_views@.len() == old(reg).feature_views@.len(),
        match first_match(old(reg).feature_views@, fv_name@, project@) {
            Some(i) => {
                &&& records_interval(final(reg).feature_views@[i], old(reg).feature_views@[i], interval_message(start, end))
                &&& forall|j: int| 0 <= j < old(reg).feature_views@.len() && j != i ==> final(reg).feature_views@[j] == old(reg).feature_views@[j]
            },
            None => final(reg).feature_views@ == old(reg).feature_views@,
        },
        registry_readable(*old(reg)) ==> registry_readable(*final(reg)),
        final(reg).entities@ == old(reg).entities@,
        final(reg).data_sources@ == old(reg).data_sources@,
        final(reg).on_demand_feature_views@ == old(reg).on_demand_feature_views@,
        final(reg).feature_services@ == old(reg).feature_services@,
{
    proof {
        lemma_first_match_props(reg.feature_views@, fv_name@, project@);
    }
    match find_item(&reg.feature_views, fv_name, project) {
        None => {},
        Some(i) => {
            let iv = proto::MaterializationInterval {
                start_time: Some(proto::Timestamp { seconds: start.secs, nanos: start.nanos as i32 }),
                end_time: Some(proto::Timestamp { seconds: end.secs, nanos: end.nanos as i32 }),
            };
            let mut fv = reg.feature_views.remove(i);
            let ghost before = fv;
            let meta_opt = fv.meta;
            let mut meta = match meta_opt {
                Some(m) => m,
                None => proto::FeatureViewMeta {
                    created_timestamp: None,
                    last_updated_timestamp: None,
                    materialization_intervals: Vec::new(),
                    current_version_number: 1,
                    version_id: String::new(),
                    state: 0,
                },
            };
            if !interval_present(&meta.materialization_intervals, &iv) {
                meta.materialization_intervals.push(iv);
            }
            fv.meta = Some(meta);
            proof {
                assert(records_interval(fv, before, interval_message(start, end)));
                assert(fv.spec == before.spec);
            }
            reg.feature_views.insert(i, fv);
            proof {
                assert forall|j: int| 0 <= j < old(reg).feature_views@.len() && j != i implies reg.feature_views@[j] == old(reg).feature_views@[j] by {}
            }
        },
    }
}

/// The materialization intervals of the feature view kept under a name in
/// a project (none without such a feature view or its metadata), leaving out
/// those whose times cannot be read.
pub fn get_materialization_intervals(reg: &RegistryMessage, fv_name: &str, project: &str) -> (r: Vec<(UtcDateTime, UtcDateTime)>)
    ensures
        r@ == match first_match(reg.feature_views@, fv_name@, project@) {
            Some(i) => match reg.feature_views@[i].meta {
                Some(m) => intervals_from_spec(m.materialization_intervals@),
                None => Seq::empty(),
            },
            None => Seq::empty(),
        },
{
    proof {
        lemma_first_match_props(reg.feature_views@, fv_name@, project@);
    }
    match find_item(&reg.feature_views, fv_name, project) {
        Some(i) => match &reg.feature_views[i].meta {
            Some(m) => intervals_from_proto(&m.materialization_intervals),
            None => Vec::new(),
        },
        None => Vec::new(),
    }
}

/// The start of an interval message as (seconds, nanoseconds), with a
/// missing start read as zero.
pub open spec fn start_key(iv: proto::MaterializationInterval) -> (i64, i32) {
    match iv.start_time {
        Some(t) => (t.seconds, t.nanos),
        None => (0, 0),
    }
}

/// Whether an interval message starts at none of the given starts.
pub open spec fn start_not_in(starts: Seq<(i64, i32)>) -> spec_fn(proto::MaterializationInterval) -> bool {
    |iv: proto::MaterializationInterval| !starts.contains(start_key(iv))
}

/// The starts of spans as (seconds, nanoseconds).
pub open spec fn span_starts(spans: Seq<(UtcDateTime, UtcDateTime)>) -> Seq<(i64, i32)> {
    spans.map_values(|s: (UtcDateTime, UtcDateTime)| (s.0.secs, s.0.nanos as i32))
}

/// Removes from the feature view kept under a name in a project every
/// interval that starts where one of the given spans starts (the feature
/// view gets default metadata when it has none); without such a feature
/// view nothing changes.
pub fn remove_materialization_intervals(
    reg: &mut RegistryMessage,
    fv_name: &str,
    project: &str,
    spans: &Vec<(UtcDateTime, UtcDateTime)>,
)
    ensures
        final(reg).feature_views@.len() == old(reg).feature_views@.len(),
        match first_match(old(reg).feature_views@, fv_name@, project@) {
            Some(i) => {
                &&& final(reg).feature_views@[i].spec == old(reg).feature_views@[i].spec
                &&& final(reg).feature_views@[i].meta matches Some(m) && m.materialization_intervals@ == match old(reg).feature_views@[i].meta {
                    Some(om) => om.materialization_intervals@.filter(start_not_in(span_starts(spans@))),
                    None => Seq::empty(),
                }
                &&& forall|j: int| 0 <= j < old(reg).feature_views@.len() && j != i ==> final(reg).feature_views@[j] == old(reg).feature_views@[j]
            },
            None => final(reg).feature_views@ == old(reg).feature_views@,
        },
        registry_readable(*old(reg)) ==> registry_readable(*final(reg)),
        final(reg).entities@ == old(reg).entities@,
        final(reg).data_sources@ == old(reg).data_sources@,
        final(reg).on_demand_feature_views@ == old(reg).on_demand_feature_views@,
        final(reg).feature_services@ == old(reg).feature_services@,
{
    proof {
        lemma_first_match_props(reg.feature_views@, fv_name@, project@);
    }
    let mut starts: Vec<(i64, i32)> = Vec::new();
    let k = spans.len();
    let mut t: usize = 0;
    while t < k
        invariant
            k == spans@.len(),
            t <= k,
            starts@ == span_starts(spans@.take(t as int)),
        decreases k - t,
    {
        starts.push((spans[t].0.secs, spans[t].0.nanos as i32));
        t = t + 1;
        proof {
            assert(span_starts(spans@.take(t as int)) =~= span_starts(spans@.take(t - 1)).push(
                (spans@[t - 1].0.secs, spans@[t - 1].0.nanos as i32),
            ));
        }
    }
    proof {
        assert(spans@.take(k as int) =~= spans@);
    }
    match find_item(&reg.feature_views, fv_name, project) {
        None => {},
        Some(i) => {
            let mut fv = reg.feature_views.remove(i);
            let ghost before = fv;
            let meta_opt = fv.meta;
            let mut meta = match meta_opt {
                Some(m) => m,
                None => proto::FeatureViewMeta {
                    created_timestamp: None,
                    last_updated_timestamp: None,
                    materialization_intervals: Vec::new(),
                    current_version_number: 1,
                    version_id: String::new(),
                    state: 0,
                },
            };
            let ghost all = meta.materialization_intervals@;
            let mut rest: Vec<proto::MaterializationInterval> = Vec::new();
            std::mem::swap(&mut rest, &mut meta.materialization_intervals);
            let n = rest.len();
            let mut j: usize = 0;
            while j < n
                invariant
                    n == all.len(),
                    j <= n,
                    rest@ == all,
                    starts@ == span_starts(spans@),
                    meta.materialization_intervals@ == all.take(j as int).filter(start_not_in(span_starts(spans@))),
                decreases n - j,
            {
                let iv = rest[j];
                proof {
                    assert(all.take(j + 1) =~= all.take(j as int).push(all[j as int]));
                    all.take(j as int).lemma_filter_push(all[j as int], start_not_in(span_starts(spans@)));
                }
                let key: (i64, i32) = match iv.start_time {
                    Some(ts) => (ts.seconds, ts.nanos),
                    None => (0, 0),
                };
                let mut found = false;
                let mut q: usize = 0;
                while q < starts.len()
                    invariant
                        q <= starts@.len(),
                        found == exists|w: int| 0 <= w < q && starts@[w] == key,
                    decreases starts@.len() - q,
                {
                    if starts[q].0 == key.0 && starts[q].1 == key.1 {
                        found = true;
                    }
                    q = q + 1;
                }
                proof {
                    assert(key == start_key(iv));
                    assert(found == starts@.contains(key));
                }
                if !found {
                    meta.materialization_intervals.push(iv);
                }
                j = j + 1;
            }
            proof {
                assert(all.take(n as int) =~= all);
            }
            fv.meta = Some(meta);
            proof {
                assert(fv.spec == before.spec);
            }
            reg.feature_views.insert(i, fv);
            proof {
                assert forall|w: int| 0 <= w < old(reg).feature_views@.len() && w != i implies reg.feature_views@[w] == old(reg).feature_views@[w] by {}
            }
        },
    }
}

} // verus!

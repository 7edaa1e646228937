use std::borrow::Cow;

use vstd::prelude::*;

use super::decoded::DecodedEntity;
use super::entity::{global_entity, remove_from_list, Entity, EntityView};
use super::keyword::{EntityKeyword, EntityKeywords};
use super::visibility::{visibility_of, EntityVisibility};
use crate::node::EntityDefinition;
use crate::parse::decoder::{decode_entity_with, decoded_view, Decoder};
use crate::parse::error::Error;
use crate::parse::error_kind::ErrorKind;
use crate::text::{char_len, str_eq};

verus! {

/// The map that a list of distinct-keyed entries stands for.
pub open spec fn entries_map(s: Seq<(String, Entity)>) -> Map<Seq<char>, EntityView>
    decreases s.len(),
{
    if s.len() == 0 {
        Map::empty()
    } else {
        entries_map(s.drop_last()).insert(s.last().0@, s.last().1@)
    }
}

/// No two entries share a name.
pub open spec fn keys_unique(s: Seq<(String, Entity)>) -> bool {
    forall|i: int, j: int| 0 <= i < s.len() && 0 <= j < s.len() && i != j ==> s[i].0@ != s[j].0@
}

proof fn lemma_entries_map_absent(s: Seq<(String, Entity)>, k: Seq<char>)
    requires
        forall|i: int| 0 <= i < s.len() ==> s[i].0@ != k,
    ensures
        !entries_map(s).contains_key(k),
    decreases s.len(),
{
    if s.len() > 0 {
        lemma_entries_map_absent(s.drop_last(), k);
    }
}

proof fn lemma_entries_map_index(s: Seq<(String, Entity)>, i: int)
    requires
        keys_unique(s),
        0 <= i < s.len(),
    ensures
        entries_map(s).contains_key(s[i].0@),
        entries_map(s)[s[i].0@] == s[i].1@,
    decreases s.len(),
{
    if i < s.len() - 1 {
        lemma_entries_map_index(s.drop_last(), i);
    }
}

proof fn lemma_entries_map_finite(s: Seq<(String, Entity)>)
    requires
        keys_unique(s),
    ensures
        entries_map(s).dom().finite(),
        entries_map(s).len() == s.len(),
    decreases s.len(),
{
    if s.len() > 0 {
        lemma_entries_map_finite(s.drop_last());
        lemma_entries_map_absent(s.drop_last(), s.last().0@);
    }
}

proof fn lemma_entries_map_update(s: Seq<(String, Entity)>, i: int, e: (String, Entity))
    requires
        keys_unique(s),
        0 <= i < s.len(),
        e.0@ == s[i].0@,
    ensures
        entries_map(s.update(i, e)) == entries_map(s).insert(e.0@, e.1@),
        keys_unique(s.update(i, e)),
    decreases s.len(),
{
    let t = s.update(i, e);
    if i == s.len() - 1 {
        assert(t.drop_last() =~= s.drop_last());
        lemma_entries_map_absent(s.drop_last(), e.0@);
        assert(entries_map(t) =~= entries_map(s).insert(e.0@, e.1@));
    } else {
        assert(t.drop_last() =~= s.drop_last().update(i, e));
        lemma_entries_map_update(s.drop_last(), i, e);
        assert(entries_map(t) =~= entries_map(s).insert(e.0@, e.1@));
    }
}

proof fn lemma_entries_map_remove(s: Seq<(String, Entity)>, i: int)
    requires
        keys_unique(s),
        0 <= i < s.len(),
    ensures
        entries_map(s.remove(i)) == entries_map(s).remove(s[i].0@),
        keys_unique(s.remove(i)),
    decreases s.len(),
{
    let t = s.remove(i);
    if i == s.len() - 1 {
        assert(t =~= s.drop_last());
        lemma_entries_map_absent(s.drop_last(), s[i].0@);
        assert(entries_map(t) =~= entries_map(s).remove(s[i].0@));
    } else {
        assert(t.drop_last() =~= s.drop_last().remove(i));
        assert(t.last() == s.last());
        lemma_entries_map_remove(s.drop_last(), i);
        assert(entries_map(t) =~= entries_map(s).remove(s[i].0@));
    }
}

/// A name is global for a map: a numeric entity, or a global XML entity when the map holds them.
pub open spec fn is_global_name(globals: bool, name: Seq<char>) -> bool {
    (name.len() > 0 && name[0] == '#') || (globals && global_entity(name) is Some)
}

/// The visibility of an entity after a definition with keywords `kw` applied to it.
pub open spec fn with_visibility(e: EntityView, kw: EntityKeywords) -> EntityView {
    if visibility_of(kw) != EntityVisibility::Default {
        EntityView { visibility: visibility_of(kw), ..e }
    } else {
        e
    }
}

/// The entity that a definition leaves under its name, when one stays.
pub open spec fn defined_entity(old: Option<EntityView>, value: Seq<char>, desc: Option<Seq<char>>, kw: EntityKeywords) -> EntityView {
    match old {
        None => EntityView {
            value: value,
            visibility: visibility_of(kw),
            description: match desc {
                Some(d) => d,
                None => Seq::empty(),
            },
        },
        Some(e) => if kw.has(EntityKeyword::Remove) {
            with_visibility(EntityView { value: remove_from_list(e.value, value), ..e }, kw)
        } else if kw.has(EntityKeyword::Add) {
            with_visibility(EntityView { value: e.value + seq!['|'] + value, ..e }, kw)
        } else {
            with_visibility(
                EntityView {
                    value: value,
                    description: match desc {
                        Some(d) => d,
                        None => e.description,
                    },
                    ..e
                },
                kw,
            )
        },
    }
}

/// Whether a definition removes the entity of its name from a map holding `old` there.
pub open spec fn definition_removes(old: Option<EntityView>, value: Seq<char>, kw: EntityKeywords) -> bool {
    kw.has(EntityKeyword::Delete) || (kw.has(EntityKeyword::Remove) && match old {
        Some(e) => e.value == value,
        None => false,
    })
}

/// The map after a definition is applied.
pub open spec fn define_map(m: Map<Seq<char>, EntityView>, globals: bool, name: Seq<char>, value: Seq<char>, desc: Option<Seq<char>>, kw: EntityKeywords) -> Map<Seq<char>, EntityView> {
    let old = if m.contains_key(name) { Some(m[name]) } else { None };
    if is_global_name(globals, name) {
        m
    } else if definition_removes(old, value, kw) {
        m.remove(name)
    } else if old is None && kw.has(EntityKeyword::Remove) {
        m
    } else {
        m.insert(name, defined_entity(old, value, desc, kw))
    }
}

/// What a definition returns: the entity it defined or removed, or `None` when no entity was
/// involved.
pub open spec fn define_result(m: Map<Seq<char>, EntityView>, globals: bool, name: Seq<char>, value: Seq<char>, desc: Option<Seq<char>>, kw: EntityKeywords) -> Result<Option<EntityView>, (ErrorKind, Seq<char>)> {
    let old = if m.contains_key(name) { Some(m[name]) } else { None };
    if is_global_name(globals, name) {
        Err((ErrorKind::CannotRedefineGlobalEntity, name))
    } else if kw.has(EntityKeyword::Delete) {
        match old {
            None => Ok(None),
            Some(e) => Ok(Some(with_visibility(e, kw))),
        }
    } else if definition_removes(old, value, kw) {
        Ok(Some(with_visibility(EntityView { value: Seq::empty(), ..old.unwrap() }, kw)))
    } else if old is None && kw.has(EntityKeyword::Remove) {
        Ok(None)
    } else {
        Ok(Some(defined_entity(old, value, desc, kw)))
    }
}

/// Spec view of a definition's result.
pub open spec fn defined_view<'a>(r: Result<Option<Cow<'a, Entity>>, Error>) -> Result<Option<EntityView>, (ErrorKind, Seq<char>)> {
    match r {
        Ok(Some(c)) => Ok(Some(c@)),
        Ok(None) => Ok(None),
        Err(e) => Err(e@),
    }
}

/// The entity value that decoding finds for a name in a map of custom entities: a global
/// entity first, when global entities are recognized, then a custom entity of any visibility.
pub open spec fn entity_lookup(globals: bool, m: Map<Seq<char>, EntityView>, name: Seq<char>) -> Option<Seq<char>> {
    if globals && global_entity(name) is Some {
        global_entity(name)
    } else if m.contains_key(name) {
        Some(m[name].value)
    } else {
        None
    }
}

/// Information about a published entity. Created by [`EntityMap::published`].
#[derive(Copy, Clone, Debug, Default, PartialEq, Eq)]
pub struct EntityInfo<'a> {
    /// Entity name.
    pub name: &'a str,
    /// Entity description.
    pub description: &'a str,
    /// Current value of the entity, as defined by the server.
    pub value: &'a str,
}

/// A client-visible view of an entity. Created from the result of [`EntityMap::define`].
#[derive(Copy, Clone, Debug, PartialEq, Eq)]
pub struct EntityEntry<'a> {
    /// Borrowed entity value, or `None` if the entity was removed.
    pub value: Option<&'a str>,
    /// If `true`, the entity's visibility is [`EntityVisibility::Publish`].
    pub publish: bool,
}

impl<'a> EntityEntry<'a> {
    /// The entry for the result of a definition: `None` when no entity or a private one;
    /// the value only while the entity is still held by the map.
    pub fn new(entity: Option<Cow<'a, Entity>>) -> (r: Option<Self>)
        ensures
            r is Some <==> (entity matches Some(e) && e@.visibility != EntityVisibility::Private),
            r matches Some(en) ==> {
                let e = entity.unwrap();
                &&& en.publish == (e@.visibility == EntityVisibility::Publish)
                &&& (e matches Cow::Borrowed(b) ==> en.value matches Some(v) && v@ == b@.value)
                &&& (e is Owned ==> en.value is None)
            },
    {
        let entity = match entity {
            Some(e) => e,
            None => return None,
        };
        match entity {
            Cow::Borrowed(e) => {
                if e.is_private() {
                    return None;
                }
                Some(EntityEntry { value: Some(e.value.as_str()), publish: e.is_published() })
            },
            Cow::Owned(e) => {
                if e.is_private() {
                    return None;
                }
                Some(EntityEntry { value: None, publish: e.is_published() })
            },
        }
    }
}

/// Stores all entities for the current environment, both MXP-defined entities and, when asked
/// for, the global XML entities.
#[derive(Debug)]
pub struct EntityMap {
    entries: Vec<(String, Entity)>,
    globals: bool,
}

impl View for EntityMap {
    type V = Map<Seq<char>, EntityView>;

    closed spec fn view(&self) -> Map<Seq<char>, EntityView> {
        entries_map(self.entries@)
    }
}

impl EntityMap {
    #[verifier::type_invariant]
    spec fn wf(self) -> bool {
        keys_unique(self.entries@)
    }

    /// Whether the map recognizes the global XML entities.
    pub closed spec fn has_globals(&self) -> bool {
        self.globals
    }

    /// The entity value that decoding finds for a name: a global entity first, when the map
    /// holds them, then a custom entity of any visibility.
    pub open spec fn lookup(&self, name: Seq<char>) -> Option<Seq<char>> {
        entity_lookup(self.has_globals(), self@, name)
    }

    proof fn lemma_view(&self)
        requires
            self.wf(),
        ensures
            self@.dom().finite(),
            self@.len() == self.entries@.len(),
            forall|i: int| #![trigger self.entries@[i]] 0 <= i < self.entries@.len() ==> self@.contains_key(self.entries@[i].0@) && self@[self.entries@[i].0@] == self.entries@[i].1@,
    {
        lemma_entries_map_finite(self.entries@);
        assert forall|i: int| #![trigger self.entries@[i]] 0 <= i < self.entries@.len() implies self@.contains_key(self.entries@[i].0@) && self@[self.entries@[i].0@] == self.entries@[i].1@ by {
            lemma_entries_map_index(self.entries@, i);
        }
    }

    /// Position of the entry for a name.
    fn find(&self, name: &str) -> (r: Option<usize>)
        ensures
            r matches Some(i) ==> i < self.entries@.len() && self.entries@[i as int].0@ == name@,
            r is None ==> !self@.contains_key(name@),
            r is Some <==> self@.contains_key(name@),
    {
        proof {
            use_type_invariant(self);
            self.lemma_view();
        }
        let mut i: usize = 0;
        while i < self.entries.len()
            invariant
                i <= self.entries@.len(),
                forall|j: int| 0 <= j < i ==> self.entries@[j].0@ != name@,
            decreases self.entries@.len() - i,
        {
            if str_eq(self.entries[i].0.as_str(), name) {
                proof {
                    use_type_invariant(self);
                    lemma_entries_map_index(self.entries@, i as int);
                }
                return Some(i);
            }
            i += 1;
        }
        proof {
            lemma_entries_map_absent(self.entries@, name@);
        }
        None
    }

    /// Constructs a new map with no predefined entities.
    pub fn new() -> (r: Self)
        ensures
            r@ == Map::<Seq<char>, EntityView>::empty(),
            !r.has_globals(),
    {
        EntityMap { entries: Vec::new(), globals: false }
    }

    /// Constructs a new map with all global XML entities predefined.
    pub fn with_globals() -> (r: Self)
        ensures
            r@ == Map::<Seq<char>, EntityView>::empty(),
            r.has_globals(),
    {
        EntityMap { entries: Vec::new(), globals: true }
    }

    /// Returns `true` if the map contains no custom entities.
    pub fn is_empty(&self) -> (r: bool)
        ensures
            self@.dom().finite(),
            r == (self@.len() == 0),
    {
        proof {
            use_type_invariant(self);
            self.lemma_view();
        }
        self.entries.len() == 0
    }

    /// Returns the number of custom entities in the map.
    pub fn len(&self) -> (r: usize)
        ensures
            self@.dom().finite(),
            r == self@.len(),
    {
        proof {
            use_type_invariant(self);
            self.lemma_view();
        }
        self.entries.len()
    }

    /// Clears all custom entities. Global entities are kept.
    pub fn clear(&mut self)
        ensures
            final(self)@ == Map::<Seq<char>, EntityView>::empty(),
            final(self).has_globals() == old(self).has_globals(),
    {
        self.entries = Vec::new();
    }

    /// Returns the entity stored under a name, whatever its visibility.
    pub fn entity(&self, name: &str) -> (r: Option<&Entity>)
        ensures
            r is Some <==> self@.contains_key(name@),
            r matches Some(e) ==> e@ == self@[name@],
    {
        proof {
            use_type_invariant(self);
            self.lemma_view();
        }
        match self.find(name) {
            Some(i) => Some(&self.entries[i].1),
            None => None,
        }
    }

    /// Decodes an entity by name.
    pub fn decode(&self, name: &str) -> (r: Result<DecodedEntity<'_>, Error>)
        ensures
            decoded_view(r) == decode_entity_with(|n: Seq<char>| self.lookup(n), name@),
    {
        self.decode_entity(name)
    }

    /// Returns `true` if `name` is a numeric entity, or a global XML entity when the map holds
    /// them.
    pub fn is_global(&self, name: &str) -> (r: bool)
        ensures
            r == is_global_name(self.has_globals(), name@),
    {
        if char_len(name) > 0 && name.get_char(0) == '#' {
            return true;
        }
        self.globals && Entity::global(name).is_some()
    }

    /// Fails if `name` is a global entity.
    pub fn guard_global(&self, name: &str) -> (r: Result<(), Error>)
        ensures
            r is Ok <==> !is_global_name(self.has_globals(), name@),
            r matches Err(e) ==> e@ == (ErrorKind::CannotRedefineGlobalEntity, name@),
    {
        if self.is_global(name) {
            return Err(Error::new(name, ErrorKind::CannotRedefineGlobalEntity));
        }
        Ok(())
    }

    /// Removes a key from the map, returning the entity at the key if the key was previously in
    /// the map. Returns an error if the key is a global entity, since those cannot be changed.
    pub fn remove(&mut self, name: &str) -> (r: Result<Option<Entity>, Error>)
        ensures
            final(self).has_globals() == old(self).has_globals(),
            is_global_name(old(self).has_globals(), name@) ==> {
                &&& r matches Err(e) && e@ == (ErrorKind::CannotRedefineGlobalEntity, name@)
                &&& final(self)@ == old(self)@
            },
            !is_global_name(old(self).has_globals(), name@) ==> {
                &&& r matches Ok(o)
                &&& (o is Some <==> old(self)@.contains_key(name@))
                &&& (o matches Some(e) ==> e@ == old(self)@[name@])
                &&& final(self)@ == old(self)@.remove(name@)
            },
    {
        self.guard_global(name)?;
        proof {
            use_type_invariant(&*self);
        }
        match self.find(name) {
            None => {
                assert(self@.remove(name@) =~= self@);
                Ok(None)
            },
            Some(i) => {
                proof {
                    lemma_entries_map_remove(self.entries@, i as int);
                    lemma_entries_map_index(self.entries@, i as int);
                }
                let mut entries = Vec::new();
                std::mem::swap(&mut entries, &mut self.entries);
                let (_, e) = entries.remove(i);
                self.entries = entries;
                Ok(Some(e))
            },
        }
    }

    /// Returns the value of a custom entity, or `None` if there is no entity with the specified
    /// name or the entity is private. Global entities are not queried.
    pub fn get(&self, name: &str) -> (r: Option<&str>)
        ensures
            r is Some <==> (self@.contains_key(name@) && self@[name@].visibility
                != EntityVisibility::Private),
            r matches Some(v) ==> v@ == self@[name@].value,
    {
        proof {
            use_type_invariant(self);
            self.lemma_view();
        }
        match self.find(name) {
            None => None,
            Some(i) => {
                let e = &self.entries[i].1;
                if e.is_private() {
                    return None;
                }
                Some(e.value.as_str())
            },
        }
    }

    /// Inserts a custom entity with default visibility and no description. Returns an error,
    /// and changes nothing, if the name is a global entity.
    pub fn insert(&mut self, name: String, value: String) -> (r: Result<(), Error>)
        ensures
            final(self).has_globals() == old(self).has_globals(),
            r is Ok <==> !is_global_name(old(self).has_globals(), name@),
            r matches Err(e) ==> e@ == (ErrorKind::CannotRedefineGlobalEntity, name@),
            r is Ok ==> final(self)@ == old(self)@.insert(
                name@,
                EntityView {
                    value: value@,
                    visibility: EntityVisibility::Default,
                    description: Seq::empty(),
                },
            ),
            r is Err ==> final(self)@ == old(self)@,
    {
        self.guard_global(name.as_str())?;
        let entity = Entity::new(value);
        self.put(name, entity);
        Ok(())
    }

    /// Stores an entity under a name, replacing the entity stored there before.
    fn put(&mut self, name: String, entity: Entity)
        ensures
            final(self).has_globals() == old(self).has_globals(),
            final(self)@ == old(self)@.insert(name@, entity@),
    {
        proof {
            use_type_invariant(&*self);
        }
        match self.find(name.as_str()) {
            Some(i) => {
                let ghost e = (name, entity);
                proof {
                    lemma_entries_map_update(self.entries@, i as int, e);
                }
                let mut entries = Vec::new();
                std::mem::swap(&mut entries, &mut self.entries);
                entries.remove(i);
                entries.insert(i, (name, entity));
                assert(entries@ =~= old(self).entries@.update(i as int, e));
                self.entries = entries;
            },
            None => {
                let ghost e = (name, entity);
                proof {
                    assert forall|j: int| 0 <= j < self.entries@.len() implies self.entries@[j].0@
                        != name@ by {
                        lemma_entries_map_index(self.entries@, j);
                    }
                }
                let mut entries = Vec::new();
                std::mem::swap(&mut entries, &mut self.entries);
                entries.push((name, entity));
                assert(entries@.drop_last() =~= old(self).entries@);
                self.entries = entries;
            },
        }
    }

    /// Lists the entities that the server marked PUBLISH.
    pub fn published(&self) -> (r: Vec<EntityInfo<'_>>)
        ensures
            forall|i: int| #![trigger r@[i]] 0 <= i < r@.len() ==> {
                &&& self@.contains_key(r@[i].name@)
                &&& self@[r@[i].name@].visibility == EntityVisibility::Publish
                &&& r@[i].value@ == self@[r@[i].name@].value
                &&& r@[i].description@ == self@[r@[i].name@].description
            },
            forall|k: Seq<char>| #![trigger self@[k]] self@.contains_key(k) && self@[k].visibility
                == EntityVisibility::Publish ==> exists|i: int| 0 <= i < r@.len() && r@[i].name@ == k,
            forall|i: int, j: int| 0 <= i < r@.len() && 0 <= j < r@.len() && i != j ==> r@[i].name@
                != r@[j].name@,
    {
        proof {
            use_type_invariant(self);
            self.lemma_view();
        }
        let mut out: Vec<EntityInfo<'_>> = Vec::new();
        let ghost mut idx: Seq<int> = Seq::empty();
        let mut i: usize = 0;
        while i < self.entries.len()
            invariant
                i <= self.entries@.len(),
                keys_unique(self.entries@),
                idx.len() == out@.len(),
                forall|a: int| 0 <= a < idx.len() ==> 0 <= #[trigger] idx[a] < i,
                forall|a: int, b: int| 0 <= a < b < idx.len() ==> idx[a] < idx[b],
                forall|a: int| #![trigger out@[a]] #![trigger idx[a]] 0 <= a < out@.len() ==> {
                    &&& out@[a].name@ == self.entries@[idx[a]].0@
                    &&& out@[a].value@ == self.entries@[idx[a]].1@.value
                    &&& out@[a].description@ == self.entries@[idx[a]].1@.description
                    &&& self.entries@[idx[a]].1@.visibility == EntityVisibility::Publish
                },
                forall|j: int| 0 <= j < i && #[trigger] self.entries@[j].1@.visibility
                    == EntityVisibility::Publish ==> exists|a: int| 0 <= a < idx.len() && idx[a] == j,
            decreases self.entries@.len() - i,
        {
            let (name, entity) = &self.entries[i];
            let ghost idx0 = idx;
            if entity.is_published() {
                let info = EntityInfo {
                    name: name.as_str(),
                    description: entity.description.as_str(),
                    value: entity.value.as_str(),
                };
                assert(info.name@ == self.entries@[i as int].0@);
                assert(info.value@ == self.entries@[i as int].1@.value);
                assert(info.description@ == self.entries@[i as int].1@.description);
                assert(self.entries@[i as int].1@.visibility == EntityVisibility::Publish);
                let ghost old_out = out@;
                let ghost old_idx = idx;
                out.push(info);
                proof {
                    idx = idx.push(i as int);
                    assert forall|a: int| #![trigger out@[a]] #![trigger idx[a]] 0 <= a < out@.len() implies {
                        &&& out@[a].name@ == self.entries@[idx[a]].0@
                        &&& out@[a].value@ == self.entries@[idx[a]].1@.value
                        &&& out@[a].description@ == self.entries@[idx[a]].1@.description
                        &&& self.entries@[idx[a]].1@.visibility == EntityVisibility::Publish
                    } by {
                        if a < old_out.len() {
                            assert(out@[a] == old_out[a]);
                            assert(idx[a] == old_idx[a]);
                        }
                    }
                    assert(idx[idx.len() - 1] == i);
                }
            }
            proof {
                assert forall|j: int| 0 <= j < i + 1 && #[trigger] self.entries@[j].1@.visibility
                    == EntityVisibility::Publish implies exists|a: int| 0 <= a < idx.len() && idx[a] == j by {
                    if j == i {
                        assert(idx[idx.len() - 1] == j);
                    } else {
                        let a = choose|a: int| 0 <= a < idx0.len() && idx0[a] == j;
                        assert(idx[a] == j);
                    }
                }
            }
            i += 1;
        }
        proof {
            assert forall|k: Seq<char>| #![trigger self@[k]] self@.contains_key(k) && self@[k].visibility
                == EntityVisibility::Publish implies exists|a: int| 0 <= a < out@.len() && out@[a].name@ == k by {
                if forall|j: int| 0 <= j < self.entries@.len() ==> self.entries@[j].0@ != k {
                    lemma_entries_map_absent(self.entries@, k);
                }
                let j = choose|j: int| 0 <= j < self.entries@.len() && self.entries@[j].0@ == k;
                assert(self.entries@[j].1@.visibility == EntityVisibility::Publish);
                let a = choose|a: int| 0 <= a < idx.len() && idx[a] == j;
                assert(out@[a].name@ == k);
            }
            assert forall|a: int, b: int| 0 <= a < out@.len() && 0 <= b < out@.len() && a != b
                implies out@[a].name@ != out@[b].name@ by {
                assert(idx[a] != idx[b]);
            }
        }
        out
    }

    /// Applies an entity definition's name, value, description and keywords. Depending on the
    /// keywords, this may insert, remove, update or replace an entity. Returns the entity defined
    /// (borrowed from the map) or removed (owned), `None` when there was no entity to act on, and
    /// an error if the name is a global entity.
    pub fn define<'a>(&'a mut self, definition: EntityDefinition) -> (r: Result<Option<Cow<'a, Entity>>, Error>)
        ensures
            final(self).has_globals() == old(self).has_globals(),
            final(self)@ == define_map(old(self)@, old(self).has_globals(), definition.name@,
                definition.value@, match definition.desc { Some(d) => Some(d@), None => None },
                definition.keywords),
            defined_view(r) == define_result(old(self)@, old(self).has_globals(), definition.name@,
                definition.value@, match definition.desc { Some(d) => Some(d@), None => None },
                definition.keywords),
            r matches Ok(Some(c)) ==> (c is Borrowed <==> final(self)@.contains_key(definition.name@)),
    {
        let EntityDefinition { name, value, desc, keywords } = definition;
        let ghost desc_v: Option<Seq<char>> = match desc { Some(d) => Some(d@), None => None };
        self.guard_global(name)?;
        proof {
            use_type_invariant(&*self);
            self.lemma_view();
        }
        let visibility = EntityVisibility::from_keywords(keywords);
        let is_default = match visibility {
            EntityVisibility::Default => true,
            _ => false,
        };
        if keywords.contains(EntityKeyword::Delete) {
            let removed = self.remove(name);
            return match removed {
                Ok(Some(mut entity)) => {
                    if !is_default {
                        entity.visibility = visibility;
                    }
                    Ok(Some(Cow::Owned(entity)))
                },
                _ => Ok(None),
            };
        }
        match self.find(name) {
            None => {
                if keywords.contains(EntityKeyword::Remove) {
                    return Ok(None);
                }
                let description = match desc {
                    Some(d) => d.to_owned(),
                    None => String::new(),
                };
                let entity = Entity { value: value.to_owned(), visibility, description };
                self.put(name.to_owned(), entity);
            },
            Some(i) => {
                proof {
                    lemma_entries_map_index(self.entries@, i as int);
                }
                let ghost old_e = self@[name@];
                if keywords.contains(EntityKeyword::Remove) && str_eq(self.entries[i].1.value.as_str(), value) {
                    let removed = self.remove(name);
                    return match removed {
                        Ok(Some(mut entity)) => {
                            entity.value = String::new();
                            if !is_default {
                                entity.visibility = visibility;
                            }
                            Ok(Some(Cow::Owned(entity)))
                        },
                        _ => Ok(None),
                    };
                }
                let mut entries = Vec::new();
                std::mem::swap(&mut entries, &mut self.entries);
                let (key, mut entity) = entries.remove(i);
                self.entries = entries;
                if keywords.contains(EntityKeyword::Remove) {
                    entity.remove(value);
                } else if keywords.contains(EntityKeyword::Add) {
                    entity.add(value);
                } else {
                    entity.value = value.to_owned();
                    match desc {
                        Some(d) => entity.description = d.to_owned(),
                        None => {},
                    }
                }
                if !is_default {
                    entity.visibility = visibility;
                }
                assert(entity@ == defined_entity(Some(old_e), value@, desc_v, keywords));
                proof {
                    lemma_entries_map_remove(old(self).entries@, i as int);
                }
                self.put(key, entity);
                assert(self@ =~= old(self)@.insert(name@, entity@));
            },
        }
        let this: &'a EntityMap = self;
        proof {
            use_type_invariant(this);
            this.lemma_view();
        }
        match this.find(name) {
            Some(j) => {
                assert(this.entries@[j as int].1@ == this@[name@]);
                Ok(Some(Cow::Borrowed(&this.entries[j].1)))
            },
            None => Ok(None),
        }
    }
}

impl Decoder for EntityMap {
    open spec fn entity_spec(&self, name: Seq<char>) -> Option<Seq<char>> {
        self.lookup(name)
    }

    fn get_entity(&self, name: &str) -> (r: Option<&str>) {
        if self.globals {
            if let Some(global) = Entity::global(name) {
                return Some(global);
            }
        }
        match self.entity(name) {
            Some(e) => Some(e.value.as_str()),
            None => None,
        }
    }
}

/// A definition never changes a global entity's name: the map stays as it was and the
/// definition fails.
pub proof fn law_globals_are_protected(
    m: Map<Seq<char>, EntityView>,
    globals: bool,
    name: Seq<char>,
    value: Seq<char>,
    desc: Option<Seq<char>>,
    kw: EntityKeywords,
)
    requires
        is_global_name(globals, name),
    ensures
        define_map(m, globals, name, value, desc, kw) == m,
        define_result(m, globals, name, value, desc, kw) is Err,
{
}

/// A plain definition (no keywords) of a new name holds the value, with default visibility,
/// afterwards.
pub proof fn law_define_then_lookup(
    m: Map<Seq<char>, EntityView>,
    globals: bool,
    name: Seq<char>,
    value: Seq<char>,
    desc: Option<Seq<char>>,
)
    requires
        !is_global_name(globals, name),
    ensures
        ({
            let kw = EntityKeywords { private: false, publish: false, delete: false, add: false, remove: false };
            let after = define_map(m, globals, name, value, desc, kw);
            &&& after.contains_key(name)
            &&& after[name].value == value
            &&& (!m.contains_key(name) ==> after[name].visibility == EntityVisibility::Default)
        }),
{
}

/// Deleting removes the entity of the name, and leaves every other entity as it was.
pub proof fn law_delete_removes(
    m: Map<Seq<char>, EntityView>,
    globals: bool,
    name: Seq<char>,
    value: Seq<char>,
    desc: Option<Seq<char>>,
    kw: EntityKeywords,
)
    requires
        !is_global_name(globals, name),
        kw.delete,
    ensures
        !define_map(m, globals, name, value, desc, kw).contains_key(name),
        forall|k: Seq<char>| k != name ==> (#[trigger] define_map(m, globals, name, value, desc, kw).contains_key(k)
            == m.contains_key(k)),
{
}

/// A definition changes only the entity of its own name.
pub proof fn law_define_is_local(
    m: Map<Seq<char>, EntityView>,
    globals: bool,
    name: Seq<char>,
    value: Seq<char>,
    desc: Option<Seq<char>>,
    kw: EntityKeywords,
    other: Seq<char>,
)
    requires
        other != name,
    ensures
        define_map(m, globals, name, value, desc, kw).contains_key(other) == m.contains_key(other),
        m.contains_key(other) ==> define_map(m, globals, name, value, desc, kw)[other] == m[other],
{
}

/// `ADD` appends the value to the existing list, separated by `|`.
pub proof fn law_add_appends(
    m: Map<Seq<char>, EntityView>,
    globals: bool,
    name: Seq<char>,
    value: Seq<char>,
    desc: Option<Seq<char>>,
    kw: EntityKeywords,
)
    requires
        !is_global_name(globals, name),
        m.contains_key(name),
        kw.add,
        !kw.delete,
        !kw.remove,
    ensures
        define_map(m, globals, name, value, desc, kw)[name].value == m[name].value + seq!['|'] + value,
{
}


/// A PRIVATE entity is completely hidden: after a definition with PRIVATE, the entity, if one
/// remains under the name, is private, so the client cannot look it up.
pub proof fn law_private_is_hidden(
    m: Map<Seq<char>, EntityView>,
    globals: bool,
    name: Seq<char>,
    value: Seq<char>,
    desc: Option<Seq<char>>,
    kw: EntityKeywords,
)
    requires
        !is_global_name(globals, name),
        kw.private,
    ensures
        ({
            let after = define_map(m, globals, name, value, desc, kw);
            after.contains_key(name) ==> after[name].visibility == EntityVisibility::Private
        }),
{
}

} // verus!
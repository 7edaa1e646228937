use vstd::prelude::*;
use vstd::string::StringSliceAdditionalSpecFns;

use super::visibility::EntityVisibility;
use crate::text::{bytes_eq, chars_of, push_char, push_str, str_eq};

verus! {

/// Number of entries of the named-entity table of `html_escape`.
pub const NAMED_ENTITY_COUNT: usize = 2125;

/// The entry at an index of `html_escape::NAMED_ENTITIES`: the entity's name as bytes and its
/// value.
pub uninterp spec fn html_named_entity(index: int) -> Option<(Seq<u8>, Seq<char>)>;

/// Reads one entry of `html_escape::NAMED_ENTITIES`, the table of HTML named entities.
///
/// Claims that the table has `NAMED_ENTITY_COUNT` entries (its type says so) and that the entry
/// returned is the one `html_named_entity` names. Nothing is claimed of the table's contents.
#[verifier::external_body]
fn named_entity_at(index: usize) -> (r: Option<(&'static [u8], &'static str)>)
    ensures
        r is Some <==> index < NAMED_ENTITY_COUNT,
        r matches Some((k, v)) ==> html_named_entity(index as int) == Some((k@, v@)),
        r is None ==> html_named_entity(index as int) is None,
{
    html_escape::NAMED_ENTITIES.get(index).copied()
}

/// Value of the last table entry among the first `n` whose name is `name`.
pub open spec fn table_lookup(name: Seq<u8>, n: int) -> Option<Seq<char>>
    decreases n,
{
    if n <= 0 {
        None
    } else {
        match html_named_entity(n - 1) {
            Some((k, v)) if k == name => Some(v),
            _ => table_lookup(name, n - 1),
        }
    }
}

/// Value of the first table entry, from index `i` on, whose name is `name`.
pub open spec fn table_first(name: Seq<u8>, i: int) -> Option<Seq<char>>
    decreases NAMED_ENTITY_COUNT - i,
{
    if i < 0 || i >= NAMED_ENTITY_COUNT {
        None
    } else {
        match html_named_entity(i) {
            Some((k, v)) if k == name => Some(v),
            _ => table_first(name, i + 1),
        }
    }
}

/// The global XML entity for a name: every entity of the HTML named-entity table, and `text`,
/// whose value is `&text;`.
pub open spec fn global_entity(name: Seq<char>) -> Option<Seq<char>> {
    if name == "text"@ {
        Some("&text;"@)
    } else {
        table_lookup(vstd::utf8::encode_utf8(name), NAMED_ENTITY_COUNT as int)
    }
}

/// Spec-level view of an [`Entity`].
pub struct EntityView {
    /// Value stored in the variable.
    pub value: Seq<char>,
    /// Visibility to the client.
    pub visibility: EntityVisibility,
    /// Longer description of the entity.
    pub description: Seq<char>,
}

/// Splits a string list at every `'|'`, like `str::split('|')`.
pub open spec fn split_list(s: Seq<char>) -> Seq<Seq<char>>
    decreases s.len(),
{
    if s.len() == 0 {
        seq![Seq::<char>::empty()]
    } else {
        let p = split_list(s.drop_last());
        if s.last() == '|' {
            p.push(Seq::<char>::empty())
        } else {
            p.drop_last().push(p.last().push(s.last()))
        }
    }
}

/// Keeps the items of a list that differ from `value`.
pub open spec fn drop_item(items: Seq<Seq<char>>, value: Seq<char>) -> Seq<Seq<char>>
    decreases items.len(),
{
    if items.len() == 0 {
        items
    } else {
        let rest = drop_item(items.drop_last(), value);
        if items.last() == value {
            rest
        } else {
            rest.push(items.last())
        }
    }
}

/// Joins a list with `'|'` between items, like `[T]::join("|")`.
pub open spec fn join_list(items: Seq<Seq<char>>) -> Seq<char>
    decreases items.len(),
{
    if items.len() == 0 {
        Seq::empty()
    } else if items.len() == 1 {
        items[0]
    } else {
        join_list(items.drop_last()) + seq!['|'] + items.last()
    }
}

/// A string list with every item equal to `value` removed.
pub open spec fn remove_from_list(list: Seq<char>, value: Seq<char>) -> Seq<char> {
    join_list(drop_item(split_list(list), value))
}

proof fn lemma_split_push(s: Seq<char>, c: char)
    ensures
        c == '|' ==> split_list(s.push(c)) == split_list(s).push(Seq::<char>::empty()),
        c != '|' ==> split_list(s.push(c)) == split_list(s).drop_last().push(split_list(s).last().push(c)),
{
    assert(s.push(c).drop_last() =~= s);
}

proof fn lemma_split_nonempty(s: Seq<char>)
    ensures
        split_list(s).len() > 0,
    decreases s.len(),
{
    if s.len() > 0 {
        lemma_split_nonempty(s.drop_last());
    }
}

/// Stores information from the MUD (MUD variables). Once an entity is defined, its value can be
/// referenced by using the `&Name;` syntax.
#[derive(Clone, Debug, PartialEq, Eq)]
pub struct Entity {
    /// Value stored in the variable.
    pub value: String,
    /// Visibility to the client.
    pub visibility: EntityVisibility,
    /// Longer description of the entity.
    pub description: String,
}

impl View for Entity {
    type V = EntityView;

    open spec fn view(&self) -> EntityView {
        EntityView {
            value: self.value@,
            visibility: self.visibility,
            description: self.description@,
        }
    }
}

impl Entity {
    /// Returns a global entity if one is defined for the given name: an entity of the HTML
    /// named-entity table, or `text`.
    pub fn global(name: &str) -> (r: Option<&'static str>)
        ensures
            r is Some <==> global_entity(name@) is Some,
            r matches Some(v) ==> global_entity(name@) == Some(v@),
    {
        if str_eq(name, "text") {
            return Some("&text;");
        }
        let key = name.as_bytes();
        let mut found: Option<&'static str> = None;
        let mut i: usize = 0;
        while i < NAMED_ENTITY_COUNT
            invariant
                i <= NAMED_ENTITY_COUNT,
                key@ == name.spec_bytes(),
                found is Some <==> table_lookup(key@, i as int) is Some,
                found matches Some(v) ==> table_lookup(key@, i as int) == Some(v@),
            decreases NAMED_ENTITY_COUNT - i,
        {
            match named_entity_at(i) {
                Some((k, v)) => {
                    if bytes_eq(k, key) {
                        found = Some(v);
                    }
                },
                None => {},
            }
            i += 1;
        }
        found
    }

    /// Returns the first entity of the HTML named-entity table with the given name, found by a
    /// linear search. Unlike [`Entity::global`], it does not know `text`.
    pub fn const_global(name: &str) -> (r: Option<&'static str>)
        ensures
            r is Some <==> table_first(vstd::utf8::encode_utf8(name@), 0) is Some,
            r matches Some(v) ==> table_first(vstd::utf8::encode_utf8(name@), 0) == Some(v@),
    {
        let key = name.as_bytes();
        let mut i: usize = 0;
        while i < NAMED_ENTITY_COUNT
            invariant
                i <= NAMED_ENTITY_COUNT,
                key@ == name.spec_bytes(),
                table_first(key@, 0) == table_first(key@, i as int),
            decreases NAMED_ENTITY_COUNT - i,
        {
            match named_entity_at(i) {
                Some((k, v)) => {
                    if bytes_eq(k, key) {
                        return Some(v);
                    }
                },
                None => {},
            }
            i += 1;
        }
        None
    }

    /// Constructs a new `Entity` with default visibility and no description.
    pub fn new(value: String) -> (r: Self)
        ensures
            r@ == (EntityView {
                value: value@,
                visibility: EntityVisibility::Default,
                description: Seq::empty(),
            }),
    {
        Entity { value, visibility: EntityVisibility::Default, description: String::new() }
    }

    /// Returns `true` if the visibility is [`EntityVisibility::Private`].
    pub fn is_private(&self) -> (r: bool)
        ensures
            r == (self.visibility == EntityVisibility::Private),
    {
        match self.visibility {
            EntityVisibility::Private => true,
            _ => false,
        }
    }

    /// Returns `true` if the visibility is [`EntityVisibility::Publish`].
    pub fn is_published(&self) -> (r: bool)
        ensures
            r == (self.visibility == EntityVisibility::Publish),
    {
        match self.visibility {
            EntityVisibility::Publish => true,
            _ => false,
        }
    }

    /// Treating the current value as a list of values separated by `'|'`, appends the specified
    /// value to the list.
    pub fn add(&mut self, value: &str)
        ensures
            final(self)@ == (EntityView {
                value: old(self)@.value + seq!['|'] + value@,
                ..old(self)@
            }),
    {
        push_char(&mut self.value, '|');
        push_str(&mut self.value, value);
        assert(self.value@ =~= old(self)@.value + seq!['|'] + value@);
    }

    /// Treating the current value as a list of values separated by `'|'`, removes every item
    /// equal to the specified value from the list.
    pub fn remove(&mut self, value: &str)
        ensures
            final(self)@ == (EntityView {
                value: remove_from_list(old(self)@.value, value@),
                ..old(self)@
            }),
    {
        let cs = chars_of(self.value.as_str());
        let target = chars_of(value);
        let mut out = String::new();
        let mut kept: usize = 0;
        let mut current: Vec<char> = Vec::new();
        let mut i: usize = 0;
        let ghost s = cs@;
        proof {
            assert(s.take(0) =~= Seq::<char>::empty());
            assert(split_list(Seq::<char>::empty()) == seq![Seq::<char>::empty()]);
            assert(split_list(Seq::<char>::empty()).drop_last() =~= Seq::<Seq<char>>::empty());
        }
        while i < cs.len()
            invariant
                s == cs@,
                target@ == value@,
                i <= s.len(),
                split_list(s.take(i as int)).drop_last().len() >= 0,
                current@ == split_list(s.take(i as int)).last(),
                kept <= i,
                kept == drop_item(split_list(s.take(i as int)).drop_last(), value@).len(),
                out@ == join_list(drop_item(split_list(s.take(i as int)).drop_last(), value@)),
            decreases s.len() - i,
        {
            let c = cs[i];
            proof {
                assert(s.take(i + 1) =~= s.take(i as int).push(c));
                lemma_split_push(s.take(i as int), c);
            }
            if c == '|' {
                let ghost done = split_list(s.take(i as int)).drop_last();
                let ghost seg = split_list(s.take(i as int)).last();
                proof {
                    assert(split_list(s.take(i + 1)).drop_last() =~= done.push(seg));
                    assert(done.push(seg).drop_last() =~= done);
                }
                if !vec_eq(&current, &target) {
                    if kept > 0 {
                        push_char(&mut out, '|');
                    }
                    append_chars(&mut out, &current);
                    kept += 1;
                    proof {
                        let d = drop_item(done, value@);
                        assert(drop_item(done.push(seg), value@) == d.push(seg));
                        assert(d.push(seg).drop_last() =~= d);
                        if d.len() == 0 {
                            assert(join_list(d.push(seg)) == seg);
                        }
                    }
                } else {
                    proof {
                        assert(drop_item(done.push(seg), value@) == drop_item(done, value@));
                    }
                }
                current = Vec::new();
                proof {
                    assert(current@ =~= split_list(s.take(i + 1)).last());
                }
            } else {
                current.push(c);
                proof {
                    let sp = split_list(s.take(i as int));
                    assert(split_list(s.take(i + 1)).drop_last() =~= sp.drop_last());
                }
            }
            i += 1;
        }
        proof {
            assert(s.take(s.len() as int) =~= s);
            lemma_split_nonempty(s);
        }
        let ghost done = split_list(s).drop_last();
        let ghost seg = split_list(s).last();
        proof {
            assert(split_list(s) =~= done.push(seg));
            assert(done.push(seg).drop_last() =~= done);
        }
        if !vec_eq(&current, &target) {
            if kept > 0 {
                push_char(&mut out, '|');
            }
            append_chars(&mut out, &current);
            proof {
                let d = drop_item(done, value@);
                assert(drop_item(done.push(seg), value@) == d.push(seg));
                assert(d.push(seg).drop_last() =~= d);
                if d.len() == 0 {
                    assert(join_list(d.push(seg)) == seg);
                }
            }
        } else {
            proof {
                assert(drop_item(done.push(seg), value@) == drop_item(done, value@));
            }
        }
        self.value = out;
        assert(self@.value =~= remove_from_list(old(self)@.value, value@));
    }
}

/// Exact equality of two character vectors.
fn vec_eq(a: &Vec<char>, b: &Vec<char>) -> (r: bool)
    ensures
        r == (a@ == b@),
{
    if a.len() != b.len() {
        return false;
    }
    let mut i: usize = 0;
    while i < a.len()
        invariant
            a@.len() == b@.len(),
            i <= a@.len(),
            forall|j: int| 0 <= j < i ==> a@[j] == b@[j],
        decreases a@.len() - i,
    {
        if a[i] != b[i] {
            return false;
        }
        i += 1;
    }
    assert(a@ =~= b@);
    true
}

/// Appends characters to a string.
fn append_chars(s: &mut String, cs: &Vec<char>)
    ensures
        final(s)@ == old(s)@ + cs@,
{
    let mut i: usize = 0;
    while i < cs.len()
        invariant
            i <= cs@.len(),
            s@ == old(s)@ + cs@.take(i as int),
        decreases cs@.len() - i,
    {
        push_char(s, cs[i]);
        i += 1;
        assert(s@ =~= old(s)@ + cs@.take(i as int));
    }
    assert(cs@.take(cs@.len() as int) =~= cs@);
}

} // verus!

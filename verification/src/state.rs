//! The definitions that a session has received: custom elements, entities and line tags.
use vstd::prelude::*;

use crate::element::atom::{atom_named, atom_view, Atom};
use crate::element::element::{element_view, Element, ElementView};
use crate::entity::entity::EntityView;
use crate::entity::decoded::cow_str;
use crate::entity::map::{define_map, entity_lookup, EntityMap};
use crate::parse::arguments::Arguments;
use crate::parse::decoder::{decode_text_with, Decoder};
use crate::line::mode::Mode;
use crate::line::tag::{line_tag_view, LineTag, PropertiesView};
use crate::line::tags::{set_lines, update_lines, LineTags};
use crate::node::definition::{opt_view, AttributeListDefinition, EntityDefinition};
use crate::node::element_definition::ElementDefinition;
use crate::node::tag::Definition;
use crate::parse::error::Error;
use crate::parse::error_kind::ErrorKind;
use crate::line::mode::mode_is_user_defined;
use crate::text::{decimal_text, eq_ignore_case, push_char, push_str, str_eq_ignore_case};

verus! {

/// The index of the first element, from `i` on, whose name equals `name` up to ASCII case, or
/// the length.
pub open spec fn find_element(s: Seq<ElementView>, name: Seq<char>, i: int) -> int
    decreases s.len() - i,
{
    if i >= s.len() || i < 0 {
        s.len() as int
    } else if eq_ignore_case(s[i].name, name) {
        i
    } else {
        find_element(s, name, i + 1)
    }
}

/// The element of a name, compared without regard to ASCII case.
pub open spec fn element_named(s: Seq<ElementView>, name: Seq<char>) -> Option<ElementView> {
    let i = find_element(s, name, 0);
    if 0 <= i < s.len() {
        Some(s[i])
    } else {
        None
    }
}

/// The elements after an element is defined: it replaces the element of its name, or is added.
pub open spec fn insert_element(s: Seq<ElementView>, e: ElementView) -> Seq<ElementView> {
    let i = find_element(s, e.name, 0);
    if 0 <= i < s.len() {
        s.update(i, e)
    } else {
        s.push(e)
    }
}

/// The elements after the element of a name is deleted.
pub open spec fn remove_element(s: Seq<ElementView>, name: Seq<char>) -> Seq<ElementView> {
    let i = find_element(s, name, 0);
    if 0 <= i < s.len() {
        s.remove(i)
    } else {
        s
    }
}

/// An element's attribute list once more attributes are appended, separated by a space.
pub open spec fn append_attributes(old: Seq<char>, more: Seq<char>) -> Seq<char> {
    if old.len() == 0 {
        more
    } else if more.len() == 0 {
        old
    } else {
        old + seq![' '] + more
    }
}

/// The view of a session state: elements, entities (with whether global entities are known),
/// and line tags.
pub struct StateView {
    /// The custom elements, in the order they were first defined.
    pub elements: Seq<ElementView>,
    /// The custom entities.
    pub entities: Map<Seq<char>, EntityView>,
    /// Whether the global XML entities are recognized.
    pub globals: bool,
    /// The user-defined line tags.
    pub line_tags: Seq<(Seq<char>, PropertiesView)>,
}

/// The line tags after an element definition: an element with a line tag (`TAG=`) becomes the
/// element of that tag, which is enabled.
pub open spec fn element_line_tags(lines: Seq<(Seq<char>, PropertiesView)>, element: Option<Element>) -> Seq<
    (Seq<char>, PropertiesView),
> {
    match element {
        Some(e) => match e.line_tag {
            Some(tag) => set_lines(lines, tag.0 as int, e.name@),
            None => lines,
        },
        None => lines,
    }
}

/// The elements after an attribute list for element `name` is applied: its attributes are
/// appended to those of the element defined earlier under that name, or an error when there
/// is none.
pub open spec fn define_attributes_spec(elements: Seq<ElementView>, name: Seq<char>, attributes: Seq<char>) -> Result<
    Seq<ElementView>,
    (ErrorKind, Seq<char>),
> {
    let i = find_element(elements, name, 0);
    if 0 <= i < elements.len() {
        Ok(
            elements.update(
                i,
                ElementView {
                    attributes: append_attributes(elements[i].attributes, attributes),
                    ..elements[i]
                },
            ),
        )
    } else {
        Err((ErrorKind::UnknownElementInAttlist, name))
    }
}

/// The line tag of a mode: for a user-defined mode whose tag has been set, the element that
/// the tag names, if it is defined, and the tag's properties.
pub open spec fn line_tag_spec(s: StateView, mode: u8) -> Option<(Option<ElementView>, PropertiesView)> {
    if 20 <= mode && mode - 20 < s.line_tags.len() {
        let line = s.line_tags[mode - 20];
        Some((element_named(s.elements, line.0), line.1))
    } else {
        None
    }
}

/// A component that an opening tag names: an atomic tag, or a custom element.
pub enum Component<'a> {
    /// A standard tag, such as `<B>`.
    AtomicTag(Atom),
    /// A custom element that the server defined.
    Element(&'a Element),
}

/// Stores the definitions received from the server: custom elements, entities and line tags.
pub struct State {
    elements: Vec<Element>,
    entities: EntityMap,
    line_tags: LineTags,
}

impl View for State {
    type V = StateView;

    closed spec fn view(&self) -> StateView {
        StateView {
            elements: self.elements@.map_values(|e: Element| element_view(e)),
            entities: self.entities@,
            globals: self.entities.has_globals(),
            line_tags: self.line_tags@,
        }
    }
}

impl State {
    /// A state with no definitions, which does not recognize global entities.
    pub fn new() -> (r: Self)
        ensures
            r@.elements == Seq::<ElementView>::empty(),
            r@.entities == Map::<Seq<char>, EntityView>::empty(),
            !r@.globals,
            r@.line_tags == Seq::<(Seq<char>, PropertiesView)>::empty(),
    {
        let r = State { elements: Vec::new(), entities: EntityMap::new(), line_tags: LineTags::new() };
        assert(r@.elements =~= Seq::<ElementView>::empty());
        r
    }

    /// A state with no definitions, which recognizes the global XML entities.
    pub fn with_globals() -> (r: Self)
        ensures
            r@.elements == Seq::<ElementView>::empty(),
            r@.entities == Map::<Seq<char>, EntityView>::empty(),
            r@.globals,
            r@.line_tags == Seq::<(Seq<char>, PropertiesView)>::empty(),
    {
        let r = State {
            elements: Vec::new(),
            entities: EntityMap::with_globals(),
            line_tags: LineTags::new(),
        };
        assert(r@.elements =~= Seq::<ElementView>::empty());
        r
    }

    /// Removes all definitions. Global entities stay recognized.
    pub fn clear(&mut self)
        ensures
            final(self)@.elements == Seq::<ElementView>::empty(),
            final(self)@.entities == Map::<Seq<char>, EntityView>::empty(),
            final(self)@.globals == old(self)@.globals,
            final(self)@.line_tags == Seq::<(Seq<char>, PropertiesView)>::empty(),
    {
        self.elements = Vec::new();
        self.entities.clear();
        self.line_tags.clear();
        assert(self@.elements =~= Seq::<ElementView>::empty());
    }

    /// The entity map.
    pub fn entities(&self) -> (r: &EntityMap)
        ensures
            r@ == self@.entities,
            r.has_globals() == self@.globals,
    {
        &self.entities
    }

    /// The line tags.
    pub fn line_tags(&self) -> (r: &LineTags)
        ensures
            r@ == self@.line_tags,
    {
        &self.line_tags
    }

    /// The value of a custom entity, or `None` if there is none or it is private.
    pub fn get_entity(&self, name: &str) -> (r: Option<&str>)
        ensures
            r is Some <==> (self@.entities.contains_key(name@) && self@.entities[name@].visibility
                != crate::entity::visibility::EntityVisibility::Private),
            r matches Some(v) ==> v@ == self@.entities[name@].value,
    {
        self.entities.get(name)
    }

    fn find_element(&self, name: &str) -> (r: usize)
        ensures
            r == find_element(self@.elements, name@, 0),
            r <= self.elements@.len(),
    {
        let ghost s = self@.elements;
        let mut i: usize = 0;
        while i < self.elements.len()
            invariant
                i <= self.elements@.len(),
                s == self.elements@.map_values(|e: Element| element_view(e)),
                find_element(s, name@, 0) == find_element(s, name@, i as int),
            decreases self.elements@.len() - i,
        {
            assert(s[i as int] == element_view(self.elements@[i as int]));
            if str_eq_ignore_case(self.elements[i].name.as_str(), name) {
                return i;
            }
            i += 1;
        }
        i
    }

    /// The custom element of a name, compared without regard to ASCII case.
    pub fn get_element(&self, name: &str) -> (r: Option<&Element>)
        ensures
            match element_named(self@.elements, name@) {
                Some(e) => r matches Some(x) && element_view(*x) == e,
                None => r is None,
            },
    {
        let i = self.find_element(name);
        if i < self.elements.len() {
            Some(&self.elements[i])
        } else {
            None
        }
    }

    /// The line tag of a mode, with the element associated with it, if one exists.
    pub fn get_line_tag(&self, mode: Mode) -> (r: Option<LineTag<'_>>)
        ensures
            match r {
                Some(t) => line_tag_spec(self@, mode.0) == Some(line_tag_view(t)),
                None => line_tag_spec(self@, mode.0) is None,
            },
    {
        match self.line_tags.get(mode.0 as usize) {
            Some((name, properties)) => {
                let element = self.get_element(name);
                Some(LineTag { element, properties })
            },
            None => None,
        }
    }

    /// The component that an opening tag names: an atomic tag if there is one of that name,
    /// otherwise a custom element. Fails with [`ErrorKind::UnknownElement`] if there is neither.
    pub fn get_component(&self, name: &str) -> (r: Result<Component<'_>, Error>)
        ensures
            match atom_named(name@) {
                Some(a) => r matches Ok(Component::AtomicTag(x)) && atom_view(x) == a,
                None => match element_named(self@.elements, name@) {
                    Some(e) => r matches Ok(Component::Element(x)) && element_view(*x) == e,
                    None => r matches Err(x) && x@ == (ErrorKind::UnknownElement, name@),
                },
            },
    {
        match Atom::get(name) {
            Some(atom) => Ok(Component::AtomicTag(atom)),
            None => match self.get_element(name) {
                Some(element) => Ok(Component::Element(element)),
                None => Err(Error::new(name, ErrorKind::UnknownElement)),
            },
        }
    }

    fn define_element(&mut self, definition: ElementDefinition)
        ensures
            final(self)@.entities == old(self)@.entities,
            final(self)@.globals == old(self)@.globals,
            final(self)@.line_tags == element_line_tags(old(self)@.line_tags, definition.element),
            final(self)@.elements == match definition.element {
                Some(e) => insert_element(old(self)@.elements, element_view(e)),
                None => remove_element(old(self)@.elements, definition.name@),
            },
    {
        match definition.element {
            Some(element) => {
                match element.line_tag {
                    Some(tag) => self.line_tags.set(tag.0 as usize, element.name.clone()),
                    None => {},
                }
                let i = self.find_element(element.name.as_str());
                let ghost s = self@.elements;
                if i < self.elements.len() {
                    self.elements.set(i, element);
                    assert(self@.elements =~= s.update(i as int, element_view(element)));
                } else {
                    self.elements.push(element);
                    assert(self@.elements =~= s.push(element_view(element)));
                }
            },
            None => {
                let i = self.find_element(definition.name);
                let ghost s = self@.elements;
                if i < self.elements.len() {
                    self.elements.remove(i);
                    assert(self@.elements =~= s.remove(i as int));
                }
            },
        }
    }

    fn define_attributes(&mut self, definition: AttributeListDefinition) -> (r: Result<(), Error>)
        ensures
            final(self)@.entities == old(self)@.entities,
            final(self)@.globals == old(self)@.globals,
            final(self)@.line_tags == old(self)@.line_tags,
            match define_attributes_spec(old(self)@.elements, definition.name@, definition.attributes@) {
                Ok(els) => r is Ok && final(self)@.elements == els,
                Err(e) => r matches Err(x) && x@ == e && final(self)@.elements == old(self)@.elements,
            },
    {
        let i = self.find_element(definition.name);
        if i >= self.elements.len() {
            return Err(Error::new(definition.name, ErrorKind::UnknownElementInAttlist));
        }
        let ghost s = self@.elements;
        let mut element = self.elements.remove(i);
        let ghost before = element.attributes@;
        let n_old = element.attributes.as_str().unicode_len();
        let n_more = definition.attributes.unicode_len();
        if n_old == 0 {
            element.attributes = definition.attributes.to_owned();
        } else if n_more > 0 {
            push_char(&mut element.attributes, ' ');
            push_str(&mut element.attributes, definition.attributes);
        }
        assert(element.attributes@ =~= append_attributes(before, definition.attributes@));
        self.elements.insert(i, element);
        assert(self@.elements =~= s.update(
            i as int,
            ElementView { attributes: append_attributes(s[i as int].attributes, definition.attributes@), ..s[i as int] },
        ));
        Ok(())
    }

    /// Applies an entity definition to the entity map (see [`EntityMap::define`]).
    pub fn define_entity(&mut self, definition: EntityDefinition) -> (r: Result<(), Error>)
        ensures
            final(self)@.elements == old(self)@.elements,
            final(self)@.globals == old(self)@.globals,
            final(self)@.line_tags == old(self)@.line_tags,
            final(self)@.entities == define_map(
                old(self)@.entities,
                old(self)@.globals,
                definition.name@,
                definition.value@,
                opt_view(definition.desc),
                definition.keywords,
            ),
            r is Ok <==> !crate::entity::map::is_global_name(old(self)@.globals, definition.name@),
            r matches Err(e) ==> e@ == (ErrorKind::CannotRedefineGlobalEntity, definition.name@),
    {
        match self.entities.define(definition) {
            Ok(_) => Ok(()),
            Err(e) => Err(e),
        }
    }

    /// Applies a definition received from the server: an element is added, replaced or
    /// deleted; an attribute list is appended to its element's; an entity is defined; a line
    /// tag is updated.
    pub fn define(&mut self, definition: Definition) -> (r: Result<(), Error>)
        ensures
            final(self)@.globals == old(self)@.globals,
            match definition {
                Definition::Element(d) => r is Ok && final(self)@.entities == old(self)@.entities
                    && final(self)@.line_tags == element_line_tags(old(self)@.line_tags, d.element)
                    && final(self)@.elements
                    == match d.element {
                    Some(e) => insert_element(old(self)@.elements, element_view(e)),
                    None => remove_element(old(self)@.elements, d.name@),
                },
                Definition::AttributeList(d) => final(self)@.entities == old(self)@.entities
                    && final(self)@.line_tags == old(self)@.line_tags
                    && match define_attributes_spec(old(self)@.elements, d.name@, d.attributes@) {
                    Ok(els) => r is Ok && final(self)@.elements == els,
                    Err(e) => r matches Err(x) && x@ == e && final(self)@.elements == old(self)@.elements,
                },
                Definition::Entity(d) => final(self)@.elements == old(self)@.elements
                    && final(self)@.line_tags == old(self)@.line_tags && final(self)@.entities
                    == define_map(
                    old(self)@.entities,
                    old(self)@.globals,
                    d.name@,
                    d.value@,
                    opt_view(d.desc),
                    d.keywords,
                ) && (r is Ok <==> !crate::entity::map::is_global_name(old(self)@.globals, d.name@))
                    && (r matches Err(e) ==> e@ == (ErrorKind::CannotRedefineGlobalEntity, d.name@)),
                Definition::LineTag(d) => final(self)@.elements == old(self)@.elements
                    && final(self)@.entities == old(self)@.entities && (mode_is_user_defined(d.index.0) ==> r is Ok
                    && final(self)@.line_tags == update_lines(old(self)@.line_tags, d@)) && (
                !mode_is_user_defined(d.index.0) ==> (r matches Err(e) && e@ == (
                    ErrorKind::IllegalLineTag,
                    decimal_text(d.index.0 as nat),
                )) && final(self)@.line_tags == old(self)@.line_tags),
            },
    {
        match definition {
            Definition::Element(d) => {
                self.define_element(d);
                Ok(())
            },
            Definition::AttributeList(d) => self.define_attributes(d),
            Definition::Entity(d) => self.define_entity(d),
            Definition::LineTag(d) => self.line_tags.update(d),
        }
    }
}

/// The texts with their entities decoded, or the first error.
pub open spec fn decode_all(lookup: spec_fn(Seq<char>) -> Option<Seq<char>>, s: Seq<Seq<char>>) -> Result<
    Seq<Seq<char>>,
    (ErrorKind, Seq<char>),
>
    decreases s.len(),
{
    if s.len() == 0 {
        Ok(Seq::empty())
    } else {
        match decode_all(lookup, s.drop_last()) {
            Err(e) => Err(e),
            Ok(v) => match decode_text_with(lookup, s.last()) {
                Ok(t) => Ok(v.push(t)),
                Err(e) => Err(e),
            },
        }
    }
}

impl State {
    fn decode_list(&self, values: &Vec<&str>) -> (r: Result<Vec<String>, Error>)
        ensures
            match decode_all(|n: Seq<char>| self.entities.entity_spec(n), values@.map_values(|v: &str| v@)) {
                Ok(d) => r matches Ok(out) && out@.map_values(|t: String| t@) == d,
                Err(e) => r matches Err(x) && x@ == e,
            },
    {
        let ghost lookup = |n: Seq<char>| self.entities.entity_spec(n);
        let ghost vs = values@.map_values(|v: &str| v@);
        let mut out: Vec<String> = Vec::new();
        assert(vs.take(0) =~= Seq::<Seq<char>>::empty());
        assert(out@.map_values(|t: String| t@) =~= Seq::<Seq<char>>::empty());
        let mut i: usize = 0;
        while i < values.len()
            invariant
                i <= values@.len(),
                lookup == (|n: Seq<char>| self.entities.entity_spec(n)),
                vs == values@.map_values(|v: &str| v@),
                decode_all(lookup, vs.take(i as int)) == Ok::<Seq<Seq<char>>, (ErrorKind, Seq<char>)>(
                    out@.map_values(|t: String| t@),
                ),
            decreases values@.len() - i,
        {
            assert(vs.take(i + 1).drop_last() =~= vs.take(i as int));
            assert(vs.take(i + 1).last() == values@[i as int]@);
            let decoded = self.entities.decode_string(values[i]);
            match decoded {
                Ok(text) => {
                    let t = cow_str(&text).to_owned();
                    let ghost before = out@.map_values(|t: String| t@);
                    out.push(t);
                    assert(out@.map_values(|t: String| t@) =~= before.push(t@));
                },
                Err(e) => {
                    proof {
                        lemma_decode_all_prefix(lookup, vs, i + 1);
                    }
                    return Err(e);
                },
            }
            i += 1;
        }
        assert(vs.take(values@.len() as int) =~= vs);
        Ok(out)
    }

    /// Decodes the entities in every argument: the positional arguments in order, then the
    /// named ones with their names. Fails with the first error.
    pub fn decode_args<'a>(&self, args: &Arguments<'a>) -> (r: Result<(Vec<String>, Vec<(&'a str, String)>), Error>)
        ensures
            ({
                let lookup = |n: Seq<char>| entity_lookup(self@.globals, self@.entities, n);
                match decode_all(lookup, args.positional_view()) {
                    Err(e) => r matches Err(x) && x@ == e,
                    Ok(p) => match decode_all(lookup, args.named_entries().map_values(|e: (Seq<char>, Seq<char>)| e.1)) {
                        Err(e) => r matches Err(x) && x@ == e,
                        Ok(n) => r matches Ok((po, no)) && po@.map_values(|t: String| t@) == p
                            && no@.map_values(|e: (&'a str, String)| e.0@) == args.named_entries().map_values(
                            |e: (Seq<char>, Seq<char>)| e.0,
                        ) && no@.map_values(|e: (&'a str, String)| e.1@) == n,
                    },
                }
            }),
    {
        assert((|n: Seq<char>| self.entities.entity_spec(n)) =~= (|n: Seq<char>| entity_lookup(
            self@.globals,
            self@.entities,
            n,
        )));
        let mut pos: Vec<&'a str> = Vec::new();
        let mut i: usize = 0;
        let np = args.positional_len();
        while i < np
            invariant
                i <= np,
                np == args.positional_view().len(),
                pos@.map_values(|v: &str| v@) == args.positional_view().take(i as int),
            decreases np - i,
        {
            let ghost before = pos@.map_values(|v: &str| v@);
            pos.push(args.positional_at(i));
            assert(pos@.map_values(|v: &str| v@) =~= before.push(args.positional_view()[i as int]));
            assert(args.positional_view().take(i + 1) =~= args.positional_view().take(i as int).push(args.positional_view()[i as int]));
            i += 1;
        }
        assert(args.positional_view().take(np as int) =~= args.positional_view());
        let positional = match self.decode_list(&pos) {
            Ok(p) => p,
            Err(e) => return Err(e),
        };
        let nn = args.named_len();
        let ghost entries = args.named_entries();
        let mut names: Vec<&'a str> = Vec::new();
        let mut values: Vec<&'a str> = Vec::new();
        let mut j: usize = 0;
        while j < nn
            invariant
                j <= nn,
                nn == entries.len(),
                entries == args.named_entries(),
                names@.len() == j,
                names@.map_values(|v: &str| v@) == entries.map_values(|e: (Seq<char>, Seq<char>)| e.0).take(j as int),
                values@.map_values(|v: &str| v@) == entries.map_values(|e: (Seq<char>, Seq<char>)| e.1).take(j as int),
            decreases nn - j,
        {
            let (k, v) = args.named_at(j);
            let ghost nb = names@.map_values(|v: &str| v@);
            let ghost vb = values@.map_values(|v: &str| v@);
            names.push(k);
            values.push(v);
            assert(names@.map_values(|v: &str| v@) =~= nb.push(k@));
            assert(values@.map_values(|v: &str| v@) =~= vb.push(v@));
            assert(entries.map_values(|e: (Seq<char>, Seq<char>)| e.0).take(j + 1) =~= entries.map_values(|e: (Seq<char>, Seq<char>)| e.0).take(j as int).push(k@));
            assert(entries.map_values(|e: (Seq<char>, Seq<char>)| e.1).take(j + 1) =~= entries.map_values(|e: (Seq<char>, Seq<char>)| e.1).take(j as int).push(v@));
            j += 1;
        }
        assert(entries.map_values(|e: (Seq<char>, Seq<char>)| e.0).take(nn as int) =~= entries.map_values(|e: (Seq<char>, Seq<char>)| e.0));
        assert(entries.map_values(|e: (Seq<char>, Seq<char>)| e.1).take(nn as int) =~= entries.map_values(|e: (Seq<char>, Seq<char>)| e.1));
        let decoded = match self.decode_list(&values) {
            Ok(d) => d,
            Err(e) => return Err(e),
        };
        proof {
            lemma_decode_all_len(
                |n: Seq<char>| self.entities.entity_spec(n),
                values@.map_values(|v: &str| v@),
            );
        }
        let mut named: Vec<(&'a str, String)> = Vec::new();
        let mut decoded = decoded;
        let ghost dv = decoded@.map_values(|t: String| t@);
        assert(dv.subrange(0, nn as int) =~= dv);
        assert(names@.map_values(|v: &str| v@).take(0) =~= Seq::<Seq<char>>::empty());
        assert(dv.take(0) =~= Seq::<Seq<char>>::empty());
        assert(named@.map_values(|e: (&'a str, String)| e.0@) =~= Seq::<Seq<char>>::empty());
        assert(named@.map_values(|e: (&'a str, String)| e.1@) =~= Seq::<Seq<char>>::empty());
        let mut m: usize = 0;
        while m < nn
            invariant
                m <= nn,
                nn == names@.len(),
                decoded@.len() == nn - m,
                dv.len() == nn,
                decoded@.map_values(|t: String| t@) == dv.subrange(m as int, nn as int),
                named@.map_values(|e: (&'a str, String)| e.0@) == names@.map_values(|v: &str| v@).take(m as int),
                named@.map_values(|e: (&'a str, String)| e.1@) == dv.take(m as int),
            decreases nn - m,
        {
            let ghost first = decoded@[0];
            assert(decoded@.map_values(|t: String| t@)[0] == first@);
            let ghost rest_before = decoded@;
            let t = decoded.remove(0);
            let ghost n0 = named@.map_values(|e: (&'a str, String)| e.0@);
            let ghost n1 = named@.map_values(|e: (&'a str, String)| e.1@);
            assert(t@ == dv[m as int]);
            named.push((names[m], t));
            assert(named@.map_values(|e: (&'a str, String)| e.0@) =~= n0.push(names@[m as int]@));
            assert(named@.map_values(|e: (&'a str, String)| e.1@) =~= n1.push(t@));
            assert(names@.map_values(|v: &str| v@).take(m + 1) =~= names@.map_values(|v: &str| v@).take(m as int).push(names@[m as int]@));
            assert(dv.take(m + 1) =~= dv.take(m as int).push(dv[m as int]));
            assert(decoded@ =~= rest_before.subrange(1, rest_before.len() as int));
            let ghost dm = decoded@.map_values(|t: String| t@);
            let ghost tail = dv.subrange(m + 1, nn as int);
            assert forall|k: int| 0 <= k < dm.len() implies #[trigger] dm[k] == tail[k] by {
                assert(rest_before.map_values(|t: String| t@)[k + 1] == rest_before[k + 1]@);
                assert(dv.subrange(m as int, nn as int)[k + 1] == dv[m + 1 + k]);
            }
            assert(decoded@.map_values(|t: String| t@) =~= dv.subrange(m + 1, nn as int));
            m += 1;
        }
        assert(names@.map_values(|v: &str| v@).take(nn as int) =~= names@.map_values(|v: &str| v@));
        assert(dv.take(nn as int) =~= dv);
        Ok((positional, named))
    }
}

proof fn lemma_decode_all_len(lookup: spec_fn(Seq<char>) -> Option<Seq<char>>, s: Seq<Seq<char>>)
    ensures
        decode_all(lookup, s) matches Ok(v) ==> v.len() == s.len(),
    decreases s.len(),
{
    if s.len() > 0 {
        lemma_decode_all_len(lookup, s.drop_last());
    }
}

proof fn lemma_decode_all_prefix(lookup: spec_fn(Seq<char>) -> Option<Seq<char>>, s: Seq<Seq<char>>, k: int)
    requires
        0 <= k <= s.len(),
        decode_all(lookup, s.take(k)) is Err,
    ensures
        decode_all(lookup, s) == decode_all(lookup, s.take(k)),
    decreases s.len() - k,
{
    if k < s.len() {
        assert(s.take(k + 1).drop_last() =~= s.take(k));
        lemma_decode_all_prefix(lookup, s, k + 1);
    } else {
        assert(s.take(k) =~= s);
    }
}

/// Defining an element and then looking up its name finds it.
pub proof fn law_define_element_then_get(s: Seq<ElementView>, e: ElementView)
    ensures
        element_named(insert_element(s, e), e.name) == Some(e),
{
    let i = find_element(s, e.name, 0);
    lemma_find_element(s, e.name, 0);
    let t = insert_element(s, e);
    if 0 <= i < s.len() {
        lemma_find_element_update(s, e.name, 0, i, e);
    } else {
        lemma_find_element_push(s, e.name, 0, e);
    }
}

/// After an element with a user-defined line tag is defined, the line tag of that mode is
/// enabled and names the element.
pub proof fn law_element_line_tag(s: StateView, e: Element)
    requires
        e.line_tag matches Some(t) && 20 <= t.0 <= 99,
    ensures
        ({
            let s2 = StateView {
                elements: insert_element(s.elements, element_view(e)),
                line_tags: element_line_tags(s.line_tags, Some(e)),
                ..s
            };
            line_tag_spec(s2, e.line_tag.unwrap().0) matches Some((el, p)) && el == Some(
                element_view(e),
            ) && p.enable
        }),
{
    law_define_element_then_get(s.elements, element_view(e));
}

/// Deleting an element after defining it leaves no element of that name, when none was there
/// before.
pub proof fn law_define_then_delete(s: Seq<ElementView>, e: ElementView)
    requires
        element_named(s, e.name) is None,
    ensures
        element_named(remove_element(insert_element(s, e), e.name), e.name) is None,
{
    lemma_find_element(s, e.name, 0);
    lemma_find_element_push(s, e.name, 0, e);
    assert(insert_element(s, e).remove(s.len() as int) =~= s);
}

proof fn lemma_find_element(s: Seq<ElementView>, name: Seq<char>, i: int)
    requires
        0 <= i,
    ensures
        i <= find_element(s, name, i) <= s.len() || (i > s.len() && find_element(s, name, i)
            == s.len()),
        find_element(s, name, i) < s.len() ==> eq_ignore_case(s[find_element(s, name, i)].name, name),
        forall|j: int| i <= j < find_element(s, name, i) ==> !eq_ignore_case(#[trigger] s[j].name, name),
    decreases s.len() - i,
{
    if i < s.len() && !eq_ignore_case(s[i].name, name) {
        lemma_find_element(s, name, i + 1);
    }
}

proof fn lemma_find_element_update(s: Seq<ElementView>, name: Seq<char>, i: int, k: int, e: ElementView)
    requires
        0 <= i <= k < s.len(),
        find_element(s, name, i) == k,
        e.name == name,
    ensures
        find_element(s.update(k, e), name, i) == k,
    decreases k - i,
{
    if i < k {
        lemma_find_element_update(s, name, i + 1, k, e);
    }
}

proof fn lemma_find_element_push(s: Seq<ElementView>, name: Seq<char>, i: int, e: ElementView)
    requires
        0 <= i <= s.len(),
        find_element(s, name, i) == s.len(),
        e.name == name,
    ensures
        find_element(s.push(e), name, i) == s.len(),
    decreases s.len() - i,
{
    if i < s.len() {
        lemma_find_element_push(s, name, i + 1, e);
    }
}

} // verus!

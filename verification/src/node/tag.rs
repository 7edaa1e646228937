use vstd::prelude::*;

use super::definition::{
    attribute_list_spec, entity_definition_spec, entity_definition_text, line_tag_spec,
    line_tag_text, opt_view, split_name, split_name_spec, AttributeListDefinition,
    EntityDefinition, LineTagDefinition, LineTagView,
};
use super::element_definition::{element_definition_spec, ElementDefinition};
use crate::element::element::{element_text, element_view, ElementView};
use crate::entity::keyword::EntityKeywords;
use crate::parse::arguments::{extend_spec, Arguments};
use crate::parse::error::Error;
use crate::parse::error_kind::ErrorKind;
use crate::parse::validation::{valid_name, validate};
use crate::parse::words::{next_word, trim_ascii, Words};
use crate::text::{eq_ignore_case, push_str, str_eq_ignore_case, substring};

verus! {

/// What parsing a closing tag's body gives: its name.
pub open spec fn tag_close_spec(source: Seq<char>) -> Result<Seq<char>, (ErrorKind, Seq<char>)> {
    let t = trim_ascii(source);
    match next_word(t, 0) {
        None => Err((ErrorKind::IncompleteElement, t)),
        Some((name, p1)) => if !valid_name(name) {
            Err((ErrorKind::InvalidElementName, name))
        } else {
            match next_word(t, p1) {
                Some((next, _)) => Err((ErrorKind::ArgumentsToClosingTag, next)),
                None => Ok(name),
            }
        },
    }
}

/// What parsing an opening tag gives: its name, and its positional and named arguments.
pub open spec fn tag_open_spec(source: Seq<char>) -> Result<
    (Seq<char>, Seq<Seq<char>>, Map<Seq<char>, Seq<char>>),
    (ErrorKind, Seq<char>),
> {
    let t = trim_ascii(source);
    match next_word(t, 0) {
        None => Err((ErrorKind::EmptyElement, t)),
        Some((name, p1)) => if !valid_name(name) {
            Err((ErrorKind::InvalidElementName, name))
        } else {
            let e = extend_spec(t, p1, Seq::empty(), Map::empty());
            match e.2 {
                Some(err) => Err(err),
                None => Ok((name, e.0, e.1)),
            }
        },
    }
}

/// Parsed representation of a closing tag from the server, in the form of `</{name}>`.
#[derive(Copy, Clone, Debug, PartialEq, Eq)]
pub struct TagClose<'a> {
    /// Element name.
    pub name: &'a str,
}

impl<'a> TagClose<'a> {
    /// Parses the body of a closing tag: a name and nothing else.
    pub fn parse(source: &'a str) -> (r: Result<Self, Error>)
        ensures
            match tag_close_spec(source@) {
                Ok(name) => r matches Ok(t) && t.name@ == name,
                Err(e) => r matches Err(x) && x@ == e,
            },
    {
        let mut words = Words::new(source);
        let name = match words.next_or(ErrorKind::IncompleteElement) {
            Ok(n) => n,
            Err(e) => return Err(e),
        };
        match validate(name, ErrorKind::InvalidElementName) {
            Ok(()) => {},
            Err(e) => return Err(e),
        }
        match words.next() {
            Some(next) => Err(Error::new(next, ErrorKind::ArgumentsToClosingTag)),
            None => Ok(TagClose { name }),
        }
    }

    /// The tag as the server writes it: `</{name}>`.
    pub fn to_string(&self) -> (r: String)
        ensures
            r@ == "</"@ + self.name@ + ">"@,
    {
        let mut s = String::new();
        push_str(&mut s, "</");
        push_str(&mut s, self.name);
        push_str(&mut s, ">");
        s
    }
}

/// Parsed representation of an opening tag from the server, in the form of `<{name} ...>`.
pub struct TagOpen<'a> {
    /// Element name.
    pub name: &'a str,
    /// Parsed element arguments.
    pub arguments: Arguments<'a>,
}

impl<'a> TagOpen<'a> {
    /// Parses an opening tag: a name and its arguments.
    pub fn parse(source: &'a str) -> (r: Result<Self, Error>)
        ensures
            match tag_open_spec(source@) {
                Ok((name, positional, named)) => r matches Ok(t) && t.name@ == name
                    && t.arguments.positional_view() == positional && t.arguments.named_view()
                    == named,
                Err(e) => r matches Err(x) && x@ == e,
            },
    {
        let mut words = Words::new(source);
        let name = match words.next_or(ErrorKind::EmptyElement) {
            Ok(n) => n,
            Err(e) => return Err(e),
        };
        match validate(name, ErrorKind::InvalidElementName) {
            Ok(()) => {},
            Err(e) => return Err(e),
        }
        match words.parse_args() {
            Ok(arguments) => Ok(TagOpen { name, arguments }),
            Err(e) => Err(e),
        }
    }
}

/// The error type returned when a conversion from a sum type to a specific node type fails.
#[derive(Clone, Debug, Default, PartialEq, Eq)]
pub struct TryFromNodeError {
    prefix: &'static str,
    expected: &'static str,
    got: &'static str,
}

impl TryFromNodeError {
    /// The error of asking `prefix::got` for `prefix::expected`.
    pub fn new(prefix: &'static str, expected: &'static str, got: &'static str) -> (r: Self)
        ensures
            r.spec_prefix() == prefix@,
            r.spec_expected() == expected@,
            r.spec_got() == got@,
    {
        TryFromNodeError { prefix, expected, got }
    }

    /// The sum type of the conversion.
    pub closed spec fn spec_prefix(&self) -> Seq<char> {
        self.prefix@
    }

    /// The variant that was asked for.
    pub closed spec fn spec_expected(&self) -> Seq<char> {
        self.expected@
    }

    /// The variant that was found.
    pub closed spec fn spec_got(&self) -> Seq<char> {
        self.got@
    }

    /// The type that was requested for conversion, as `Prefix::Variant`.
    pub fn expected_type(&self) -> (r: String)
        ensures
            r@ == self.spec_prefix() + "::"@ + self.spec_expected(),
    {
        let mut s = String::new();
        push_str(&mut s, self.prefix);
        push_str(&mut s, "::");
        push_str(&mut s, self.expected);
        s
    }

    /// The actual type that was found, as `Prefix::Variant`.
    pub fn received_type(&self) -> (r: String)
        ensures
            r@ == self.spec_prefix() + "::"@ + self.spec_got(),
    {
        let mut s = String::new();
        push_str(&mut s, self.prefix);
        push_str(&mut s, "::");
        push_str(&mut s, self.got);
        s
    }

    /// The message the error displays.
    pub fn to_message(&self) -> (r: String)
        ensures
            r@ == "expected "@ + self.spec_prefix() + "::"@ + self.spec_expected() + ", got "@
                + self.spec_prefix() + "::"@ + self.spec_got(),
    {
        let mut s = String::new();
        push_str(&mut s, "expected ");
        push_str(&mut s, self.prefix);
        push_str(&mut s, "::");
        push_str(&mut s, self.expected);
        push_str(&mut s, ", got ");
        push_str(&mut s, self.prefix);
        push_str(&mut s, "::");
        push_str(&mut s, self.got);
        s
    }
}

} // verus!

verus! {

/// The kinds of definition tag.
#[derive(Copy, Clone, Debug, PartialEq, Eq, Structural)]
pub enum DefinitionKind {
    /// `<!ATTLIST ...>` or `<!AT ...>`.
    AttributeList,
    /// `<!ELEMENT ...>` or `<!EL ...>`.
    Element,
    /// `<!ENTITY ...>` or `<!EN ...>`.
    Entity,
    /// `<!TAG ...>`.
    LineTag,
}

/// The kind of definition a word names, compared without regard to ASCII case.
pub open spec fn definition_kind(s: Seq<char>) -> Option<DefinitionKind> {
    if eq_ignore_case(s, "attlist"@) || eq_ignore_case(s, "at"@) {
        Some(DefinitionKind::AttributeList)
    } else if eq_ignore_case(s, "element"@) || eq_ignore_case(s, "el"@) {
        Some(DefinitionKind::Element)
    } else if eq_ignore_case(s, "entity"@) || eq_ignore_case(s, "en"@) {
        Some(DefinitionKind::Entity)
    } else if eq_ignore_case(s, "tag"@) {
        Some(DefinitionKind::LineTag)
    } else {
        None
    }
}

impl DefinitionKind {
    /// Parses the kind of a definition, failing with [`ErrorKind::InvalidDefinition`].
    pub fn parse(s: &str) -> (r: Result<DefinitionKind, Error>)
        ensures
            match definition_kind(s@) {
                Some(k) => r matches Ok(x) && x == k,
                None => r matches Err(e) && e@ == (ErrorKind::InvalidDefinition, s@),
            },
    {
        if str_eq_ignore_case(s, "attlist") || str_eq_ignore_case(s, "at") {
            Ok(DefinitionKind::AttributeList)
        } else if str_eq_ignore_case(s, "element") || str_eq_ignore_case(s, "el") {
            Ok(DefinitionKind::Element)
        } else if str_eq_ignore_case(s, "entity") || str_eq_ignore_case(s, "en") {
            Ok(DefinitionKind::Entity)
        } else if str_eq_ignore_case(s, "tag") {
            Ok(DefinitionKind::LineTag)
        } else {
            Err(Error::new(s, ErrorKind::InvalidDefinition))
        }
    }
}

/// The view of a definition.
pub enum DefinitionView {
    /// Name and attributes.
    AttributeList(Seq<char>, Seq<char>),
    /// Name and element, or `None` for a deletion.
    Element(Seq<char>, Option<ElementView>),
    /// Name, value, description and keywords.
    Entity(Seq<char>, Seq<char>, Option<Seq<char>>, EntityKeywords),
    /// The line tag.
    LineTag(LineTagView),
}

/// What parsing the body of a definition tag, after the `!`, gives.
pub open spec fn definition_spec(source: Seq<char>) -> Result<DefinitionView, (ErrorKind, Seq<char>)> {
    let (name, rest) = split_name_spec(source);
    if name.len() == 0 {
        Err((ErrorKind::IncompleteElement, "empty definition"@))
    } else {
        match definition_kind(name) {
            None => Err((ErrorKind::InvalidDefinition, name)),
            Some(DefinitionKind::AttributeList) => match attribute_list_spec(rest) {
                Ok((n, a)) => Ok(DefinitionView::AttributeList(n, a)),
                Err(e) => Err(e),
            },
            Some(DefinitionKind::Element) => match element_definition_spec(rest) {
                Ok((n, el)) => Ok(DefinitionView::Element(n, el)),
                Err(e) => Err(e),
            },
            Some(DefinitionKind::Entity) => match entity_definition_spec(rest) {
                Ok((n, v, d, k)) => Ok(DefinitionView::Entity(n, v, d, k)),
                Err(e) => Err(e),
            },
            Some(DefinitionKind::LineTag) => match line_tag_spec(rest) {
                Ok(v) => Ok(DefinitionView::LineTag(v)),
                Err(e) => Err(e),
            },
        }
    }
}

/// Syntax tree of a definition tag from the server, in the form of `<!...>`.
#[derive(Clone, Debug, PartialEq, Eq)]
pub enum Definition<'a> {
    /// `<!ATTLIST ...>` or `<!AT ...>`.
    AttributeList(AttributeListDefinition<'a>),
    /// `<!ELEMENT ...>` or `<!EL ...>`.
    Element(ElementDefinition<'a>),
    /// `<!ENTITY ...>` or `<!EN ...>`.
    Entity(EntityDefinition<'a>),
    /// `<!TAG ...>`.
    LineTag(LineTagDefinition<'a>),
}

/// The view of a definition.
pub open spec fn definition_view(d: Definition) -> DefinitionView {
    match d {
        Definition::AttributeList(a) => DefinitionView::AttributeList(a.name@, a.attributes@),
        Definition::Element(e) => DefinitionView::Element(
            e.name@,
            match e.element {
                Some(el) => Some(element_view(el)),
                None => None,
            },
        ),
        Definition::Entity(e) => DefinitionView::Entity(e.name@, e.value@, opt_view(e.desc), e.keywords),
        Definition::LineTag(l) => DefinitionView::LineTag(l@),
    }
}

/// A definition as the server writes it.
pub open spec fn definition_text(d: DefinitionView) -> Seq<char> {
    match d {
        DefinitionView::AttributeList(n, a) => "<!AT "@ + n + " '"@ + a + "'>"@,
        DefinitionView::Element(n, el) => match el {
            Some(e) => element_text(e),
            None => "<!EL "@ + n + " DELETE>"@,
        },
        DefinitionView::Entity(n, v, d, k) => entity_definition_text(n, v, d, k),
        DefinitionView::LineTag(l) => line_tag_text(l),
    }
}

impl<'a> Definition<'a> {
    /// Returns the name of the item being defined. A line tag definition has no name, so it
    /// gives `""`.
    pub fn name(&self) -> (r: &'a str)
        ensures
            r@ == match definition_view(*self) {
                DefinitionView::AttributeList(n, _) => n,
                DefinitionView::Element(n, _) => n,
                DefinitionView::Entity(n, _, _, _) => n,
                DefinitionView::LineTag(_) => Seq::empty(),
            },
    {
        match self {
            Definition::AttributeList(def) => def.name,
            Definition::Element(def) => def.name,
            Definition::Entity(def) => def.name,
            Definition::LineTag(_) => {
                proof {
                    reveal_strlit("");
                }
                ""
            },
        }
    }

    /// The definition as the server writes it.
    pub fn to_string(&self) -> (r: String)
        ensures
            r@ == definition_text(definition_view(*self)),
    {
        match self {
            Definition::AttributeList(d) => d.to_string(),
            Definition::Element(d) => d.to_string(),
            Definition::Entity(d) => d.to_string(),
            Definition::LineTag(d) => d.to_string(),
        }
    }

    /// Parses the body of a definition tag, after the `!`: the kind of definition and its body.
    pub fn parse(source: &'a str) -> (r: Result<Self, Error>)
        ensures
            match definition_spec(source@) {
                Ok(v) => r matches Ok(d) && definition_view(d) == v,
                Err(e) => r matches Err(x) && x@ == e,
            },
    {
        let (name, rest) = split_name(source);
        if name.unicode_len() == 0 {
            proof {
                reveal_strlit("empty definition");
            }
            return Err(Error::new("empty definition", ErrorKind::IncompleteElement));
        }
        let kind = match DefinitionKind::parse(name) {
            Ok(k) => k,
            Err(e) => return Err(e),
        };
        match kind {
            DefinitionKind::AttributeList => match AttributeListDefinition::parse(rest) {
                Ok(d) => Ok(Definition::AttributeList(d)),
                Err(e) => Err(e),
            },
            DefinitionKind::Element => match ElementDefinition::parse(rest) {
                Ok(d) => Ok(Definition::Element(d)),
                Err(e) => Err(e),
            },
            DefinitionKind::Entity => match EntityDefinition::parse(rest) {
                Ok(d) => Ok(Definition::Entity(d)),
                Err(e) => Err(e),
            },
            DefinitionKind::LineTag => match LineTagDefinition::parse(rest) {
                Ok(d) => Ok(Definition::LineTag(d)),
                Err(e) => Err(e),
            },
        }
    }

    /// The attribute list definition, or an error naming the kind found.
    pub fn into_attribute_list(self) -> (r: Result<AttributeListDefinition<'a>, TryFromNodeError>)
        ensures
            (self is AttributeList) <==> r is Ok,
            r matches Ok(d) ==> self == Definition::AttributeList(d),
            r matches Err(e) ==> e.spec_prefix() == "Definition"@ && e.spec_expected() == "AttributeList"@
                && e.spec_got() == definition_variant(self),
    {
        match self {
            Definition::AttributeList(d) => Ok(d),
            Definition::Element(_) => Err(TryFromNodeError::new("Definition", "AttributeList", "Element")),
            Definition::Entity(_) => Err(TryFromNodeError::new("Definition", "AttributeList", "Entity")),
            Definition::LineTag(_) => Err(TryFromNodeError::new("Definition", "AttributeList", "LineTag")),
        }
    }

    /// The element definition, or an error naming the kind found.
    pub fn into_element(self) -> (r: Result<ElementDefinition<'a>, TryFromNodeError>)
        ensures
            (self is Element) <==> r is Ok,
            r matches Ok(d) ==> self == Definition::Element(d),
            r matches Err(e) ==> e.spec_prefix() == "Definition"@ && e.spec_expected() == "Element"@
                && e.spec_got() == definition_variant(self),
    {
        match self {
            Definition::AttributeList(_) => Err(TryFromNodeError::new("Definition", "Element", "AttributeList")),
            Definition::Element(d) => Ok(d),
            Definition::Entity(_) => Err(TryFromNodeError::new("Definition", "Element", "Entity")),
            Definition::LineTag(_) => Err(TryFromNodeError::new("Definition", "Element", "LineTag")),
        }
    }

    /// The entity definition, or an error naming the kind found.
    pub fn into_entity(self) -> (r: Result<EntityDefinition<'a>, TryFromNodeError>)
        ensures
            (self is Entity) <==> r is Ok,
            r matches Ok(d) ==> self == Definition::Entity(d),
            r matches Err(e) ==> e.spec_prefix() == "Definition"@ && e.spec_expected() == "Entity"@
                && e.spec_got() == definition_variant(self),
    {
        match self {
            Definition::AttributeList(_) => Err(TryFromNodeError::new("Definition", "Entity", "AttributeList")),
            Definition::Element(_) => Err(TryFromNodeError::new("Definition", "Entity", "Element")),
            Definition::Entity(d) => Ok(d),
            Definition::LineTag(_) => Err(TryFromNodeError::new("Definition", "Entity", "LineTag")),
        }
    }

    /// The line tag definition, or an error naming the kind found.
    pub fn into_line_tag(self) -> (r: Result<LineTagDefinition<'a>, TryFromNodeError>)
        ensures
            (self is LineTag) <==> r is Ok,
            r matches Ok(d) ==> self == Definition::LineTag(d),
            r matches Err(e) ==> e.spec_prefix() == "Definition"@ && e.spec_expected() == "LineTag"@
                && e.spec_got() == definition_variant(self),
    {
        match self {
            Definition::AttributeList(_) => Err(TryFromNodeError::new("Definition", "LineTag", "AttributeList")),
            Definition::Element(_) => Err(TryFromNodeError::new("Definition", "LineTag", "Element")),
            Definition::Entity(_) => Err(TryFromNodeError::new("Definition", "LineTag", "Entity")),
            Definition::LineTag(d) => Ok(d),
        }
    }
}

/// The view of a tag.
pub enum TagView {
    /// A definition.
    Definition(DefinitionView),
    /// A closing tag's name.
    Close(Seq<char>),
    /// An opening tag's name, positional arguments and named arguments.
    Open(Seq<char>, Seq<Seq<char>>, Map<Seq<char>, Seq<char>>),
}

/// What parsing a tag, without its `<` and `>`, gives. Definitions are refused unless the line
/// is secure.
pub open spec fn tag_spec(source: Seq<char>, secure: bool) -> Result<TagView, (ErrorKind, Seq<char>)> {
    let t = trim_ascii(source);
    if t.len() == 0 {
        Err((ErrorKind::EmptyElement, "<>"@))
    } else if t.len() == 1 && (t[0] == '!' || t[0] == '/') {
        Err((ErrorKind::IncompleteElement, seq!['<'] + t + seq!['>']))
    } else if t[0] == '!' && !secure {
        Err((ErrorKind::UnsecuredDefinition, seq!['<'] + t + seq!['>']))
    } else if t[0] == '!' {
        match definition_spec(t.subrange(1, t.len() as int)) {
            Ok(d) => Ok(TagView::Definition(d)),
            Err(e) => Err(e),
        }
    } else if t[0] == '/' {
        match tag_close_spec(t.subrange(1, t.len() as int)) {
            Ok(n) => Ok(TagView::Close(n)),
            Err(e) => Err(e),
        }
    } else {
        match tag_open_spec(t) {
            Ok((n, p, m)) => Ok(TagView::Open(n, p, m)),
            Err(e) => Err(e),
        }
    }
}

/// The three types of MXP tag elements sent by the server.
pub enum Tag<'a> {
    /// A definition, e.g. `<!ELEMENT...>`.
    Definition(Definition<'a>),
    /// A closing tag, e.g. `</BOLD>`.
    Close(TagClose<'a>),
    /// An opening tag, e.g. `<BOLD>`.
    Open(TagOpen<'a>),
}

/// The view of a tag.
pub open spec fn tag_view(t: Tag) -> TagView {
    match t {
        Tag::Definition(d) => TagView::Definition(definition_view(d)),
        Tag::Close(c) => TagView::Close(c.name@),
        Tag::Open(o) => TagView::Open(o.name@, o.arguments.positional_view(), o.arguments.named_view()),
    }
}

/// The name of a definition's variant.
pub open spec fn definition_variant(d: Definition) -> Seq<char> {
    match d {
        Definition::AttributeList(_) => "AttributeList"@,
        Definition::Element(_) => "Element"@,
        Definition::Entity(_) => "Entity"@,
        Definition::LineTag(_) => "LineTag"@,
    }
}

/// The name of a tag's variant.
pub open spec fn tag_variant(t: Tag) -> Seq<char> {
    match t {
        Tag::Definition(_) => "Definition"@,
        Tag::Close(_) => "Close"@,
        Tag::Open(_) => "Open"@,
    }
}

impl<'a> Tag<'a> {
    /// Returns the name of the element.
    pub fn name(&self) -> (r: &'a str)
        ensures
            r@ == match tag_view(*self) {
                TagView::Definition(DefinitionView::AttributeList(n, _)) => n,
                TagView::Definition(DefinitionView::Element(n, _)) => n,
                TagView::Definition(DefinitionView::Entity(n, _, _, _)) => n,
                TagView::Definition(DefinitionView::LineTag(_)) => Seq::empty(),
                TagView::Close(n) => n,
                TagView::Open(n, _, _) => n,
            },
    {
        match self {
            Tag::Definition(definition) => definition.name(),
            Tag::Close(tag) => tag.name,
            Tag::Open(tag) => tag.name,
        }
    }

    /// Parses a tag from data sent by the server, without its `<` and `>`. Definitions
    /// (`<!...>`) are refused unless `secure` holds, that is, unless the line mode is not OPEN.
    pub fn parse(source: &'a str, secure: bool) -> (r: Result<Self, Error>)
        ensures
            match tag_spec(source@, secure) {
                Ok(v) => r matches Ok(t) && tag_view(t) == v,
                Err(e) => r matches Err(x) && x@ == e,
            },
    {
        let words = Words::new(source);
        let t = words.source();
        let n = t.unicode_len();
        if n == 0 {
            proof {
                reveal_strlit("");
                reveal_strlit("<>");
            }
            let e = Error::braced("", ErrorKind::EmptyElement);
            assert(e@.1 =~= "<>"@);
            return Err(e);
        }
        let first = t.get_char(0);
        if n == 1 && (first == '!' || first == '/') {
            return Err(Error::braced(t, ErrorKind::IncompleteElement));
        }
        if first == '!' && !secure {
            return Err(Error::braced(t, ErrorKind::UnsecuredDefinition));
        }
        if first == '!' {
            return match Definition::parse(substring(t, 1, n)) {
                Ok(d) => Ok(Tag::Definition(d)),
                Err(e) => Err(e),
            };
        }
        if first == '/' {
            return match TagClose::parse(substring(t, 1, n)) {
                Ok(c) => Ok(Tag::Close(c)),
                Err(e) => Err(e),
            };
        }
        match TagOpen::parse(t) {
            Ok(o) => Ok(Tag::Open(o)),
            Err(e) => Err(e),
        }
    }

    /// The closing tag, or an error naming the type found.
    pub fn into_close(self) -> (r: Result<TagClose<'a>, TryFromNodeError>)
        ensures
            (self is Close) <==> r is Ok,
            r matches Ok(t) ==> self == Tag::Close(t),
            r matches Err(e) ==> e.spec_prefix() == "Tag"@ && e.spec_expected() == "Close"@
                && e.spec_got() == tag_variant(self),
    {
        match self {
            Tag::Definition(_) => Err(TryFromNodeError::new("Tag", "Close", "Definition")),
            Tag::Close(t) => Ok(t),
            Tag::Open(_) => Err(TryFromNodeError::new("Tag", "Close", "Open")),
        }
    }

    /// The opening tag, or an error naming the type found.
    pub fn into_open(self) -> (r: Result<TagOpen<'a>, TryFromNodeError>)
        ensures
            (self is Open) <==> r is Ok,
            r matches Ok(t) ==> self == Tag::Open(t),
            r matches Err(e) ==> e.spec_prefix() == "Tag"@ && e.spec_expected() == "Open"@
                && e.spec_got() == tag_variant(self),
    {
        match self {
            Tag::Definition(_) => Err(TryFromNodeError::new("Tag", "Open", "Definition")),
            Tag::Close(_) => Err(TryFromNodeError::new("Tag", "Open", "Close")),
            Tag::Open(t) => Ok(t),
        }
    }

    /// The definition, or an error naming the type found.
    pub fn into_definition(self) -> (r: Result<Definition<'a>, TryFromNodeError>)
        ensures
            (self is Definition) <==> r is Ok,
            r matches Ok(t) ==> self == Tag::Definition(t),
            r matches Err(e) ==> e.spec_prefix() == "Tag"@ && e.spec_expected() == "Definition"@
                && e.spec_got() == tag_variant(self),
    {
        match self {
            Tag::Definition(t) => Ok(t),
            Tag::Close(_) => Err(TryFromNodeError::new("Tag", "Definition", "Close")),
            Tag::Open(_) => Err(TryFromNodeError::new("Tag", "Definition", "Open")),
        }
    }
}

} // verus!

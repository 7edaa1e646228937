use vstd::prelude::*;

use crate::node::tag::{
    definition_spec, definition_view, tag_close_spec, Definition, DefinitionView, TagClose,
};
use crate::parse::arguments::{extend_spec, Arguments};
use crate::parse::error::Error;
use crate::parse::error_kind::ErrorKind;
use crate::parse::validation::{valid_name, validate};
use crate::parse::words::{next_word, trim_ascii, Words};
use crate::text::substring;

verus! {

/// The unparsed arguments of a tag.
#[derive(Copy, Clone, Debug, Default, PartialEq, Eq, Hash)]
pub struct ArgumentsStr<'a>(pub &'a str);

impl<'a> ArgumentsStr<'a> {
    /// Parses the arguments.
    pub fn parse_args(self) -> (r: Result<Arguments<'a>, Error>)
        ensures
            ({
                let e = extend_spec(trim_ascii(self.0@), 0, Seq::empty(), Map::empty());
                match e.2 {
                    None => r matches Ok(a) && a.positional_view() == e.0 && a.named_view() == e.1,
                    Some(err) => r matches Err(x) && x@ == err,
                }
            }),
    {
        Arguments::parse(self.0)
    }

    /// The text of the arguments.
    pub fn into_inner(self) -> (r: &'a str)
        ensures
            r == self.0,
    {
        self.0
    }
}

/// A closing tag, `</{name}>`.
#[derive(Copy, Clone, Debug, PartialEq, Eq)]
pub struct ParsedTagClose<'a> {
    /// Element name.
    pub name: &'a str,
}

impl<'a> ParsedTagClose<'a> {
    /// Parses the body of a closing tag: a name and nothing else.
    pub fn parse(source: &'a str) -> (r: Result<Self, Error>)
        ensures
            match tag_close_spec(source@) {
                Ok(name) => r matches Ok(t) && t.name@ == name,
                Err(e) => r matches Err(x) && x@ == e,
            },
    {
        match TagClose::parse(source) {
            Ok(t) => Ok(ParsedTagClose { name: t.name }),
            Err(e) => Err(e),
        }
    }
}

/// An opening tag, `<{name} ...>`, whose arguments are kept as text.
#[derive(Copy, Clone, Debug, PartialEq, Eq)]
pub struct ParsedTagOpen<'a> {
    /// Element name.
    pub name: &'a str,
    /// The text of the arguments.
    pub arguments: ArgumentsStr<'a>,
}

/// What parsing an opening tag with unparsed arguments gives: the name and the text after it.
pub open spec fn parsed_tag_open_spec(source: Seq<char>) -> Result<(Seq<char>, Seq<char>), (ErrorKind, Seq<char>)> {
    let t = trim_ascii(source);
    match next_word(t, 0) {
        None => Err((ErrorKind::EmptyElement, t)),
        Some((name, p1)) => if !valid_name(name) {
            Err((ErrorKind::InvalidElementName, name))
        } else {
            Ok((name, t.subrange(p1, t.len() as int)))
        },
    }
}

impl<'a> ParsedTagOpen<'a> {
    /// Parses an opening tag: its name, and the rest as unparsed arguments.
    pub fn parse(source: &'a str) -> (r: Result<Self, Error>)
        ensures
            match parsed_tag_open_spec(source@) {
                Ok((name, rest)) => r matches Ok(t) && t.name@ == name && t.arguments.0@ == rest,
                Err(e) => r matches Err(x) && x@ == e,
            },
    {
        let mut words = Words::new(source);
        let name = match words.next_or(ErrorKind::EmptyElement) {
            Ok(n) => n,
            Err(e) => return Err(e),
        };
        match validate(name, ErrorKind::InvalidElementName) {
            Ok(()) => {},
            Err(e) => return Err(e),
        }
        Ok(ParsedTagOpen { name, arguments: ArgumentsStr(words.as_str()) })
    }
}


/// A definition tag, `<!...>`.
pub type ParsedDefinition<'a> = Definition<'a>;

/// The view of a tag parsed without splitting its arguments.
pub enum ParsedElementView {
    /// A definition.
    Definition(DefinitionView),
    /// A closing tag's name.
    TagClose(Seq<char>),
    /// An opening tag's name and the text of its arguments.
    TagOpen(Seq<char>, Seq<char>),
}

/// What parsing a tag without splitting its arguments gives. Definitions are refused unless
/// the line is secure.
pub open spec fn parsed_element_spec(source: Seq<char>, secure: bool) -> Result<
    ParsedElementView,
    (ErrorKind, Seq<char>),
> {
    let t = trim_ascii(source);
    if t.len() == 0 {
        Err((ErrorKind::EmptyElement, "<>"@))
    } else if t.len() == 1 && (t[0] == '!' || t[0] == '/') {
        Err((ErrorKind::IncompleteElement, seq!['<'] + t + seq!['>']))
    } else if t[0] == '!' && !secure {
        Err((ErrorKind::UnsecuredDefinition, seq!['<'] + t + seq!['>']))
    } else if t[0] == '!' {
        match definition_spec(t.subrange(1, t.len() as int)) {
            Ok(d) => Ok(ParsedElementView::Definition(d)),
            Err(e) => Err(e),
        }
    } else if t[0] == '/' {
        match tag_close_spec(t.subrange(1, t.len() as int)) {
            Ok(n) => Ok(ParsedElementView::TagClose(n)),
            Err(e) => Err(e),
        }
    } else {
        match parsed_tag_open_spec(t) {
            Ok((n, a)) => Ok(ParsedElementView::TagOpen(n, a)),
            Err(e) => Err(e),
        }
    }
}

/// The three types of MXP tag elements sent by the server, with the arguments of an opening
/// tag kept as text.
pub enum ParsedElement<'a> {
    /// A definition, e.g. `<!ELEMENT...>`.
    Definition(ParsedDefinition<'a>),
    /// A closing tag, e.g. `</BOLD>`.
    TagClose(ParsedTagClose<'a>),
    /// An opening tag, e.g. `<BOLD>`.
    TagOpen(ParsedTagOpen<'a>),
}

/// The view of a parsed element.
pub open spec fn parsed_element_view(e: ParsedElement) -> ParsedElementView {
    match e {
        ParsedElement::Definition(d) => ParsedElementView::Definition(definition_view(d)),
        ParsedElement::TagClose(c) => ParsedElementView::TagClose(c.name@),
        ParsedElement::TagOpen(o) => ParsedElementView::TagOpen(o.name@, o.arguments.0@),
    }
}

impl<'a> ParsedElement<'a> {
    /// Returns the name of the element; a line tag definition has none and gives `""`.
    pub fn name(&self) -> (r: &'a str)
        ensures
            r@ == match parsed_element_view(*self) {
                ParsedElementView::Definition(DefinitionView::AttributeList(n, _)) => n,
                ParsedElementView::Definition(DefinitionView::Element(n, _)) => n,
                ParsedElementView::Definition(DefinitionView::Entity(n, _, _, _)) => n,
                ParsedElementView::Definition(DefinitionView::LineTag(_)) => Seq::empty(),
                ParsedElementView::TagClose(n) => n,
                ParsedElementView::TagOpen(n, _) => n,
            },
    {
        match self {
            ParsedElement::Definition(definition) => definition.name(),
            ParsedElement::TagClose(tag) => tag.name,
            ParsedElement::TagOpen(tag) => tag.name,
        }
    }

    /// Parses an element from data sent by the server, without its `<` and `>`. Definitions
    /// (`<!...>`) are refused unless `secure` holds, that is, unless the line mode is not OPEN.
    pub fn parse(source: &'a str, secure: bool) -> (r: Result<Self, Error>)
        ensures
            match parsed_element_spec(source@, secure) {
                Ok(v) => r matches Ok(e) && parsed_element_view(e) == v,
                Err(e) => r matches Err(x) && x@ == e,
            },
    {
        let t = Words::new(source).source();
        let n = t.unicode_len();
        if n == 0 {
            proof {
                reveal_strlit("");
                reveal_strlit("<>");
            }
            let e = Error::braced("", ErrorKind::EmptyElement);
            assert(e@.1 =~= "<>"@);
            return Err(e);
        }
        let first = t.get_char(0);
        if n == 1 && (first == '!' || first == '/') {
            return Err(Error::braced(t, ErrorKind::IncompleteElement));
        }
        if first == '!' && !secure {
            return Err(Error::braced(t, ErrorKind::UnsecuredDefinition));
        }
        if first == '!' {
            return match Definition::parse(substring(t, 1, n)) {
                Ok(d) => Ok(ParsedElement::Definition(d)),
                Err(e) => Err(e),
            };
        }
        if first == '/' {
            return match ParsedTagClose::parse(substring(t, 1, n)) {
                Ok(c) => Ok(ParsedElement::TagClose(c)),
                Err(e) => Err(e),
            };
        }
        match ParsedTagOpen::parse(t) {
            Ok(o) => Ok(ParsedElement::TagOpen(o)),
            Err(e) => Err(e),
        }
    }
}

} // verus!
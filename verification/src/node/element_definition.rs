use vstd::prelude::*;

use super::definition::{named_arg, parse_u8_text, split_name, split_name_spec};
use crate::element::atom::AtomView;
use crate::element::element::{element_text, element_view, Element, ElementView};
use crate::element::item::{item_view, items_spec, ElementItem};
use crate::line::mode::{mode_is_user_defined, Mode, ParseAs};
use crate::parse::arguments::{extend_spec, split_keywords, Arguments};
use crate::parse::error::Error;
use crate::parse::error_kind::ErrorKind;
use crate::parse::validation::{valid_name, validate};
use crate::parse::words::trim_ascii;
use crate::text::{ascii_lower_seq, chars_of, eq_ignore_case, push_str, str_eq_ignore_case, substring};

verus! {

/// The keyword names of an element definition.
pub open spec fn element_keyword_names() -> Seq<Seq<char>> {
    seq!["open"@, "empty"@, "delete"@]
}

/// How an automapper parses an element's text, by the name a `FLAG=` argument gives.
pub open spec fn parse_as_named(s: Seq<char>) -> Option<ParseAs> {
    if eq_ignore_case(s, "RoomName"@) {
        Some(ParseAs::RoomName)
    } else if eq_ignore_case(s, "RoomDesc"@) {
        Some(ParseAs::RoomDesc)
    } else if eq_ignore_case(s, "RoomExit"@) {
        Some(ParseAs::RoomExit)
    } else {
        None
    }
}

/// The line tag that a `TAG=` argument gives: a user-defined line tag number.
pub open spec fn tag_arg(arg: Option<Seq<char>>) -> Result<Option<u8>, (ErrorKind, Seq<char>)> {
    match arg {
        None => Ok(None),
        Some(t) => match parse_u8_text(t) {
            Some(n) => if mode_is_user_defined(n) {
                Ok(Some(n))
            } else {
                Err((ErrorKind::IllegalLineTagInDefinition, t))
            },
            None => Err((ErrorKind::IllegalLineTagInDefinition, t)),
        },
    }
}

/// What a `FLAG=` argument gives: `SET name` sets a variable; otherwise it names how an
/// automapper parses the element's text.
pub open spec fn flag_arg(arg: Option<Seq<char>>) -> Result<
    (Option<ParseAs>, Option<Seq<char>>),
    (ErrorKind, Seq<char>),
> {
    match arg {
        None => Ok((None, None)),
        Some(f) => if f.len() >= 4 && eq_ignore_case(f.subrange(0, 4), "set "@) {
            Ok((None, Some(f.subrange(4, f.len() as int))))
        } else {
            match parse_as_named(f) {
                Some(p) => Ok((Some(p), None)),
                None => Err((ErrorKind::UnexpectedArgument, f)),
            }
        },
    }
}

/// The attribute list that an `ATT=` argument gives, which must parse as arguments.
pub open spec fn att_arg(arg: Option<Seq<char>>) -> Result<Seq<char>, (ErrorKind, Seq<char>)> {
    match arg {
        None => Ok(Seq::empty()),
        Some(a) => match extend_spec(trim_ascii(a), 0, Seq::empty(), Map::empty()).2 {
            Some(err) => Err(err),
            None => Ok(a),
        },
    }
}

/// What the arguments of an element definition give.
pub open spec fn element_from_args(
    name: Seq<char>,
    positional: Seq<Seq<char>>,
    named: Map<Seq<char>, Seq<char>>,
) -> Result<Option<ElementView>, (ErrorKind, Seq<char>)> {
    let (v, kw, lo) = split_keywords(positional, element_keyword_names());
    let items = match v {
        Some(arg) => items_spec(arg, 0),
        None => Ok(Seq::empty()),
    };
    match items {
        Err(e) => Err(e),
        Ok(items) => match att_arg(named_arg(named, "att"@)) {
            Err(e) => Err(e),
            Ok(attributes) => match tag_arg(named_arg(named, "tag"@)) {
                Err(e) => Err(e),
                Ok(line_tag) => match flag_arg(named_arg(named, "flag"@)) {
                    Err(e) => Err(e),
                    Ok((parse_as, variable)) => match lo {
                        Some(l) => Err((ErrorKind::UnexpectedArgument, l)),
                        None => if kw.contains(2) {
                            Ok(None)
                        } else {
                            Ok(
                                Some(
                                    ElementView {
                                        name,
                                        open: kw.contains(0),
                                        command: kw.contains(1),
                                        items,
                                        attributes,
                                        line_tag,
                                        parse_as,
                                        variable,
                                    },
                                ),
                            )
                        },
                    },
                },
            },
        },
    }
}

/// What parsing the body of an element definition gives: its name, and the element, or
/// `None` for a `DELETE` instruction.
pub open spec fn element_definition_spec(source: Seq<char>) -> Result<
    (Seq<char>, Option<ElementView>),
    (ErrorKind, Seq<char>),
> {
    let (name, rest) = split_name_spec(source);
    if name.len() == 0 {
        Err((ErrorKind::IncompleteElement, "empty element definition"@))
    } else if !valid_name(name) {
        Err((ErrorKind::InvalidElementName, name))
    } else {
        let e = extend_spec(trim_ascii(rest), 0, Seq::empty(), Map::empty());
        match e.2 {
            Some(err) => Err(err),
            None => match element_from_args(name, e.0, e.1) {
                Ok(el) => Ok((name, el)),
                Err(err) => Err(err),
            },
        }
    }
}

/// Syntax tree of an element definition from the server, in the form of
/// `<!ELEMENT {name} ...>`.
#[derive(Clone, Debug, PartialEq, Eq)]
pub struct ElementDefinition<'a> {
    /// Name of the element.
    pub name: &'a str,
    /// Definition of the element, or `None` if this is a `DELETE` instruction.
    pub element: Option<Element>,
}

fn parse_as_exec(f: &str) -> (r: Option<ParseAs>)
    ensures
        r == parse_as_named(f@),
{
    if str_eq_ignore_case(f, "RoomName") {
        Some(ParseAs::RoomName)
    } else if str_eq_ignore_case(f, "RoomDesc") {
        Some(ParseAs::RoomDesc)
    } else if str_eq_ignore_case(f, "RoomExit") {
        Some(ParseAs::RoomExit)
    } else {
        None
    }
}

fn tag_arg_exec(arg: Option<&str>) -> (r: Result<Option<Mode>, Error>)
    ensures
        match tag_arg(super::definition::opt_view(arg)) {
            Ok(Some(n)) => r matches Ok(Some(m)) && m.0 == n,
            Ok(None) => r matches Ok(None),
            Err(e) => r matches Err(x) && x@ == e,
        },
{
    match arg {
        None => Ok(None),
        Some(t) => {
            let cs = chars_of(t);
            match crate::parse::decoder::parse_u32(cs.as_slice(), 10) {
                Some(n) => {
                    if n <= 255 && Mode(n as u8).is_user_defined() {
                        Ok(Some(Mode(n as u8)))
                    } else {
                        Err(Error::new(t, ErrorKind::IllegalLineTagInDefinition))
                    }
                },
                None => Err(Error::new(t, ErrorKind::IllegalLineTagInDefinition)),
            }
        },
    }
}

fn flag_arg_exec(arg: Option<&str>) -> (r: Result<(Option<ParseAs>, Option<String>), Error>)
    ensures
        match flag_arg(super::definition::opt_view(arg)) {
            Ok((p, v)) => r matches Ok((q, w)) && q == p && match w {
                Some(s) => v == Some(s@),
                None => v is None,
            },
            Err(e) => r matches Err(x) && x@ == e,
        },
{
    match arg {
        None => Ok((None, None)),
        Some(f) => {
            let n = f.unicode_len();
            if n >= 4 && str_eq_ignore_case(substring(f, 0, 4), "set ") {
                proof {
                    reveal_strlit("set ");
                }
                return Ok((None, Some(substring(f, 4, n).to_owned())));
            }
            proof {
                reveal_strlit("set ");
            }
            match parse_as_exec(f) {
                Some(p) => Ok((Some(p), None)),
                None => Err(Error::new(f, ErrorKind::UnexpectedArgument)),
            }
        },
    }
}

fn att_arg_exec(arg: Option<&str>) -> (r: Result<String, Error>)
    ensures
        match att_arg(super::definition::opt_view(arg)) {
            Ok(a) => r matches Ok(s) && s@ == a,
            Err(e) => r matches Err(x) && x@ == e,
        },
{
    match arg {
        None => Ok(String::new()),
        Some(a) => match Arguments::parse(a) {
            Ok(_) => Ok(a.to_owned()),
            Err(e) => Err(e),
        },
    }
}

impl<'a> ElementDefinition<'a> {
    /// Parses the body of an element definition: a name, the element's items, `ATT=`, `TAG=`
    /// and `FLAG=` arguments, and the `OPEN`, `EMPTY` and `DELETE` keywords.
    pub fn parse(source: &'a str) -> (r: Result<Self, Error>)
        ensures
            match element_definition_spec(source@) {
                Ok((name, el)) => r matches Ok(d) && d.name@ == name && match d.element {
                    Some(e) => el == Some(element_view(e)),
                    None => el is None,
                },
                Err(e) => r matches Err(x) && x@ == e,
            },
    {
        let (name, rest) = split_name(source);
        if name.unicode_len() == 0 {
            proof {
                reveal_strlit("empty element definition");
            }
            return Err(Error::new("empty element definition", ErrorKind::IncompleteElement));
        }
        match validate(name, ErrorKind::InvalidElementName) {
            Ok(()) => {},
            Err(e) => return Err(e),
        }
        let args = match Arguments::parse(rest) {
            Ok(a) => a,
            Err(e) => return Err(e),
        };
        let names: [&str; 3] = ["open", "empty", "delete"];
        let (value, flags, leftover) = args.split_keywords(names.as_slice());
        proof {
            reveal_strlit("open");
            reveal_strlit("empty");
            reveal_strlit("delete");
            assert(names@.map_values(|n: &str| n@) =~= element_keyword_names());
        }
        let items = match value {
            Some(arg) => match ElementItem::parse_all(arg) {
                Ok(items) => items,
                Err(e) => return Err(e),
            },
            None => Vec::new(),
        };
        proof {
            reveal_strlit("att");
            reveal_strlit("tag");
            reveal_strlit("flag");
            assert(ascii_lower_seq("att"@) =~= "att"@);
            assert(ascii_lower_seq("tag"@) =~= "tag"@);
            assert(ascii_lower_seq("flag"@) =~= "flag"@);
        }
        let attributes = match att_arg_exec(args.get_named("att")) {
            Ok(a) => a,
            Err(e) => return Err(e),
        };
        let line_tag = match tag_arg_exec(args.get_named("tag")) {
            Ok(t) => t,
            Err(e) => return Err(e),
        };
        let (parse_as, variable) = match flag_arg_exec(args.get_named("flag")) {
            Ok(f) => f,
            Err(e) => return Err(e),
        };
        match leftover {
            Some(l) => return Err(Error::new(l, ErrorKind::UnexpectedArgument)),
            None => {},
        }
        if flags[2] {
            return Ok(ElementDefinition { name, element: None });
        }
        let element = Element {
            name: name.to_owned(),
            open: flags[0],
            command: flags[1],
            items,
            attributes,
            line_tag,
            parse_as,
            variable,
        };
        proof {
            if value is None {
                assert(element.items@.map_values(|x: ElementItem| item_view(x)) =~= Seq::<
                    (AtomView, Seq<char>),
                >::empty());
            }
        }
        Ok(ElementDefinition { name, element: Some(element) })
    }
    /// The definition as the server writes it; a deletion is `<!EL {name} DELETE>`.
    pub fn to_string(&self) -> (r: String)
        ensures
            r@ == match self.element {
                Some(e) => element_text(element_view(e)),
                None => "<!EL "@ + self.name@ + " DELETE>"@,
            },
    {
        match &self.element {
            Some(e) => e.to_string(),
            None => {
                let mut s = String::new();
                push_str(&mut s, "<!EL ");
                push_str(&mut s, self.name);
                push_str(&mut s, " DELETE>");
                s
            },
        }
    }
}

} // verus!

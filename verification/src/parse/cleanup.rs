use vstd::prelude::*;

use super::arguments::{extend_spec, Arguments};
use super::error::{Error, FromStrError, FromStrErrorView};
use super::error_kind::ErrorKind;
use super::validation::{valid_name, validate};
use super::words::{next_word, trim_ascii, Words};
use crate::element::action::ActionType;
use crate::element::atom::{atom_named, Atom};
use crate::text::substring;

verus! {

/// The body of a complete tag: the text without surrounding whitespace, without its `<` and
/// `>`, and without the whitespace inside them.
pub open spec fn cleanup_spec(source: Seq<char>) -> Result<Seq<char>, (ErrorKind, Seq<char>)> {
    let t = trim_ascii(source);
    if !(t.len() > 0 && t[0] == '<') {
        Err((ErrorKind::NoTagInDefinition, source))
    } else if !(t.len() > 1 && t.last() == '>') {
        Err((ErrorKind::UnterminatedElement, source))
    } else {
        Ok(trim_ascii(t.subrange(1, t.len() - 1)))
    }
}

/// Strips the surrounding whitespace and the `<` and `>` of a complete tag.
pub fn cleanup_source(source: &str) -> (r: Result<&str, Error>)
    ensures
        match cleanup_spec(source@) {
            Ok(body) => r matches Ok(b) && b@ == body,
            Err(e) => r matches Err(x) && x@ == e,
        },
{
    let t = Words::new(source).source();
    let n = t.unicode_len();
    if !(n > 0 && t.get_char(0) == '<') {
        return Err(Error::new(source, ErrorKind::NoTagInDefinition));
    }
    if !(n > 1 && t.get_char(n - 1) == '>') {
        return Err(Error::new(source, ErrorKind::UnterminatedElement));
    }
    Ok(Words::new(substring(t, 1, n - 1)).source())
}

/// What reading a complete tag of a given action gives: the arguments of the tag, or why it
/// is not such a tag.
pub open spec fn parse_element_spec(source: Seq<char>, action: ActionType) -> Result<
    (Seq<Seq<char>>, Map<Seq<char>, Seq<char>>),
    FromStrErrorView,
> {
    match cleanup_spec(source) {
        Err(e) => Err(FromStrErrorView::SyntaxError(e.0, e.1)),
        Ok(body) => {
            let t = trim_ascii(body);
            match next_word(t, 0) {
                None => Err(FromStrErrorView::SyntaxError(ErrorKind::EmptyElement, t)),
                Some((name, p1)) => if !valid_name(name) {
                    Err(FromStrErrorView::SyntaxError(ErrorKind::InvalidElementName, name))
                } else if !(atom_named(name) matches Some(a) && a.action == action) {
                    Err(FromStrErrorView::UnexpectedTag(name))
                } else {
                    let e = extend_spec(t, p1, Seq::empty(), Map::empty());
                    match e.2 {
                        Some(err) => Err(FromStrErrorView::SyntaxError(err.0, err.1)),
                        None => Ok((e.0, e.1)),
                    }
                }
            }
        },
    }
}

/// Reads a complete tag, such as `<SOUND "ouch.wav" V=50>`, that must be an atomic tag of
/// the given action, and returns its arguments.
pub fn parse_element<'a>(source: &'a str, action: ActionType) -> (r: Result<Arguments<'a>, FromStrError>)
    ensures
        match parse_element_spec(source@, action) {
            Ok((positional, named)) => r matches Ok(a) && a.positional_view() == positional
                && a.named_view() == named,
            Err(e) => r matches Err(x) && x@ == e,
        },
{
    let body = match cleanup_source(source) {
        Ok(b) => b,
        Err(e) => return Err(FromStrError::SyntaxError(e)),
    };
    let mut words = Words::new(body);
    let name = match words.next_or(ErrorKind::EmptyElement) {
        Ok(n) => n,
        Err(e) => return Err(FromStrError::SyntaxError(e)),
    };
    match validate(name, ErrorKind::InvalidElementName) {
        Ok(()) => {},
        Err(e) => return Err(FromStrError::SyntaxError(e)),
    }
    let matches = match Atom::get(name) {
        Some(atom) => atom.action == action,
        None => false,
    };
    if !matches {
        return Err(FromStrError::UnexpectedTag(name.to_owned()));
    }
    match words.parse_args() {
        Ok(args) => Ok(args),
        Err(e) => Err(FromStrError::SyntaxError(e)),
    }
}

} // verus!

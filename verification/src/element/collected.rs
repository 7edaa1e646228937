use vstd::prelude::*;

use super::element::Element;
use crate::entity::error::{Error, ParseError};
use crate::text::substring;

verus! {

/// A tag collected from the server's output, sorted by its first character.
#[derive(Copy, Clone, Debug, PartialEq, Eq, Hash)]
pub enum CollectedElement<'a> {
    /// `<!...>`: the text after the `!`.
    Definition(&'a str),
    /// `</...>`: the text after the `/`.
    TagClose(&'a str),
    /// Any other tag: the whole text.
    TagOpen(&'a str),
}

impl<'a> CollectedElement<'a> {
    /// Sorts the text of a tag, without its `<` and `>`: a definition if it starts with `!`, a
    /// closing tag if it starts with `/`, an opening tag otherwise. Fails on empty text.
    pub fn from_str(text: &'a str) -> (r: Result<Self, ParseError>)
        ensures
            text@.len() == 0 ==> (r matches Err(e) && e.spec_error() == Error::EmptyElement
                && e.spec_target() == "collected element"@),
            text@.len() > 0 && text@[0] == '!' ==> (r matches Ok(CollectedElement::Definition(s))
                && s@ == text@.drop_first()),
            text@.len() > 0 && text@[0] == '/' ==> (r matches Ok(CollectedElement::TagClose(s))
                && s@ == text@.drop_first()),
            text@.len() > 0 && text@[0] != '!' && text@[0] != '/' ==> r == Ok::<
                CollectedElement<'a>,
                ParseError,
            >(CollectedElement::TagOpen(text)),
    {
        let n = text.unicode_len();
        if n == 0 {
            proof {
                reveal_strlit("collected element");
            }
            return Err(ParseError::new("collected element", Error::EmptyElement));
        }
        let first = text.get_char(0);
        assert(text@.subrange(1, n as int) =~= text@.drop_first());
        if first == '!' {
            Ok(CollectedElement::Definition(substring(text, 1, n)))
        } else if first == '/' {
            Ok(CollectedElement::TagClose(substring(text, 1, n)))
        } else {
            Ok(CollectedElement::TagOpen(text))
        }
    }
}

impl Element {
    /// Sorts the text of a collected tag (see [`CollectedElement::from_str`]).
    pub fn collect(text: &str) -> (r: Result<CollectedElement<'_>, ParseError>)
        ensures
            text@.len() == 0 ==> (r matches Err(e) && e.spec_error() == Error::EmptyElement
                && e.spec_target() == "collected element"@),
            text@.len() > 0 && text@[0] == '!' ==> (r matches Ok(CollectedElement::Definition(s))
                && s@ == text@.drop_first()),
            text@.len() > 0 && text@[0] == '/' ==> (r matches Ok(CollectedElement::TagClose(s))
                && s@ == text@.drop_first()),
            text@.len() > 0 && text@[0] != '!' && text@[0] != '/' ==> r == Ok::<
                CollectedElement<'_>,
                ParseError,
            >(CollectedElement::TagOpen(text)),
    {
        CollectedElement::from_str(text)
    }
}

} // verus!

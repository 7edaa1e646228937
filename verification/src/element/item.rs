use vstd::prelude::*;

use super::atom::{atom_named, atom_view, Atom, AtomView};
use crate::parse::arguments::extend_spec;
use crate::parse::error::Error;
use crate::parse::error_kind::ErrorKind;
use crate::parse::words::{
    find_from, find_from_exec, lemma_find_from, next_word, trim_ascii, Words,
};
use crate::text::{chars_of, substring};

verus! {

/// What parsing one item of an element definition, the text between `<` and `>`, gives: the
/// atomic tag it names and the text of its arguments.
pub open spec fn item_spec(body: Seq<char>) -> Result<(AtomView, Seq<char>), (ErrorKind, Seq<char>)> {
    let t = trim_ascii(body);
    match next_word(t, 0) {
        None => Err((ErrorKind::EmptyElementInDefinition, body)),
        Some((name, p1)) => {
            let after = match next_word(t, p1) {
                Some((w, _)) => w,
                None => Seq::empty(),
            };
            if name == seq!['/'] {
                Err((ErrorKind::CloseTagInDefinition, after))
            } else if name == seq!['!'] {
                Err((ErrorKind::DefinitionInDefinition, after))
            } else {
                match atom_named(name) {
                    None => Err((ErrorKind::UnknownElementInDefinition, name)),
                    Some(a) => {
                        let e = extend_spec(t, p1, Seq::empty(), Map::empty());
                        match e.2 {
                            Some(err) => Err(err),
                            None => Ok((a, t.subrange(p1, t.len() as int))),
                        }
                    },
                }
            }
        },
    }
}

/// Where the item that starts after a `<` at `j` ends: the index of its `>`, skipping quoted
/// text; or the error about the whole definition `d` that stops it.
pub open spec fn item_end(d: Seq<char>, j: int) -> Result<int, (ErrorKind, Seq<char>)>
    decreases d.len() - j,
{
    if j >= d.len() || j < 0 {
        Err((ErrorKind::UnterminatedElementInDefinition, d))
    } else if d[j] == '>' {
        Ok(j)
    } else if d[j] == '<' {
        Err((ErrorKind::UnexpectedSymbolInDefinition, d))
    } else if d[j] == '\'' || d[j] == '"' {
        let q = find_from(d, j + 1, d[j]);
        if q >= d.len() {
            Err((ErrorKind::UnterminatedQuoteInDefinition, d))
        } else {
            proof {
                lemma_find_from(d, j + 1, d[j]);
            }
            item_end(d, q + 1)
        }
    } else {
        item_end(d, j + 1)
    }
}

/// An item ends at a `>` at or after where it starts.
pub proof fn lemma_item_end(d: Seq<char>, j: int)
    requires
        0 <= j,
    ensures
        item_end(d, j) matches Ok(k) ==> j <= k < d.len() && d[k] == '>',
    decreases d.len() - j,
{
    if 0 <= j < d.len() && d[j] != '>' && d[j] != '<' {
        if d[j] == '\'' || d[j] == '"' {
            lemma_find_from(d, j + 1, d[j]);
            let q = find_from(d, j + 1, d[j]);
            if q < d.len() {
                lemma_item_end(d, q + 1);
            }
        } else {
            lemma_item_end(d, j + 1);
        }
    }
}

/// The items of an element definition `d` from `i` on, each parsed, or the first error.
pub open spec fn items_spec(d: Seq<char>, i: int) -> Result<Seq<(AtomView, Seq<char>)>, (ErrorKind, Seq<char>)>
    decreases d.len() - i,
{
    if i >= d.len() || i < 0 {
        Ok(Seq::empty())
    } else if d[i] != '<' {
        Err((ErrorKind::NoTagInDefinition, d))
    } else {
        match item_end(d, i + 1) {
            Err(e) => Err(e),
            Ok(k) => match item_spec(d.subrange(i + 1, k)) {
                Err(e) => Err(e),
                Ok(item) => {
                    proof {
                        lemma_item_end(d, i + 1);
                    }
                    match items_spec(d, k + 1) {
                        Err(e) => Err(e),
                        Ok(rest) => Ok(seq![item] + rest),
                    }
                },
            },
        }
    }
}

/// One action of a user-defined element: an atomic tag and the text of its arguments.
#[derive(Clone, Debug, PartialEq, Eq)]
pub struct ElementItem {
    /// The atomic tag.
    pub atom: Atom,
    /// The text of the tag's arguments.
    pub arguments: String,
}

/// The view of an element item.
pub open spec fn item_view(item: ElementItem) -> (AtomView, Seq<char>) {
    (atom_view(item.atom), item.arguments@)
}

impl ElementItem {
    /// Parses the text between `<` and `>` of one item of an element definition: the name of
    /// an atomic tag, and its arguments.
    pub fn parse(tag: &str) -> (r: Result<ElementItem, Error>)
        ensures
            match item_spec(tag@) {
                Ok(v) => r matches Ok(item) && item_view(item) == v,
                Err(e) => r matches Err(x) && x@ == e,
            },
    {
        let mut words = Words::new(tag);
        let name = match words.next() {
            Some(n) => n,
            None => return Err(Error::new(tag, ErrorKind::EmptyElementInDefinition)),
        };
        let is_close = name.unicode_len() == 1 && name.get_char(0) == '/';
        let is_definition = name.unicode_len() == 1 && name.get_char(0) == '!';
        proof {
            if name@ == seq!['/'] || name@ == seq!['!'] {
                assert(name@.len() == 1);
            }
            if is_close {
                assert(name@ =~= seq!['/']);
            }
            if is_definition {
                assert(name@ =~= seq!['!']);
            }
        }
        if is_close || is_definition {
            let after = match words.next() {
                Some(w) => w,
                None => "",
            };
            proof {
                reveal_strlit("");
            }
            let kind = if is_close {
                ErrorKind::CloseTagInDefinition
            } else {
                ErrorKind::DefinitionInDefinition
            };
            return Err(Error::new(after, kind));
        }
        let atom = match Atom::get(name) {
            Some(a) => a,
            None => return Err(Error::new(name, ErrorKind::UnknownElementInDefinition)),
        };
        let rest = words.as_str();
        match words.parse_args() {
            Ok(_) => {},
            Err(e) => return Err(e),
        }
        Ok(ElementItem { atom, arguments: rest.to_owned() })
    }

    /// Parses the items of an element definition, each written `<tag arguments>`.
    pub fn parse_all(definitions: &str) -> (r: Result<Vec<ElementItem>, Error>)
        ensures
            match items_spec(definitions@, 0) {
                Ok(v) => r matches Ok(items) && items@.map_values(|x: ElementItem| item_view(x)) == v,
                Err(e) => r matches Err(x) && x@ == e,
            },
    {
        let d = chars_of(definitions);
        let mut items: Vec<ElementItem> = Vec::new();
        let mut i: usize = 0;
        loop
            invariant
                i <= d@.len(),
                d@ == definitions@,
                items_spec(d@, 0) == match items_spec(d@, i as int) {
                    Ok(rest) => Ok(items@.map_values(|x: ElementItem| item_view(x)) + rest),
                    Err(e) => Err(e),
                },
            decreases d@.len() - i,
        {
            if i >= d.len() {
                assert(items@.map_values(|x: ElementItem| item_view(x)) + Seq::empty() =~= items@.map_values(
                    |x: ElementItem| item_view(x),
                ));
                return Ok(items);
            }
            if d[i] != '<' {
                return Err(Error::new(definitions, ErrorKind::NoTagInDefinition));
            }
            let k = match Self::item_end_exec(definitions, &d, i + 1) {
                Ok(k) => k,
                Err(e) => return Err(e),
            };
            proof {
                lemma_item_end(d@, i + 1);
            }
            let body = substring(definitions, i + 1, k);
            let item = match ElementItem::parse(body) {
                Ok(item) => item,
                Err(e) => return Err(e),
            };
            let ghost before = items@.map_values(|x: ElementItem| item_view(x));
            items.push(item);
            proof {
                assert(items@.map_values(|x: ElementItem| item_view(x)) =~= before.push(item_view(item)));
                match items_spec(d@, k + 1) {
                    Ok(rest) => {
                        assert(before + (seq![item_view(item)] + rest) =~= before.push(item_view(item)) + rest);
                    },
                    Err(_) => {},
                }
            }
            i = k + 1;
        }
    }

    fn item_end_exec(definitions: &str, d: &Vec<char>, start: usize) -> (r: Result<usize, Error>)
        requires
            d@ == definitions@,
            start <= d@.len(),
        ensures
            match item_end(d@, start as int) {
                Ok(k) => r == Ok::<usize, Error>(k as usize),
                Err(e) => r matches Err(x) && x@ == e,
            },
    {
        let mut j = start;
        loop
            invariant
                j <= d@.len(),
                d@ == definitions@,
                item_end(d@, start as int) == item_end(d@, j as int),
            decreases d@.len() - j,
        {
            if j >= d.len() {
                return Err(Error::new(definitions, ErrorKind::UnterminatedElementInDefinition));
            }
            let c = d[j];
            if c == '>' {
                return Ok(j);
            }
            if c == '<' {
                return Err(Error::new(definitions, ErrorKind::UnexpectedSymbolInDefinition));
            }
            if c == '\'' || c == '"' {
                let q = find_from_exec(d, j + 1, c);
                proof {
                    lemma_find_from(d@, j + 1, c);
                }
                if q >= d.len() {
                    return Err(Error::new(definitions, ErrorKind::UnterminatedQuoteInDefinition));
                }
                j = q + 1;
            } else {
                j = j + 1;
            }
        }
    }
}

} // verus!

//! Splitting a tag's argument text at spaces into positional and named arguments.
use vstd::prelude::*;

use super::error::Error;
use super::error_kind::ErrorKind;
use super::words::{
    argument_view, class_end, class_end_exec, find_from, find_from_exec, lemma_class_end,
    lemma_find_from, CharClass,
};
use crate::text::{chars_of, push_char, push_str, substring};

verus! {

/// Reads one argument at `p`: its bounds and whether a `=` follows it, or `None`; and the
/// position after it.
///
/// A name (`positional`) starts after any spaces and ends at a space or `=`; a value starts
/// right at `p` and ends at a space. Either may be quoted, in which case it runs to the
/// matching quote, or to the end.
pub open spec fn parse_arg(s: Seq<char>, p: int, positional: bool) -> (Option<(int, int, bool)>, int) {
    let len = s.len() as int;
    let q = if positional {
        class_end(s, p, CharClass::Space)
    } else {
        p
    };
    if q >= len {
        (None, if positional { len } else { p })
    } else if !positional && s[q] == ' ' {
        (None, q + 1)
    } else if s[q] == '"' || s[q] == '\'' {
        let j = find_from(s, q + 1, s[q]);
        if j < len {
            (Some((q + 1, j, false)), j + 1)
        } else {
            (Some((q + 1, len, false)), len)
        }
    } else {
        let k = if positional {
            class_end(s, q + 1, CharClass::NameChar)
        } else {
            find_from(s, q + 1, ' ')
        };
        if k < len {
            (Some((q, k, s[k] == '=')), k + 1)
        } else {
            (Some((q, len, false)), len)
        }
    }
}

/// The argument that an argument parser reads at `p`, and the position after it.
pub open spec fn parse_argument(s: Seq<char>, p: int) -> Option<
    (Result<(Seq<char>, Option<Seq<char>>), (ErrorKind, Seq<char>)>, int),
> {
    let (first, p1) = parse_arg(s, p, true);
    match first {
        None => None,
        Some((a, b, named)) => {
            let arg1 = s.subrange(a, b);
            if arg1.len() > 0 && arg1[0] == '=' {
                Some((Err((ErrorKind::MissingArgumentName, arg1)), p1))
            } else if !named {
                Some((Ok((arg1, None)), p1))
            } else {
                let (second, p2) = parse_arg(s, p1, false);
                match second {
                    None => Some((Err((ErrorKind::EmptyArgument, arg1 + seq!['='])), p2)),
                    Some((c, d, _)) => Some((Ok((arg1, Some(s.subrange(c, d)))), p2)),
                }
            }
        },
    }
}

proof fn lemma_parse_arg(s: Seq<char>, p: int, positional: bool)
    requires
        0 <= p <= s.len(),
    ensures
        p <= parse_arg(s, p, positional).1 <= s.len(),
        parse_arg(s, p, positional).0 matches Some((a, b, _)) ==> p <= a <= b <= s.len(),
        parse_arg(s, p, positional).0 matches Some((a, b, n)) ==> (n ==> b < s.len()),
{
    let len = s.len() as int;
    if positional {
        lemma_class_end(s, p, CharClass::Space);
    }
    let q = if positional {
        class_end(s, p, CharClass::Space)
    } else {
        p
    };
    if q < len {
        lemma_find_from(s, q + 1, s[q]);
        lemma_find_from(s, q + 1, ' ');
        lemma_class_end(s, q + 1, CharClass::NameChar);
    }
}

/// Iterator over the arguments of a tag: positional ones, and named ones written `name=value`.
pub struct ArgumentParser<'a> {
    source: &'a str,
    chars: Vec<char>,
    pos: usize,
}

impl<'a> ArgumentParser<'a> {
    #[verifier::type_invariant]
    spec fn wf(self) -> bool {
        self.chars@ == self.source@ && self.pos <= self.chars@.len()
    }

    /// The text being parsed.
    pub closed spec fn text(&self) -> Seq<char> {
        self.source@
    }

    /// The index in [`Self::text`] of the next character to be read.
    pub closed spec fn position(&self) -> int {
        self.pos as int
    }

    /// Begins parsing the arguments in `source`.
    pub fn new(source: &'a str) -> (r: Self)
        ensures
            r.text() == source@,
            r.position() == 0,
    {
        ArgumentParser { source, chars: chars_of(source), pos: 0 }
    }

    fn next_arg(&mut self, positional: bool) -> (r: Option<(&'a str, bool)>)
        ensures
            final(self).text() == old(self).text(),
            final(self).position() == parse_arg(old(self).text(), old(self).position(), positional).1,
            match parse_arg(old(self).text(), old(self).position(), positional).0 {
                None => r is None,
                Some((a, b, n)) => r matches Some((x, m)) && x@ == old(self).text().subrange(a, b)
                    && m == n,
            },
    {
        proof {
            use_type_invariant(&*self);
            lemma_parse_arg(self.chars@, self.pos as int, positional);
        }
        let len = self.chars.len();
        let q = if positional {
            class_end_exec(&self.chars, self.pos, CharClass::Space)
        } else {
            self.pos
        };
        proof {
            if positional {
                lemma_class_end(self.chars@, self.pos as int, CharClass::Space);
            }
        }
        if q >= len {
            if positional {
                self.pos = len;
            }
            return None;
        }
        let c = self.chars[q];
        if !positional && c == ' ' {
            self.pos = q + 1;
            return None;
        }
        if c == '"' || c == '\'' {
            let j = find_from_exec(&self.chars, q + 1, c);
            proof {
                lemma_find_from(self.chars@, q + 1, c);
            }
            if j < len {
                self.pos = j + 1;
                return Some((substring(self.source, q + 1, j), false));
            }
            self.pos = len;
            return Some((substring(self.source, q + 1, len), false));
        }
        let k = if positional {
            class_end_exec(&self.chars, q + 1, CharClass::NameChar)
        } else {
            find_from_exec(&self.chars, q + 1, ' ')
        };
        proof {
            lemma_class_end(self.chars@, q + 1, CharClass::NameChar);
            lemma_find_from(self.chars@, q + 1, ' ');
        }
        if k < len {
            let named = self.chars[k] == '=';
            self.pos = k + 1;
            Some((substring(self.source, q, k), named))
        } else {
            self.pos = len;
            Some((substring(self.source, q, len), false))
        }
    }

    /// Reads the next argument.
    pub fn next(&mut self) -> (r: Option<Result<(&'a str, Option<&'a str>), Error>>)
        ensures
            final(self).text() == old(self).text(),
            match parse_argument(old(self).text(), old(self).position()) {
                None => r is None,
                Some((a, p)) => r matches Some(x) && argument_view(x) == a && final(self).position()
                    == p,
            },
    {
        proof {
            use_type_invariant(&*self);
            lemma_parse_arg(self.chars@, self.pos as int, true);
        }
        let (arg1, named) = match self.next_arg(true) {
            Some(a) => a,
            None => return None,
        };
        if arg1.unicode_len() > 0 && arg1.get_char(0) == '=' {
            return Some(Err(Error::new(arg1, ErrorKind::MissingArgumentName)));
        }
        if !named {
            return Some(Ok((arg1, None)));
        }
        match self.next_arg(false) {
            Some((arg2, _)) => Some(Ok((arg1, Some(arg2)))),
            None => {
                let mut target = String::new();
                push_str(&mut target, arg1);
                push_char(&mut target, '=');
                assert(target@ =~= arg1@ + seq!['=']);
                Some(Err(Error::from_string(target, ErrorKind::EmptyArgument)))
            },
        }
    }
}

} // verus!

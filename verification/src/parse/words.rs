//! Splitting MXP strings into word units.
use vstd::prelude::*;
use vstd::utf8::{encode_scalar, encode_utf8};

use super::error::Error;
use super::error_kind::ErrorKind;
use crate::text::{chars_of, is_alpha, is_ascii_ws, is_digit, is_hex_digit, push_char, push_str, substring};

verus! {

/// The character classes over which a word scan runs.
#[derive(Clone, Copy, Debug, PartialEq, Eq, Structural)]
pub enum CharClass {
    /// ASCII whitespace.
    Whitespace,
    /// ASCII hexadecimal digits.
    HexDigit,
    /// Characters that may continue a plain word.
    WordChar,
    /// The space character.
    Space,
    /// Characters that may continue an unquoted argument name: anything but a space or `=`.
    NameChar,
    /// Anything but ASCII whitespace.
    NonSpace,
}

/// A character that may continue a plain word: letters, digits and `+ , - . _ |`.
pub open spec fn is_word_char(c: char) -> bool {
    is_alpha(c) || is_digit(c) || c == '+' || c == ',' || c == '-' || c == '.' || c == '_' || c
        == '|'
}

/// A character that starts a plain word: letters, digits and `+ - |`.
pub open spec fn is_word_start(c: char) -> bool {
    is_alpha(c) || is_digit(c) || c == '+' || c == '-' || c == '|'
}

/// Membership of a character in a class.
pub open spec fn in_class(c: char, k: CharClass) -> bool {
    match k {
        CharClass::Whitespace => is_ascii_ws(c),
        CharClass::HexDigit => is_hex_digit(c),
        CharClass::WordChar => is_word_char(c),
        CharClass::Space => c == ' ',
        CharClass::NameChar => c != ' ' && c != '=',
        CharClass::NonSpace => !is_ascii_ws(c),
    }
}

/// The first index at or after `i` whose character is outside the class, or the length.
pub open spec fn class_end(s: Seq<char>, i: int, k: CharClass) -> int
    decreases s.len() - i,
{
    if i >= s.len() {
        s.len() as int
    } else if in_class(s[i], k) {
        class_end(s, i + 1, k)
    } else {
        i
    }
}

/// The first index at or after `i` that holds `c`, or the length.
pub open spec fn find_from(s: Seq<char>, i: int, c: char) -> int
    decreases s.len() - i,
{
    if i >= s.len() {
        s.len() as int
    } else if s[i] == c {
        i
    } else {
        find_from(s, i + 1, c)
    }
}

/// The end of `s[..e]` once trailing ASCII whitespace is dropped.
pub open spec fn trim_back(s: Seq<char>, e: int) -> int
    decreases e,
{
    if e <= 0 {
        0
    } else if is_ascii_ws(s[e - 1]) {
        trim_back(s, e - 1)
    } else {
        e
    }
}

/// `s` without leading and trailing ASCII whitespace.
pub open spec fn trim_ascii(s: Seq<char>) -> Seq<char> {
    let a = class_end(s, 0, CharClass::Whitespace);
    let b = trim_back(s, s.len() as int);
    if b <= a {
        Seq::empty()
    } else {
        s.subrange(a, b)
    }
}

/// Where the word that starts at `pos` begins and ends, and where the next one starts.
///
/// A quote starts a quoted word that runs to the matching quote (excluded) or to the end; `#`
/// is followed by hexadecimal digits; `&` runs through the next `;`; a letter, digit, `+`, `-`
/// or `|` starts a plain word; any other character is a word on its own. Whitespace after a
/// word is skipped.
pub open spec fn word_bounds(s: Seq<char>, pos: int) -> (int, int, int) {
    let c = s[pos];
    if c == '"' || c == '\'' {
        let j = find_from(s, pos + 1, c);
        (pos + 1, j, class_end(s, j + 1, CharClass::Whitespace))
    } else if c == '#' {
        let e = class_end(s, pos + 1, CharClass::HexDigit);
        (pos, e, class_end(s, e, CharClass::Whitespace))
    } else if c == '&' {
        let j = find_from(s, pos + 1, ';');
        if j < s.len() {
            (pos, j + 1, class_end(s, j + 1, CharClass::Whitespace))
        } else {
            (pos, s.len() as int, s.len() as int)
        }
    } else if is_word_start(c) {
        let e = class_end(s, pos + 1, CharClass::WordChar);
        (pos, e, class_end(s, e, CharClass::Whitespace))
    } else {
        (pos, pos + 1, class_end(s, pos + 1, CharClass::Whitespace))
    }
}

/// The word at `pos` and the position after it, or `None` at the end of the text.
pub open spec fn next_word(s: Seq<char>, pos: int) -> Option<(Seq<char>, int)> {
    if 0 <= pos < s.len() {
        let b = word_bounds(s, pos);
        Some((s.subrange(b.0, b.1), b.2))
    } else {
        None
    }
}

/// The name-value pair, or error, that a word-argument scan reads at `pos`, and the position
/// after it.
pub open spec fn word_argument(s: Seq<char>, pos: int) -> Option<
    (Result<(Seq<char>, Option<Seq<char>>), (ErrorKind, Seq<char>)>, int),
> {
    match next_word(s, pos) {
        None => None,
        Some((name, p1)) => if name == seq!['='] {
            match next_word(s, p1) {
                None => Some((Err((ErrorKind::MissingArgumentName, seq!['='])), p1)),
                Some((w, p2)) => Some((Err((ErrorKind::MissingArgumentName, seq!['='] + w)), p2)),
            }
        } else if !(0 <= p1 < s.len() && s[p1] == '=') {
            Some((Ok((name, None)), p1))
        } else {
            let p2 = word_bounds(s, p1).2;
            match next_word(s, p2) {
                Some((v, p3)) => Some((Ok((name, Some(v))), p3)),
                None => Some((Err((ErrorKind::EmptyArgument, name + seq!['='])), p2)),
            }
        },
    }
}

/// The view of one word argument.
pub open spec fn argument_view(r: Result<(&str, Option<&str>), Error>) -> Result<
    (Seq<char>, Option<Seq<char>>),
    (ErrorKind, Seq<char>),
> {
    match r {
        Ok((n, Some(v))) => Ok((n@, Some(v@))),
        Ok((n, None)) => Ok((n@, None)),
        Err(e) => Err(e@),
    }
}

pub proof fn lemma_class_end(s: Seq<char>, i: int, k: CharClass)
    requires
        0 <= i <= s.len(),
    ensures
        i <= class_end(s, i, k) <= s.len(),
        forall|j: int| i <= j < class_end(s, i, k) ==> in_class(#[trigger] s[j], k),
        class_end(s, i, k) < s.len() ==> !in_class(s[class_end(s, i, k)], k),
    decreases s.len() - i,
{
    if i < s.len() && in_class(s[i], k) {
        lemma_class_end(s, i + 1, k);
    }
}

pub proof fn lemma_find_from(s: Seq<char>, i: int, c: char)
    requires
        0 <= i <= s.len(),
    ensures
        i <= find_from(s, i, c) <= s.len(),
        find_from(s, i, c) < s.len() ==> s[find_from(s, i, c)] == c,
        forall|j: int| i <= j < find_from(s, i, c) ==> #[trigger] s[j] != c,
    decreases s.len() - i,
{
    if i < s.len() && s[i] != c {
        lemma_find_from(s, i + 1, c);
    }
}

/// The bounds of a word lie within the text, and the scan moves forward.
pub proof fn lemma_word_bounds(s: Seq<char>, pos: int)
    requires
        0 <= pos < s.len(),
    ensures
        pos <= word_bounds(s, pos).0 <= word_bounds(s, pos).1 <= s.len(),
        word_bounds(s, pos).1 <= word_bounds(s, pos).2 <= s.len(),
        pos < word_bounds(s, pos).2,
{
    let c = s[pos];
    if c == '"' || c == '\'' {
        lemma_find_from(s, pos + 1, c);
        let j = find_from(s, pos + 1, c);
        if j < s.len() {
            lemma_class_end(s, j + 1, CharClass::Whitespace);
        }
    } else if c == '#' {
        lemma_class_end(s, pos + 1, CharClass::HexDigit);
        lemma_class_end(s, class_end(s, pos + 1, CharClass::HexDigit), CharClass::Whitespace);
    } else if c == '&' {
        lemma_find_from(s, pos + 1, ';');
        let j = find_from(s, pos + 1, ';');
        if j < s.len() {
            lemma_class_end(s, j + 1, CharClass::Whitespace);
        }
    } else if is_word_start(c) {
        lemma_class_end(s, pos + 1, CharClass::WordChar);
        lemma_class_end(s, class_end(s, pos + 1, CharClass::WordChar), CharClass::Whitespace);
    } else {
        lemma_class_end(s, pos + 1, CharClass::Whitespace);
    }
}

proof fn lemma_trim_back(s: Seq<char>, e: int)
    requires
        0 <= e <= s.len(),
    ensures
        0 <= trim_back(s, e) <= e,
        forall|j: int| trim_back(s, e) <= j < e ==> is_ascii_ws(#[trigger] s[j]),
        trim_back(s, e) > 0 ==> !is_ascii_ws(s[trim_back(s, e) - 1]),
    decreases e,
{
    if e > 0 && is_ascii_ws(s[e - 1]) {
        lemma_trim_back(s, e - 1);
    }
}

fn in_class_exec(c: char, k: CharClass) -> (r: bool)
    ensures
        r == in_class(c, k),
{
    match k {
        CharClass::Whitespace => c == ' ' || c == '\t' || c == '\n' || c == '\x0C' || c == '\r',
        CharClass::HexDigit => ('0' <= c && c <= '9') || ('a' <= c && c <= 'f') || ('A' <= c && c
            <= 'F'),
        CharClass::WordChar => ('A' <= c && c <= 'Z') || ('a' <= c && c <= 'z') || ('0' <= c && c
            <= '9') || c == '+' || c == ',' || c == '-' || c == '.' || c == '_' || c == '|',
        CharClass::Space => c == ' ',
        CharClass::NameChar => c != ' ' && c != '=',
        CharClass::NonSpace => !(c == ' ' || c == '\t' || c == '\n' || c == '\x0C' || c == '\r'),
    }
}

pub(crate) fn class_end_exec(s: &Vec<char>, i: usize, k: CharClass) -> (r: usize)
    requires
        i <= s@.len(),
    ensures
        r == class_end(s@, i as int, k),
{
    let mut j = i;
    while j < s.len() && in_class_exec(s[j], k)
        invariant
            i <= j <= s@.len(),
            class_end(s@, i as int, k) == class_end(s@, j as int, k),
        decreases s@.len() - j,
    {
        j += 1;
    }
    j
}

pub(crate) fn find_from_exec(s: &Vec<char>, i: usize, c: char) -> (r: usize)
    requires
        i <= s@.len(),
    ensures
        r == find_from(s@, i as int, c),
{
    let mut j = i;
    while j < s.len() && s[j] != c
        invariant
            i <= j <= s@.len(),
            find_from(s@, i as int, c) == find_from(s@, j as int, c),
        decreases s@.len() - j,
    {
        j += 1;
    }
    j
}

fn trim_back_exec(s: &Vec<char>) -> (r: usize)
    ensures
        r == trim_back(s@, s@.len() as int),
{
    let mut e = s.len();
    while e > 0 && in_class_exec(s[e - 1], CharClass::Whitespace)
        invariant
            e <= s@.len(),
            trim_back(s@, s@.len() as int) == trim_back(s@, e as int),
        decreases e,
    {
        e -= 1;
    }
    e
}

fn is_word_start_exec(c: char) -> (r: bool)
    ensures
        r == is_word_start(c),
{
    ('A' <= c && c <= 'Z') || ('a' <= c && c <= 'z') || ('0' <= c && c <= '9') || c == '+' || c
        == '-' || c == '|'
}

fn word_bounds_exec(s: &Vec<char>, pos: usize) -> (r: (usize, usize, usize))
    requires
        pos < s@.len(),
    ensures
        r.0 == word_bounds(s@, pos as int).0,
        r.1 == word_bounds(s@, pos as int).1,
        r.2 == word_bounds(s@, pos as int).2,
{
    proof {
        lemma_word_bounds(s@, pos as int);
    }
    let n = s.len();
    let c = s[pos];
    if c == '"' || c == '\'' {
        let j = find_from_exec(s, pos + 1, c);
        proof {
            lemma_find_from(s@, pos + 1, c);
        }
        if j < s.len() {
            (pos + 1, j, class_end_exec(s, j + 1, CharClass::Whitespace))
        } else {
            (pos + 1, j, s.len())
        }
    } else if c == '#' {
        let e = class_end_exec(s, pos + 1, CharClass::HexDigit);
        proof {
            lemma_class_end(s@, pos + 1, CharClass::HexDigit);
        }
        (pos, e, class_end_exec(s, e, CharClass::Whitespace))
    } else if c == '&' {
        let j = find_from_exec(s, pos + 1, ';');
        proof {
            lemma_find_from(s@, pos + 1, ';');
        }
        if j < s.len() {
            (pos, j + 1, class_end_exec(s, j + 1, CharClass::Whitespace))
        } else {
            (pos, s.len(), s.len())
        }
    } else if is_word_start_exec(c) {
        let e = class_end_exec(s, pos + 1, CharClass::WordChar);
        proof {
            lemma_class_end(s@, pos + 1, CharClass::WordChar);
        }
        (pos, e, class_end_exec(s, e, CharClass::Whitespace))
    } else {
        (pos, pos + 1, class_end_exec(s, pos + 1, CharClass::Whitespace))
    }
}

/// Iterator over the word units of an MXP string.
pub struct Words<'a> {
    source: &'a str,
    chars: Vec<char>,
    pos: usize,
}

impl<'a> Words<'a> {
    #[verifier::type_invariant]
    spec fn wf(self) -> bool {
        self.chars@ == self.source@ && self.pos <= self.chars@.len()
    }

    /// The text being split: the source without surrounding whitespace.
    pub closed spec fn text(&self) -> Seq<char> {
        self.source@
    }

    /// The index in [`Self::text`] of the next character to be read.
    pub closed spec fn position(&self) -> int {
        if self.pos <= self.source@.len() {
            self.pos as int
        } else {
            self.source@.len() as int
        }
    }

    /// The position lies within the text.
    pub proof fn lemma_position(words: Words<'a>)
        ensures
            0 <= words.position() <= words.text().len(),
    {
    }

    /// The text that remains to be split.
    pub open spec fn rest(&self) -> Seq<char> {
        self.text().subrange(self.position(), self.text().len() as int)
    }

    /// Begins splitting `source`, ignoring leading and trailing ASCII whitespace.
    pub fn new(source: &'a str) -> (r: Self)
        ensures
            r.text() == trim_ascii(source@),
            r.position() == 0,
    {
        let all = chars_of(source);
        let a = class_end_exec(&all, 0, CharClass::Whitespace);
        let b = trim_back_exec(&all);
        proof {
            lemma_class_end(all@, 0, CharClass::Whitespace);
            lemma_trim_back(all@, all@.len() as int);
        }
        let trimmed = if b <= a {
            substring(source, 0, 0)
        } else {
            substring(source, a, b)
        };
        assert(trimmed@ == trim_ascii(source@));
        let chars = chars_of(trimmed);
        Words { source: trimmed, chars, pos: 0 }
    }

    /// Reads the next word.
    pub fn next(&mut self) -> (r: Option<&'a str>)
        ensures
            final(self).text() == old(self).text(),
            match next_word(old(self).text(), old(self).position()) {
                None => r is None && final(self).position() == old(self).position(),
                Some((w, p)) => r matches Some(x) && x@ == w && final(self).position() == p,
            },
    {
        proof {
            use_type_invariant(&*self);
        }
        if self.pos >= self.chars.len() {
            return None;
        }
        let (start, end, after) = word_bounds_exec(&self.chars, self.pos);
        proof {
            lemma_word_bounds(self.chars@, self.pos as int);
        }
        let word = substring(self.source, start, end);
        self.pos = after;
        Some(word)
    }

    /// Reads the next word, failing with an error about the whole text if none is left.
    pub fn next_or(&mut self, e: ErrorKind) -> (r: Result<&'a str, Error>)
        ensures
            final(self).text() == old(self).text(),
            match next_word(old(self).text(), old(self).position()) {
                None => r matches Err(err) && err@ == (e, old(self).text()) && final(self).position()
                    == old(self).position(),
                Some((w, p)) => r matches Ok(x) && x@ == w && final(self).position() == p,
            },
    {
        match self.next() {
            Some(next) => Ok(next),
            None => Err(Error::new(self.source, e)),
        }
    }

    /// Turns the remaining words into name-value arguments.
    pub fn args(self) -> (r: WordArguments<'a>)
        ensures
            r.words().text() == self.text(),
            r.words().position() == self.position(),
    {
        WordArguments::new(self)
    }

    /// The text being split.
    pub fn source(&self) -> (r: &'a str)
        ensures
            r@ == self.text(),
    {
        self.source
    }

    /// The text that remains to be split.
    pub fn as_str(&self) -> (r: &'a str)
        ensures
            r@ == self.rest(),
    {
        proof {
            use_type_invariant(self);
        }
        substring(self.source, self.pos, self.chars.len())
    }

    /// The UTF-8 bytes of the text that remains to be split.
    pub fn as_bytes(&self) -> (r: &'a [u8])
        ensures
            r@ == encode_utf8(self.rest()),
    {
        self.as_str().as_bytes()
    }

    /// The first byte of the text that remains to be split, if any.
    pub fn next_byte(&self) -> (r: Option<u8>)
        ensures
            self.rest().len() == 0 ==> r is None,
            self.rest().len() > 0 ==> r == Some(encode_scalar(self.rest()[0] as u32)[0]),
    {
        let bytes = self.as_bytes();
        proof {
            let rest = self.rest();
            if rest.len() > 0 {
                assert(encode_utf8(rest) == encode_scalar(rest[0] as u32) + encode_utf8(
                    rest.drop_first(),
                ));
            }
        }
        if bytes.len() > 0 {
            Some(bytes[0])
        } else {
            None
        }
    }

    /// The next character of the text that remains to be split, if any.
    fn next_char(&self) -> (r: Option<char>)
        ensures
            0 <= self.position() < self.text().len() ==> r == Some(self.text()[self.position()]),
            !(0 <= self.position() < self.text().len()) ==> r is None,
    {
        proof {
            use_type_invariant(self);
        }
        if self.pos < self.chars.len() {
            Some(self.chars[self.pos])
        } else {
            None
        }
    }
}

/// Iterator over the word units of an MXP string, converted into named or unnamed arguments.
pub struct WordArguments<'a> {
    inner: Words<'a>,
}

impl<'a> WordArguments<'a> {
    /// The words being read.
    pub closed spec fn words(&self) -> Words<'a> {
        self.inner
    }

    /// Reads arguments from the remaining words.
    pub fn new(words: Words<'a>) -> (r: Self)
        ensures
            r.words() == words,
    {
        WordArguments { inner: words }
    }

    /// Reads the next argument: a word, or a name, `=` and a value.
    pub fn next(&mut self) -> (r: Option<Result<(&'a str, Option<&'a str>), Error>>)
        ensures
            final(self).words().text() == old(self).words().text(),
            match word_argument(old(self).words().text(), old(self).words().position()) {
                None => r is None && final(self).words().position() == old(self).words().position(),
                Some((a, p)) => r matches Some(x) && argument_view(x) == a
                    && final(self).words().position() == p,
            },
    {
        let ghost s = self.inner.text();
        let name = match self.inner.next() {
            Some(n) => n,
            None => return None,
        };
        if name.unicode_len() == 1 && name.get_char(0) == '=' {
            assert(name@ =~= seq!['=']);
            let mut target = String::new();
            push_char(&mut target, '=');
            match self.inner.next() {
                Some(w) => {
                    push_str(&mut target, w);
                    assert(target@ =~= seq!['='] + w@);
                },
                None => {
                    assert(target@ =~= seq!['=']);
                },
            }
            return Some(Err(Error::from_string(target, ErrorKind::MissingArgumentName)));
        }
        assert(name@ != seq!['=']) by {
            if name@ == seq!['='] {
                assert(name@.len() == 1 && name@[0] == '=');
            }
        }
        match self.inner.next_char() {
            Some(c) => {
                if c != '=' {
                    return Some(Ok((name, None)));
                }
            },
            None => return Some(Ok((name, None))),
        }
        self.inner.next();
        match self.inner.next() {
            Some(val) => Some(Ok((name, Some(val)))),
            None => {
                let mut target = String::new();
                push_str(&mut target, name);
                push_char(&mut target, '=');
                assert(target@ =~= name@ + seq!['=']);
                Some(Err(Error::from_string(target, ErrorKind::EmptyArgument)))
            },
        }
    }
}

} // verus!

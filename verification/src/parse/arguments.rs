//! Positional and named arguments of an MXP tag.
use vstd::prelude::*;

use super::decoder::Decoder;
use super::error::Error;
use super::error_kind::ErrorKind;
use super::matcher::ArgumentMatcher;
use super::scan::Scan;
use super::validation::{valid_name, validate};
use super::words::{lemma_word_bounds, trim_ascii, word_bounds, Words};
use crate::text::{
    ascii_lower_seq, eq_ignore_case, first_match_ci, match_ci, push_char, push_str,
    str_eq_ignore_case,
};

verus! {

/// The map that a list of named arguments stands for, keyed by lower-cased name.
pub open spec fn named_map(s: Seq<(&str, &str)>) -> Map<Seq<char>, Seq<char>>
    decreases s.len(),
{
    if s.len() == 0 {
        Map::empty()
    } else {
        named_map(s.drop_last()).insert(ascii_lower_seq(s.last().0@), s.last().1@)
    }
}

/// No two named arguments share a name, up to ASCII case.
pub open spec fn names_unique(s: Seq<(&str, &str)>) -> bool {
    forall|i: int, j: int|
        0 <= i < s.len() && 0 <= j < s.len() && i != j ==> ascii_lower_seq(s[i].0@)
            != ascii_lower_seq(s[j].0@)
}

proof fn lemma_named_absent(s: Seq<(&str, &str)>, k: Seq<char>)
    requires
        forall|i: int| 0 <= i < s.len() ==> ascii_lower_seq(s[i].0@) != k,
    ensures
        !named_map(s).contains_key(k),
    decreases s.len(),
{
    if s.len() > 0 {
        lemma_named_absent(s.drop_last(), k);
    }
}

proof fn lemma_named_index(s: Seq<(&str, &str)>, i: int)
    requires
        names_unique(s),
        0 <= i < s.len(),
    ensures
        named_map(s).contains_key(ascii_lower_seq(s[i].0@)),
        named_map(s)[ascii_lower_seq(s[i].0@)] == s[i].1@,
    decreases s.len(),
{
    if i < s.len() - 1 {
        lemma_named_index(s.drop_last(), i);
    }
}

proof fn lemma_named_update<'a>(s: Seq<(&'a str, &'a str)>, i: int, v: &'a str)
    requires
        names_unique(s),
        0 <= i < s.len(),
    ensures
        named_map(s.update(i, (s[i].0, v))) == named_map(s).insert(ascii_lower_seq(s[i].0@), v@),
        names_unique(s.update(i, (s[i].0, v))),
    decreases s.len(),
{
    let e = (s[i].0, v);
    let t = s.update(i, e);
    if i == s.len() - 1 {
        assert(t.drop_last() =~= s.drop_last());
        lemma_named_absent(s.drop_last(), ascii_lower_seq(e.0@));
        assert(named_map(t) =~= named_map(s).insert(ascii_lower_seq(e.0@), v@));
    } else {
        assert(t.drop_last() =~= s.drop_last().update(i, e));
        lemma_named_update(s.drop_last(), i, v);
        assert(named_map(t) =~= named_map(s).insert(ascii_lower_seq(e.0@), v@));
    }
}

proof fn lemma_named_remove<'a>(s: Seq<(&'a str, &'a str)>, i: int)
    requires
        names_unique(s),
        0 <= i < s.len(),
    ensures
        named_map(s.remove(i)) == named_map(s).remove(ascii_lower_seq(s[i].0@)),
        names_unique(s.remove(i)),
    decreases s.len(),
{
    let k = ascii_lower_seq(s[i].0@);
    let t = s.remove(i);
    assert(names_unique(t)) by {
        assert forall|a: int, b: int|
            0 <= a < t.len() && 0 <= b < t.len() && a != b implies ascii_lower_seq(t[a].0@)
            != ascii_lower_seq(t[b].0@) by {
            let a2 = if a < i { a } else { a + 1 };
            let b2 = if b < i { b } else { b + 1 };
            assert(t[a] == s[a2]);
            assert(t[b] == s[b2]);
        }
    }
    if i == s.len() - 1 {
        assert(t =~= s.drop_last());
        assert forall|j: int| 0 <= j < s.drop_last().len() implies ascii_lower_seq(
            s.drop_last()[j].0@,
        ) != k by {
            assert(s.drop_last()[j] == s[j]);
        }
        lemma_named_absent(s.drop_last(), k);
        assert(named_map(t) =~= named_map(s).remove(k));
    } else {
        let d = s.drop_last();
        assert(t.drop_last() =~= d.remove(i));
        assert(t.last() == s.last());
        assert(names_unique(d)) by {
            assert forall|a: int, b: int|
                0 <= a < d.len() && 0 <= b < d.len() && a != b implies ascii_lower_seq(d[a].0@)
                != ascii_lower_seq(d[b].0@) by {
                assert(d[a] == s[a]);
                assert(d[b] == s[b]);
            }
        }
        assert(d[i] == s[i]);
        lemma_named_remove(d, i);
        assert(ascii_lower_seq(s.last().0@) != k) by {
            assert(s.last() == s[s.len() - 1]);
        }
        assert(named_map(t) =~= named_map(s).remove(k));
    }
}

/// How reading the words of `s` from `pos` on extends arguments `(positional, named)`: the
/// arguments after the last word read, and the error that stopped the reading, if any.
///
/// A word followed by `=` and a value is a named argument; a lone `/` ends the arguments when
/// it is the last word; any other word is positional.
pub open spec fn extend_spec(
    s: Seq<char>,
    pos: int,
    positional: Seq<Seq<char>>,
    named: Map<Seq<char>, Seq<char>>,
) -> (Seq<Seq<char>>, Map<Seq<char>, Seq<char>>, Option<(ErrorKind, Seq<char>)>)
    decreases s.len() - pos,
{
    if !(0 <= pos < s.len()) {
        (positional, named, None)
    } else {
        proof {
            lemma_word_bounds(s, pos);
        }
        let b = word_bounds(s, pos);
        let name = s.subrange(b.0, b.1);
        let p1 = b.2;
        if name == seq!['/'] {
            if 0 <= p1 < s.len() {
                (positional, named, Some((ErrorKind::InvalidArgumentName, name)))
            } else {
                (positional, named, None)
            }
        } else if 0 <= p1 < s.len() && s[p1] == '=' {
            if !valid_name(name) {
                (positional, named, Some((ErrorKind::InvalidArgumentName, name)))
            } else {
                proof {
                    lemma_word_bounds(s, p1);
                }
                let p2 = word_bounds(s, p1).2;
                if 0 <= p2 < s.len() {
                    proof {
                        lemma_word_bounds(s, p2);
                    }
                    let b3 = word_bounds(s, p2);
                    extend_spec(
                        s,
                        b3.2,
                        positional,
                        named.insert(ascii_lower_seq(name), s.subrange(b3.0, b3.1)),
                    )
                } else {
                    (positional, named, Some((ErrorKind::EmptyArgument, name + seq!['='])))
                }
            }
        } else {
            extend_spec(s, p1, positional.push(name), named)
        }
    }
}

/// Parsed arguments of an MXP command.
///
/// Arguments may be positional or named. For example, in the MXP command
/// `<SOUND "ouch.wav" 50 T="combat" 2 P=80>`, `"ouch.wav"`, `50`, and `2` are positional
/// arguments, and `T="combat"` and `P=80` are named arguments. Names are compared without
/// regard to ASCII case.
pub struct Arguments<'a> {
    positional: Vec<&'a str>,
    named: Vec<(&'a str, &'a str)>,
}

impl<'a> Arguments<'a> {
    #[verifier::type_invariant]
    spec fn wf(self) -> bool {
        names_unique(self.named@)
    }

    /// The positional arguments, in order.
    pub closed spec fn positional_view(&self) -> Seq<Seq<char>> {
        self.positional@.map_values(|a: &str| a@)
    }

    /// The named arguments, keyed by lower-cased name.
    pub closed spec fn named_view(&self) -> Map<Seq<char>, Seq<char>> {
        named_map(self.named@)
    }

    /// The named arguments in the order their names were first given, each with its name as
    /// written and its value.
    pub closed spec fn named_entries(&self) -> Seq<(Seq<char>, Seq<char>)> {
        self.named@.map_values(|p: (&'a str, &'a str)| (p.0@, p.1@))
    }

    /// Number of named arguments.
    pub fn named_len(&self) -> (r: usize)
        ensures
            r == self.named_entries().len(),
    {
        self.named.len()
    }

    /// The named argument at an index, in the order their names were first given.
    pub fn named_at(&self, i: usize) -> (r: (&'a str, &'a str))
        requires
            i < self.named_entries().len(),
        ensures
            r.0@ == self.named_entries()[i as int].0,
            r.1@ == self.named_entries()[i as int].1,
    {
        self.named[i]
    }

    /// Constructs a new, empty set of arguments.
    pub fn new() -> (r: Self)
        ensures
            r.positional_view() == Seq::<Seq<char>>::empty(),
            r.named_view() == Map::<Seq<char>, Seq<char>>::empty(),
    {
        let r = Arguments { positional: Vec::new(), named: Vec::new() };
        assert(r.positional_view() =~= Seq::<Seq<char>>::empty());
        r
    }

    /// Returns `true` if there are no arguments.
    pub fn is_empty(&self) -> (r: bool)
        ensures
            r == (self.positional_view().len() == 0 && self.named_view().len() == 0),
    {
        proof {
            use_type_invariant(self);
            self.lemma_named_len();
        }
        self.positional.len() == 0 && self.named.len() == 0
    }

    proof fn lemma_named_len(&self)
        requires
            names_unique(self.named@),
        ensures
            self.named_view().len() == self.named@.len(),
            self.named_view().dom().finite(),
    {
        lemma_named_len(self.named@);
    }

    /// Number of positional arguments.
    pub fn positional_len(&self) -> (r: usize)
        ensures
            r == self.positional_view().len(),
    {
        self.positional.len()
    }

    /// The positional argument at an index.
    pub fn positional_at(&self, i: usize) -> (r: &'a str)
        requires
            i < self.positional_view().len(),
        ensures
            r@ == self.positional_view()[i as int],
    {
        self.positional[i]
    }

    /// The value of a named argument, looked up without regard to ASCII case.
    pub fn get_named(&self, name: &str) -> (r: Option<&'a str>)
        ensures
            r is Some <==> self.named_view().contains_key(ascii_lower_seq(name@)),
            r matches Some(v) ==> v@ == self.named_view()[ascii_lower_seq(name@)],
    {
        proof {
            use_type_invariant(self);
        }
        match self.find_named(name) {
            Some(i) => {
                proof {
                    lemma_named_index(self.named@, i as int);
                }
                Some(self.named[i].1)
            },
            None => None,
        }
    }

    fn find_named(&self, name: &str) -> (r: Option<usize>)
        ensures
            r matches Some(i) ==> i < self.named@.len() && ascii_lower_seq(self.named@[i as int].0@)
                == ascii_lower_seq(name@),
            r is None ==> !self.named_view().contains_key(ascii_lower_seq(name@)),
    {
        let mut i: usize = 0;
        while i < self.named.len()
            invariant
                i <= self.named@.len(),
                forall|j: int|
                    0 <= j < i ==> ascii_lower_seq(#[trigger] self.named@[j].0@) != ascii_lower_seq(
                        name@,
                    ),
            decreases self.named@.len() - i,
        {
            if str_eq_ignore_case(self.named[i].0, name) {
                return Some(i);
            }
            i += 1;
        }
        proof {
            lemma_named_absent(self.named@, ascii_lower_seq(name@));
        }
        None
    }

    /// Removes a named argument, looked up without regard to ASCII case, and returns its value.
    pub fn remove_named(&mut self, name: &str) -> (r: Option<&'a str>)
        ensures
            final(self).positional_view() == old(self).positional_view(),
            final(self).named_view() == old(self).named_view().remove(ascii_lower_seq(name@)),
            r is Some <==> old(self).named_view().contains_key(ascii_lower_seq(name@)),
            r matches Some(v) ==> v@ == old(self).named_view()[ascii_lower_seq(name@)],
    {
        proof {
            use_type_invariant(&*self);
        }
        match self.find_named(name) {
            Some(i) => {
                proof {
                    lemma_named_index(self.named@, i as int);
                    lemma_named_remove(self.named@, i as int);
                }
                let mut named = Vec::new();
                std::mem::swap(&mut named, &mut self.named);
                let (_, value) = named.remove(i);
                self.named = named;
                Some(value)
            },
            None => {
                assert(old(self).named_view().remove(ascii_lower_seq(name@)) =~= old(self).named_view());
                None
            },
        }
    }

    /// The value that these arguments of a tag give to an attribute of an element, looked up
    /// without regard to ASCII case. An attribute with a default (`name=default` in the
    /// attribute list) takes the named argument of that name, or else the default. Any other
    /// attribute takes the positional argument at the attribute's position in the list, or the
    /// empty string if there are fewer arguments. `None` if `entity` is no attribute.
    pub fn find_from_attributes(&self, entity: &str, attributes: &Arguments<'a>) -> (r: Option<&'a str>)
        ensures
            attributes.named_view().contains_key(ascii_lower_seq(entity@)) ==> (r matches Some(v)
                && v@ == (if self.named_view().contains_key(ascii_lower_seq(entity@)) {
                self.named_view()[ascii_lower_seq(entity@)]
            } else {
                attributes.named_view()[ascii_lower_seq(entity@)]
            })),
            !attributes.named_view().contains_key(ascii_lower_seq(entity@)) ==> match first_match_ci(
                entity@,
                attributes.positional_view(),
                0,
            ) {
                None => r is None,
                Some(i) => r matches Some(v) && v@ == (if i < self.positional_view().len() {
                    self.positional_view()[i]
                } else {
                    Seq::<char>::empty()
                }),
            },
    {
        match attributes.get_named(entity) {
            Some(default) => {
                return match self.get_named(entity) {
                    Some(v) => Some(v),
                    None => Some(default),
                };
            },
            None => {},
        }
        assert(attributes.positional@.map_values(|c: &str| c@) =~= attributes.positional_view());
        match match_ci(entity, attributes.positional.as_slice()) {
            None => None,
            Some(i) => {
                if i < self.positional.len() {
                    Some(self.positional[i])
                } else {
                    proof {
                        reveal_strlit("");
                    }
                    Some("")
                }
            },
        }
    }

    /// A matcher that reads these arguments in order.
    pub fn matcher<'b>(&'b self) -> (r: ArgumentMatcher<'b, 'a>)
        ensures
            r.remaining().map_values(|a: &str| a@) == self.positional_view(),
            r.named_view() == self.named_view(),
    {
        ArgumentMatcher::new(self)
    }

    /// A scan that reads these arguments in order, decoding entities with `decoder`.
    pub fn scan<'b, D: Decoder>(&'b self, decoder: D) -> (r: Scan<'b, 'a, D>)
        ensures
            r.decoder() == decoder,
            r.remaining() == self.positional_view(),
            r.named_view() == self.named_view(),
    {
        Scan::new(decoder, self)
    }

    /// Sets a named argument, replacing the value of an argument of the same name.
    fn insert_named(&mut self, name: &'a str, value: &'a str)
        ensures
            final(self).positional_view() == old(self).positional_view(),
            final(self).named_view() == old(self).named_view().insert(ascii_lower_seq(name@), value@),
    {
        proof {
            use_type_invariant(&*self);
        }
        match self.find_named(name) {
            Some(i) => {
                let key = self.named[i].0;
                proof {
                    lemma_named_update(self.named@, i as int, value);
                }
                let mut named = Vec::new();
                std::mem::swap(&mut named, &mut self.named);
                named.set(i, (key, value));
                self.named = named;
            },
            None => {
                proof {
                    assert forall|j: int| 0 <= j < self.named@.len() implies ascii_lower_seq(
                        self.named@[j].0@,
                    ) != ascii_lower_seq(name@) by {
                        lemma_named_index(self.named@, j);
                    }
                }
                let mut named = Vec::new();
                std::mem::swap(&mut named, &mut self.named);
                named.push((name, value));
                assert(named@.drop_last() =~= old(self).named@);
                self.named = named;
            },
        }
    }

    /// Adds the arguments read from the remaining words. On an error, the arguments read before
    /// it are kept.
    pub fn extend(&mut self, words: Words<'a>) -> (r: Result<(), Error>)
        ensures
            ({
                let e = extend_spec(
                    words.text(),
                    words.position(),
                    old(self).positional_view(),
                    old(self).named_view(),
                );
                &&& final(self).positional_view() == e.0
                &&& final(self).named_view() == e.1
                &&& match e.2 {
                    None => r is Ok,
                    Some(err) => r matches Err(x) && x@ == err,
                }
            }),
    {
        let mut iter = words;
        proof {
            Words::lemma_position(iter);
        }
        loop
            invariant
                iter.text() == words.text(),
                0 <= iter.position() <= iter.text().len(),
                extend_spec(words.text(), words.position(), old(self).positional_view(), old(self).named_view())
                    == extend_spec(iter.text(), iter.position(), self.positional_view(), self.named_view()),
            decreases iter.text().len() - iter.position(),
        {
            let ghost s = iter.text();
            let ghost pos = iter.position();
            let name = match iter.next() {
                Some(n) => n,
                None => return Ok(()),
            };
            proof {
                lemma_word_bounds(s, pos);
            }
            if name.unicode_len() == 1 && name.get_char(0) == '/' {
                assert(name@ =~= seq!['/']);
                let ghost p1 = iter.position();
                if iter.next().is_none() {
                    return Ok(());
                }
                return Err(Error::new(name, ErrorKind::InvalidArgumentName));
            }
            assert(name@ != seq!['/']) by {
                if name@ == seq!['/'] {
                    assert(name@.len() == 1 && name@[0] == '/');
                }
            }
            let rest = iter.as_str();
            if rest.unicode_len() > 0 && rest.get_char(0) == '=' {
                match validate(name, ErrorKind::InvalidArgumentName) {
                    Ok(()) => {},
                    Err(e) => return Err(e),
                }
                let ghost p1 = iter.position();
                proof {
                    lemma_word_bounds(s, p1);
                }
                iter.next();
                let ghost p2 = iter.position();
                let val = match iter.next() {
                    Some(v) => v,
                    None => {
                        let mut target = String::new();
                        push_str(&mut target, name);
                        push_char(&mut target, '=');
                        assert(target@ =~= name@ + seq!['=']);
                        return Err(Error::from_string(target, ErrorKind::EmptyArgument));
                    },
                };
                proof {
                    lemma_word_bounds(s, p2);
                }
                self.insert_named(name, val);
            } else {
                let ghost old_pos = self.positional_view();
                proof {
                    use_type_invariant(&*self);
                }
                let mut positional = Vec::new();
                std::mem::swap(&mut positional, &mut self.positional);
                positional.push(name);
                self.positional = positional;
                assert(self.positional_view() =~= old_pos.push(name@));
            }
        }
    }

    /// Parses the arguments of a tag body.
    pub fn parse(source: &'a str) -> (r: Result<Self, Error>)
        ensures
            ({
                let e = extend_spec(
                    trim_ascii(source@),
                    0,
                    Seq::empty(),
                    Map::empty(),
                );
                &&& match e.2 {
                    None => r matches Ok(a) && a.positional_view() == e.0 && a.named_view() == e.1,
                    Some(err) => r matches Err(x) && x@ == err,
                }
            }),
    {
        let mut this = Self::new();
        match this.extend(Words::new(source)) {
            Ok(()) => Ok(this),
            Err(e) => Err(e),
        }
    }
}

/// The index of the first of `names` that `arg` matches, ignoring ASCII case.
pub open spec fn keyword_index(arg: Seq<char>, names: Seq<Seq<char>>, i: int) -> Option<int>
    decreases names.len() - i,
{
    if i >= names.len() || i < 0 {
        None
    } else if eq_ignore_case(arg, names[i]) {
        Some(i)
    } else {
        keyword_index(arg, names, i + 1)
    }
}

/// Sorting positional arguments into a value and keywords: the first argument that is not
/// one of `names` is the value; each argument that is one sets that keyword; the first
/// argument after the value that is not a keyword is left over.
pub open spec fn scan_keywords(
    args: Seq<Seq<char>>,
    names: Seq<Seq<char>>,
    i: int,
    value: Option<Seq<char>>,
    keywords: Set<int>,
    leftover: Option<Seq<char>>,
) -> (Option<Seq<char>>, Set<int>, Option<Seq<char>>)
    decreases args.len() - i,
{
    if i >= args.len() || i < 0 {
        (value, keywords, leftover)
    } else {
        match keyword_index(args[i], names, 0) {
            Some(k) => scan_keywords(args, names, i + 1, value, keywords.insert(k), leftover),
            None => if value is None {
                scan_keywords(args, names, i + 1, Some(args[i]), keywords, leftover)
            } else if leftover is None {
                scan_keywords(args, names, i + 1, value, keywords, Some(args[i]))
            } else {
                scan_keywords(args, names, i + 1, value, keywords, leftover)
            },
        }
    }
}

/// The value, keywords and left-over argument that the positional arguments give.
pub open spec fn split_keywords(args: Seq<Seq<char>>, names: Seq<Seq<char>>) -> (
    Option<Seq<char>>,
    Set<int>,
    Option<Seq<char>>,
) {
    scan_keywords(args, names, 0, None, Set::empty(), None)
}

fn keyword_index_exec(arg: &str, names: &[&str]) -> (r: Option<usize>)
    ensures
        r matches Some(k) ==> k < names@.len(),
        r matches Some(k) ==> keyword_index(arg@, names@.map_values(|n: &str| n@), 0) == Some(
            k as int,
        ),
        r is None ==> keyword_index(arg@, names@.map_values(|n: &str| n@), 0) is None,
{
    let ghost ns = names@.map_values(|n: &str| n@);
    let mut i: usize = 0;
    while i < names.len()
        invariant
            i <= names@.len(),
            ns == names@.map_values(|n: &str| n@),
            keyword_index(arg@, ns, 0) == keyword_index(arg@, ns, i as int),
        decreases names@.len() - i,
    {
        if str_eq_ignore_case(arg, names[i]) {
            return Some(i);
        }
        i += 1;
    }
    None
}

impl<'a> Arguments<'a> {
    /// Sorts the positional arguments into a value, the keywords of `names` that occur, and the
    /// first argument after the value that is neither (see [`split_keywords`]). The keywords
    /// come as one flag per name.
    pub fn split_keywords(&self, names: &[&str]) -> (r: (Option<&'a str>, Vec<bool>, Option<&'a str>))
        ensures
            ({
                let e = split_keywords(self.positional_view(), names@.map_values(|n: &str| n@));
                &&& (match r.0 {
                    Some(v) => e.0 == Some(v@),
                    None => e.0 is None,
                })
                &&& r.1@.len() == names@.len()
                &&& forall|k: int| 0 <= k < names@.len() ==> r.1@[k] == e.1.contains(k)
                &&& (match r.2 {
                    Some(v) => e.2 == Some(v@),
                    None => e.2 is None,
                })
            }),
    {
        let ghost ns = names@.map_values(|n: &str| n@);
        let ghost args = self.positional_view();
        let mut flags: Vec<bool> = Vec::new();
        let mut j: usize = 0;
        while j < names.len()
            invariant
                j <= names@.len(),
                flags@.len() == j,
                forall|k: int| 0 <= k < j ==> !flags@[k],
            decreases names@.len() - j,
        {
            flags.push(false);
            j += 1;
        }
        let mut value: Option<&'a str> = None;
        let mut leftover: Option<&'a str> = None;
        let ghost mut kw: Set<int> = Set::empty();
        let mut i: usize = 0;
        while i < self.positional.len()
            invariant
                i <= self.positional@.len(),
                args == self.positional_view(),
                ns == names@.map_values(|n: &str| n@),
                flags@.len() == names@.len(),
                forall|k: int| 0 <= k < names@.len() ==> flags@[k] == kw.contains(k),
                split_keywords(args, ns) == scan_keywords(
                    args,
                    ns,
                    i as int,
                    match value {
                        Some(v) => Some(v@),
                        None => None,
                    },
                    kw,
                    match leftover {
                        Some(v) => Some(v@),
                        None => None,
                    },
                ),
            decreases self.positional@.len() - i,
        {
            let arg = self.positional[i];
            assert(args[i as int] == arg@);
            match keyword_index_exec(arg, names) {
                Some(k) => {
                    proof {
                        kw = kw.insert(k as int);
                    }
                    flags.set(k, true);
                },
                None => {
                    if value.is_none() {
                        value = Some(arg);
                    } else if leftover.is_none() {
                        leftover = Some(arg);
                    }
                },
            }
            i += 1;
        }
        (value, flags, leftover)
    }
}

impl<'a> Words<'a> {
    /// Reads the remaining words as arguments.
    pub fn parse_args(self) -> (r: Result<Arguments<'a>, Error>)
        ensures
            ({
                let e = extend_spec(self.text(), self.position(), Seq::empty(), Map::empty());
                &&& match e.2 {
                    None => r matches Ok(a) && a.positional_view() == e.0 && a.named_view() == e.1,
                    Some(err) => r matches Err(x) && x@ == err,
                }
            }),
    {
        let mut this = Arguments::new();
        match this.extend(self) {
            Ok(()) => Ok(this),
            Err(e) => Err(e),
        }
    }
}

proof fn lemma_named_len(s: Seq<(&str, &str)>)
    requires
        names_unique(s),
    ensures
        named_map(s).len() == s.len(),
        named_map(s).dom().finite(),
    decreases s.len(),
{
    if s.len() > 0 {
        lemma_named_len(s.drop_last());
        lemma_named_absent(s.drop_last(), ascii_lower_seq(s.last().0@));
    }
}

} // verus!

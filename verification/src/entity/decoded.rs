use std::borrow::Cow;

use vstd::prelude::*;

use crate::parse::validation::str_from_utf8;
use crate::text::{push_char, push_str};

verus! {

/// Spec-level view of a [`DecodedEntity`].
pub enum EntityText {
    /// A single character.
    Standard(char),
    /// A string.
    Custom(Seq<char>),
}

/// The text that a decoded entity stands for.
pub open spec fn entity_text(e: EntityText) -> Seq<char> {
    match e {
        EntityText::Standard(c) => seq![c],
        EntityText::Custom(s) => s,
    }
}

/// A decoded MXP entity, either standard or server-defined.
#[derive(Debug, PartialEq, Eq)]
pub enum DecodedEntity<'a> {
    /// A standard XML entity, such as `&amp;` or `&#032;`.
    Standard(char),
    /// A custom MXP entity defined by the server.
    Custom(Cow<'a, str>),
}

impl<'a> View for DecodedEntity<'a> {
    type V = EntityText;

    open spec fn view(&self) -> EntityText {
        match self {
            DecodedEntity::Standard(c) => EntityText::Standard(*c),
            DecodedEntity::Custom(s) => EntityText::Custom(s@),
        }
    }
}

/// Writes the UTF-8 bytes of a character at the front of a buffer, leaving the rest of the
/// buffer as it was, and returns the part of the buffer that holds them.
fn encode_into<'b>(c: char, buf: &'b mut [u8]) -> (r: &'b str)
    requires
        old(buf)@.len() >= vstd::utf8::encode_utf8(seq![c]).len(),
    ensures
        r@ == seq![c],
        final(buf)@ == vstd::utf8::encode_utf8(seq![c]) + old(buf)@.subrange(
            vstd::utf8::encode_utf8(seq![c]).len() as int,
            old(buf)@.len() as int,
        ),
{
    let ghost enc = vstd::utf8::encode_utf8(seq![c]);
    let mut text = String::new();
    push_char(&mut text, c);
    assert(text@ =~= seq![c]);
    let bytes = text.as_str().as_bytes();
    let n = bytes.len();
    let mut i: usize = 0;
    while i < n
        invariant
            bytes@ == enc,
            n == enc.len(),
            i <= n,
            buf@.len() == old(buf)@.len(),
            n <= buf@.len(),
            buf@ == enc.subrange(0, i as int) + old(buf)@.subrange(i as int, old(buf)@.len() as int),
        decreases n - i,
    {
        buf[i] = bytes[i];
        i += 1;
        assert(buf@ =~= enc.subrange(0, i as int) + old(buf)@.subrange(i as int, old(buf)@.len() as int));
    }
    assert(enc.subrange(0, n as int) =~= enc);
    let shared: &'b [u8] = buf;
    let prefix = vstd::slice::slice_subrange(shared, 0, n);
    assert(prefix@ =~= enc);
    proof {
        vstd::utf8::encode_utf8_valid_utf8(seq![c]);
    }
    match str_from_utf8(prefix) {
        Some(t) => {
            proof {
                vstd::utf8::encode_utf8_decode_utf8(t@);
                vstd::utf8::encode_utf8_decode_utf8(seq![c]);
            }
            t
        },
        None => "",
    }
}

impl<'a> DecodedEntity<'a> {
    /// Appends the decoded entity to a string.
    pub fn push_to(self, buf: &mut String)
        ensures
            final(buf)@ == old(buf)@ + entity_text(self@),
    {
        match self {
            DecodedEntity::Standard(c) => {
                push_char(buf, c);
                assert(buf@ =~= old(buf)@ + seq![c]);
            },
            DecodedEntity::Custom(s) => push_str(buf, cow_str(&s)),
        }
    }

    /// If this entity is a string, the entity is returned directly. If it is a character,
    /// encodes the character as UTF-8 into the provided byte buffer and returns the part of the
    /// buffer that holds it.
    pub fn encode(&'a self, buf: &'a mut [u8]) -> (r: &'a str)
        requires
            self@ matches EntityText::Standard(c) ==> old(buf)@.len() >= vstd::utf8::encode_utf8(
                seq![c],
            ).len(),
        ensures
            r@ == entity_text(self@),
            self@ matches EntityText::Standard(c) ==> final(buf)@ == vstd::utf8::encode_utf8(
                seq![c],
            ) + old(buf)@.subrange(
                vstd::utf8::encode_utf8(seq![c]).len() as int,
                old(buf)@.len() as int,
            ),
            self@ is Custom ==> final(buf)@ == old(buf)@,
    {
        match self {
            DecodedEntity::Standard(c) => encode_into(*c, buf),
            DecodedEntity::Custom(s) => cow_str(s),
        }
    }

    /// The text that the entity stands for, as an owned string.
    pub fn to_text(&self) -> (r: String)
        ensures
            r@ == entity_text(self@),
    {
        let mut s = String::new();
        match self {
            DecodedEntity::Standard(c) => {
                push_char(&mut s, *c);
                assert(s@ =~= seq![*c]);
            },
            DecodedEntity::Custom(t) => push_str(&mut s, cow_str(t)),
        }
        s
    }
}

/// A decoded entity equals a character when it is that standard character.
impl<'a> PartialEq<char> for DecodedEntity<'a> {
    fn eq(&self, other: &char) -> (r: bool) {
        match self {
            DecodedEntity::Standard(c) => *c == *other,
            DecodedEntity::Custom(_) => false,
        }
    }
}

impl<'a> vstd::std_specs::cmp::PartialEqSpecImpl<char> for DecodedEntity<'a> {
    open spec fn obeys_eq_spec() -> bool {
        true
    }

    open spec fn eq_spec(&self, other: &char) -> bool {
        self@ == EntityText::Standard(*other)
    }
}

impl<'a> Clone for DecodedEntity<'a> {
    fn clone(&self) -> (r: Self)
        ensures
            r@ == self@,
    {
        match self {
            DecodedEntity::Standard(c) => DecodedEntity::Standard(*c),
            DecodedEntity::Custom(Cow::Borrowed(s)) => DecodedEntity::Custom(Cow::Borrowed(s)),
            DecodedEntity::Custom(Cow::Owned(s)) => DecodedEntity::Custom(Cow::Owned(s.clone())),
        }
    }
}

/// The string slice that a copy-on-write string holds.
pub fn cow_str<'b>(c: &'b Cow<'_, str>) -> (r: &'b str)
    ensures
        r@ == c@,
{
    match c {
        Cow::Borrowed(s) => s,
        Cow::Owned(s) => s.as_str(),
    }
}

impl<'a> From<char> for DecodedEntity<'a> {
    fn from(value: char) -> Self {
        DecodedEntity::Standard(value)
    }
}

impl<'a> vstd::std_specs::convert::FromSpecImpl<char> for DecodedEntity<'a> {
    open spec fn obeys_from_spec() -> bool {
        true
    }

    open spec fn from_spec(v: char) -> Self {
        DecodedEntity::Standard(v)
    }
}

impl<'a> From<&'a str> for DecodedEntity<'a> {
    fn from(value: &'a str) -> Self {
        DecodedEntity::Custom(Cow::Borrowed(value))
    }
}

impl<'a> vstd::std_specs::convert::FromSpecImpl<&'a str> for DecodedEntity<'a> {
    open spec fn obeys_from_spec() -> bool {
        true
    }

    open spec fn from_spec(v: &'a str) -> Self {
        DecodedEntity::Custom(Cow::Borrowed(v))
    }
}

impl<'a> From<String> for DecodedEntity<'a> {
    fn from(value: String) -> Self {
        DecodedEntity::Custom(Cow::Owned(value))
    }
}

impl<'a> vstd::std_specs::convert::FromSpecImpl<String> for DecodedEntity<'a> {
    open spec fn obeys_from_spec() -> bool {
        true
    }

    open spec fn from_spec(v: String) -> Self {
        DecodedEntity::Custom(Cow::Owned(v))
    }
}

} // verus!

use std::borrow::Cow;

use vstd::prelude::*;

use super::error::Error;
use super::error_kind::ErrorKind;
use super::validation::{is_valid, valid_name};
use crate::entity::decoded::{entity_text, DecodedEntity, EntityText};
use crate::entity::entity::{global_entity, Entity};
use crate::text::{chars_of, find_char, first_index, is_digit, lemma_first_index_found, push_str, substring};

verus! {

/// Value of a digit in a radix, as `char::to_digit` gives it.
pub open spec fn digit_of(c: char, radix: nat) -> Option<nat> {
    let d: int = if is_digit(c) {
        (c as int) - ('0' as int)
    } else if 'a' <= c <= 'z' {
        (c as int) - ('a' as int) + 10
    } else if 'A' <= c <= 'Z' {
        (c as int) - ('A' as int) + 10
    } else {
        36
    };
    if d < radix {
        Some(d as nat)
    } else {
        None
    }
}

/// Value of a sequence of digits in a radix, or `None` if one of them is not a digit.
pub open spec fn digits_value(s: Seq<char>, radix: nat) -> Option<nat>
    decreases s.len(),
{
    if s.len() == 0 {
        Some(0)
    } else {
        match (digits_value(s.drop_last(), radix), digit_of(s.last(), radix)) {
            (Some(v), Some(d)) => Some(v * radix + d),
            _ => None,
        }
    }
}

/// `u32::from_str_radix`: an optional `+` followed by at least one digit, whose value fits in a
/// `u32`.
pub open spec fn parse_u32_radix(s: Seq<char>, radix: nat) -> Option<u32> {
    let digits = if s.len() > 0 && s[0] == '+' {
        s.drop_first()
    } else {
        s
    };
    if digits.len() == 0 {
        None
    } else {
        match digits_value(digits, radix) {
            Some(v) if v <= u32::MAX => Some(v as u32),
            _ => None,
        }
    }
}

proof fn lemma_digits_prefix(s: Seq<char>, k: int, radix: nat)
    requires
        radix >= 1,
        0 <= k <= s.len(),
    ensures
        digits_value(s, radix) is Some ==> digits_value(s.take(k), radix) is Some && digits_value(
            s.take(k),
            radix,
        ).unwrap() <= digits_value(s, radix).unwrap(),
    decreases s.len(),
{
    if k == s.len() {
        assert(s.take(k) =~= s);
    } else {
        assert(s.drop_last().take(k) =~= s.take(k));
        lemma_digits_prefix(s.drop_last(), k, radix);
        if let Some(v) = digits_value(s.drop_last(), radix) {
            if let Some(d) = digit_of(s.last(), radix) {
                assert(v * radix + d >= v) by (nonlinear_arith)
                    requires
                        radix >= 1,
                        d >= 0,
                        v >= 0,
                ;
            }
        }
    }
}

/// Parses an unsigned 32-bit integer in a radix, as `u32::from_str_radix` does.
pub fn parse_u32(s: &[char], radix: u32) -> (r: Option<u32>)
    requires
        2 <= radix <= 36,
    ensures
        r == parse_u32_radix(s@, radix as nat),
{
    let start: usize = if s.len() > 0 && s[0] == '+' {
        1
    } else {
        0
    };
    let ghost digits = if s@.len() > 0 && s@[0] == '+' {
        s@.drop_first()
    } else {
        s@
    };
    assert(digits =~= s@.subrange(start as int, s@.len() as int));
    if start >= s.len() {
        return None;
    }
    let mut v: u64 = 0;
    let mut i: usize = start;
    while i < s.len()
        invariant
            start <= i <= s@.len(),
            digits =~= s@.subrange(start as int, s@.len() as int),
            digits == (if s@.len() > 0 && s@[0] == '+' {
                s@.drop_first()
            } else {
                s@
            }),
            digits.len() > 0,
            2 <= radix <= 36,
            v <= u32::MAX,
            digits_value(digits.take(i - start), radix as nat) == Some(v as nat),
        decreases s@.len() - i,
    {
        let c = s[i];
        let d: u32 = if '0' <= c && c <= '9' {
            (c as u32) - ('0' as u32)
        } else if 'a' <= c && c <= 'z' {
            (c as u32) - ('a' as u32) + 10
        } else if 'A' <= c && c <= 'Z' {
            (c as u32) - ('A' as u32) + 10
        } else {
            36
        };
        let ghost k = (i - start) as int;
        proof {
            assert(digits.take(k + 1).drop_last() =~= digits.take(k));
            assert(digits.take(k + 1).last() == c);
            lemma_digits_prefix(digits, k + 1, radix as nat);
        }
        if d >= radix {
            assert(digit_of(c, radix as nat) is None);
            assert(digits_value(digits.take(k + 1), radix as nat) is None);
            return None;
        }
        assert(digit_of(c, radix as nat) == Some(d as nat));
        assert(v * (radix as u64) <= u32::MAX * 36) by (nonlinear_arith)
            requires
                v <= u32::MAX,
                radix <= 36,
        ;
        let nv: u64 = v * (radix as u64) + (d as u64);
        assert(digits_value(digits.take(k + 1), radix as nat) == Some(nv as nat));
        if nv > u32::MAX as u64 {
            return None;
        }
        v = nv;
        i += 1;
    }
    assert(digits.take((i - start) as int) =~= digits);
    Some(v as u32)
}

/// Characters that decode to nothing, per the MXP standard.
pub open spec fn ignored_code(code: u32) -> bool {
    code <= 0x08 || (0x0a <= code <= 0x1f) || (0x7f <= code <= 0x9f)
}

/// Unicode scalar values.
pub open spec fn is_scalar_value(code: u32) -> bool {
    code <= 0x10FFFF && !(0xD800 <= code <= 0xDFFF)
}

/// Result of decoding a numeric entity, where `digits` follows the `#` or `#x` of `name`.
pub open spec fn decode_numeric(name: Seq<char>, digits: Seq<char>, radix: nat) -> Result<EntityText, (ErrorKind, Seq<char>)> {
    match parse_u32_radix(digits, radix) {
        None => Err((ErrorKind::InvalidEntityNumber, name)),
        Some(code) => if is_scalar_value(code) && !ignored_code(code) {
            Ok(EntityText::Standard(code as char))
        } else {
            Ok(EntityText::Custom(Seq::empty()))
        },
    }
}

/// A numeric entity, `#` and decimal digits or `#x` and hexadecimal digits, whose code is a
/// Unicode scalar value outside the control ranges 0x00-0x08, 0x0A-0x1F and 0x7F-0x9F decodes
/// to exactly the character of that code; a code in those ranges decodes to nothing.
pub proof fn law_numeric_entity(lookup: spec_fn(Seq<char>) -> Option<Seq<char>>, name: Seq<char>, code: u32)
    requires
        name.len() >= 1 && name[0] == '#',
        if name.len() >= 2 && name[1] == 'x' {
            parse_u32_radix(name.subrange(2, name.len() as int), 16) == Some(code)
        } else {
            parse_u32_radix(name.subrange(1, name.len() as int), 10) == Some(code)
        },
    ensures
        (code <= 0x10FFFF && !(0xD800 <= code <= 0xDFFF) && !(code <= 0x08) && !(0x0a <= code
            <= 0x1f) && !(0x7f <= code <= 0x9f)) ==> decode_entity_with(lookup, name) == Ok::<
            EntityText,
            (ErrorKind, Seq<char>),
        >(EntityText::Standard(code as char)),
        (code <= 0x08 || (0x0a <= code <= 0x1f) || (0x7f <= code <= 0x9f)) ==> decode_entity_with(
            lookup,
            name,
        ) == Ok::<EntityText, (ErrorKind, Seq<char>)>(EntityText::Custom(Seq::empty())),
{
    assert(name.drop_first() =~= name.subrange(1, name.len() as int));
}

/// Result of decoding an entity name, given the entities a decoder defines.
pub open spec fn decode_entity_with(lookup: spec_fn(Seq<char>) -> Option<Seq<char>>, name: Seq<char>) -> Result<EntityText, (ErrorKind, Seq<char>)> {
    if name.len() >= 2 && name[0] == '#' && name[1] == 'x' {
        decode_numeric(name, name.subrange(2, name.len() as int), 16)
    } else if name.len() >= 1 && name[0] == '#' {
        decode_numeric(name, name.drop_first(), 10)
    } else {
        match lookup(name) {
            Some(v) => Ok(EntityText::Custom(v)),
            None => if valid_name(name) {
                Err((ErrorKind::UnknownEntity, name))
            } else {
                Err((ErrorKind::InvalidEntityName, name))
            },
        }
    }
}

/// Result of replacing every `&name;` of a string by the entity it names.
pub open spec fn decode_text_with(lookup: spec_fn(Seq<char>) -> Option<Seq<char>>, s: Seq<char>) -> Result<Seq<char>, (ErrorKind, Seq<char>)>
    decreases s.len(),
{
    match first_index(s, '&') {
        None => Ok(s),
        Some(i) => {
            let before = s.subrange(0, i);
            let rest = s.subrange(i + 1, s.len() as int);
            match first_index(rest, ';') {
                None => Err((ErrorKind::NoClosingSemicolon, seq!['&'] + rest)),
                Some(j) => {
                    let entity = rest.subrange(0, j);
                    let after = rest.subrange(j + 1, rest.len() as int);
                    match decode_entity_with(lookup, entity) {
                        Err(e) => Err(e),
                        Ok(v) => {
                            if 0 <= i < s.len() && 0 <= j < rest.len() {
                                match decode_text_with(lookup, after) {
                                    Err(e) => Err(e),
                                    Ok(t) => Ok(before + entity_text(v) + t),
                                }
                            } else {
                                Err((ErrorKind::NoClosingSemicolon, s))
                            }
                        },
                    }
                },
            }
        },
    }
}

/// The spec-level result of an entity decode.
pub open spec fn decoded_view<'a>(r: Result<DecodedEntity<'a>, Error>) -> Result<EntityText, (ErrorKind, Seq<char>)> {
    match r {
        Ok(d) => Ok(d@),
        Err(e) => Err(e@),
    }
}

/// The spec-level result of a string decode.
pub open spec fn text_view<'a>(r: Result<Cow<'a, str>, Error>) -> Result<Seq<char>, (ErrorKind, Seq<char>)> {
    match r {
        Ok(d) => Ok(d@),
        Err(e) => Err(e@),
    }
}

/// Converts a code to a character with `char::from_u32`. Claims, as its documentation says,
/// that it succeeds exactly for Unicode scalar values, giving the character of that code.
#[verifier::external_body]
fn char_from_u32(code: u32) -> (r: Option<char>)
    ensures
        r is Some <==> is_scalar_value(code),
        r matches Some(c) ==> c == code as char,
{
    char::from_u32(code)
}

/// Decodes a numeric entity `name`, whose digits in `radix` start at `start`.
fn decode_number<'b>(name: &str, cs: &Vec<char>, start: usize, radix: u32) -> (r: Result<DecodedEntity<'b>, Error>)
    requires
        cs@ == name@,
        start <= cs@.len(),
        radix == 10 || radix == 16,
    ensures
        decoded_view(r) == decode_numeric(name@, name@.subrange(start as int, name@.len() as int), radix as nat),
{
    let digits = vstd::slice::slice_subrange(cs.as_slice(), start, cs.len());
    proof {
        reveal_strlit("");
        assert(""@ =~= Seq::<char>::empty());
        assert(digits@ =~= name@.subrange(start as int, name@.len() as int));
    }
    match parse_u32(digits, radix) {
        None => Err(Error::new(name, ErrorKind::InvalidEntityNumber)),
        Some(code) => {
            match char_from_u32(code) {
                Some(c) => {
                    if code <= 0x08 || (0x0a <= code && code <= 0x1f) || (0x7f <= code && code <= 0x9f) {
                        Ok(DecodedEntity::Custom(Cow::Borrowed("")))
                    } else {
                        Ok(DecodedEntity::Standard(c))
                    }
                },
                None => Ok(DecodedEntity::Custom(Cow::Borrowed(""))),
            }
        },
    }
}

/// A source of entity definitions, able to decode entities and strings that contain them.
pub trait Decoder {
    /// The value defined for an entity name, if any.
    spec fn entity_spec(&self, name: Seq<char>) -> Option<Seq<char>>;

    /// Retrieves the definition for an entity by name.
    fn get_entity(&self, name: &str) -> (r: Option<&str>)
        ensures
            r is Some <==> self.entity_spec(name@) is Some,
            r matches Some(v) ==> self.entity_spec(name@) == Some(v@),
    ;

    /// Decodes an entity by either parsing a numeric entity (e.g. `"#32"`) or looking it up with
    /// [`get_entity`](Self::get_entity).
    fn decode_entity(&self, name: &str) -> (r: Result<DecodedEntity<'_>, Error>)
        ensures
            decoded_view(r) == decode_entity_with(|n: Seq<char>| self.entity_spec(n), name@),
    {
        let cs = chars_of(name);
        if cs.len() >= 2 && cs[0] == '#' && cs[1] == 'x' {
            return decode_number(name, &cs, 2, 16);
        }
        if cs.len() >= 1 && cs[0] == '#' {
            assert(name@.subrange(1, name@.len() as int) =~= name@.drop_first());
            return decode_number(name, &cs, 1, 10);
        }
        match self.get_entity(name) {
            Some(entity) => Ok(DecodedEntity::Custom(Cow::Borrowed(entity))),
            None => if is_valid(name) {
                Err(Error::new(name, ErrorKind::UnknownEntity))
            } else {
                Err(Error::new(name, ErrorKind::InvalidEntityName))
            },
        }
    }

    /// Decodes an entire string, replacing all entities inside it with their values. If the
    /// string does not contain any entities, it is returned unchanged as a borrowed string slice.
    fn decode_string<'a>(&self, s: &'a str) -> (r: Result<Cow<'a, str>, Error>)
        ensures
            text_view(r) == decode_text_with(|n: Seq<char>| self.entity_spec(n), s@),
            first_index(s@, '&') is None ==> r == Ok::<Cow<'a, str>, Error>(Cow::Borrowed(s)),
    {
        let ghost lookup = |n: Seq<char>| self.entity_spec(n);
        let mut res = String::new();
        let mut rest: &'a str = s;
        loop
            invariant
                lookup == (|n: Seq<char>| self.entity_spec(n)),
                decode_text_with(lookup, s@) == (match decode_text_with(lookup, rest@) {
                    Ok(t) => Ok(res@ + t),
                    Err(e) => Err(e),
                }),
                first_index(s@, '&') is None ==> rest == s && res@.len() == 0,
            decreases rest@.len(),
        {
            let cs = chars_of(rest);
            proof {
                lemma_first_index_found(rest@, '&');
            }
            match find_char(cs.as_slice(), '&') {
                None => {
                    if res.as_str().unicode_len() == 0 {
                        assert(res@ + rest@ =~= rest@);
                        return Ok(Cow::Borrowed(rest));
                    }
                    push_str(&mut res, rest);
                    return Ok(Cow::Owned(res));
                },
                Some(i) => {
                    let n = cs.len();
                    let before = substring(rest, 0, i);
                    let after_amp = substring(rest, i + 1, n);
                    let acs = chars_of(after_amp);
                    proof {
                        lemma_first_index_found(after_amp@, ';');
                    }
                    match find_char(acs.as_slice(), ';') {
                        None => {
                            let mut target = String::new();
                            crate::text::push_char(&mut target, '&');
                            push_str(&mut target, after_amp);
                            assert(target@ =~= seq!['&'] + after_amp@);
                            return Err(Error::from_string(target, ErrorKind::NoClosingSemicolon));
                        },
                        Some(j) => {
                            let m = acs.len();
                            let entity = substring(after_amp, 0, j);
                            let after = substring(after_amp, j + 1, m);
                            let decoded = self.decode_entity(entity);
                            match decoded {
                                Err(e) => return Err(e),
                                Ok(v) => {
                                    let ghost old_res = res@;
                                    push_str(&mut res, before);
                                    v.push_to(&mut res);
                                    proof {
                                        assert(res@ =~= old_res + (before@ + entity_text(v@)));
                                        match decode_text_with(lookup, after@) {
                                            Ok(t) => {
                                                assert(old_res + (before@ + entity_text(v@) + t) =~= res@ + t);
                                            },
                                            Err(e) => {},
                                        }
                                    }
                                    rest = after;
                                },
                            }
                        },
                    }
                },
            }
        }
    }
}

/// Fallback decoder that only looks up global entities (with [`Entity::global`]).
impl Decoder for () {
    open spec fn entity_spec(&self, name: Seq<char>) -> Option<Seq<char>> {
        global_entity(name)
    }

    fn get_entity(&self, name: &str) -> (r: Option<&str>) {
        Entity::global(name)
    }
}

} // verus!

use vstd::prelude::*;
use vstd::string::StringSliceAdditionalSpecFns;
use vstd::utf8::valid_utf8;

use super::error::Error;
use super::error_kind::ErrorKind;
use crate::text::{is_alpha, is_digit};

verus! {

/// A character allowed after the first character of an MXP identifier.
pub open spec fn is_name_char(c: char) -> bool {
    is_digit(c) || is_alpha(c) || c == '_' || c == '-' || c == '.'
}

/// A valid MXP identifier: an ASCII letter followed by ASCII letters, digits, `_`, `-` and `.`.
pub open spec fn valid_name(s: Seq<char>) -> bool {
    &&& s.len() > 0
    &&& is_alpha(s[0])
    &&& forall|i: int| 1 <= i < s.len() ==> is_name_char(#[trigger] s[i])
}

/// The result of `validate` on a target.
pub open spec fn validate_result(target: Seq<char>, error: ErrorKind) -> Result<(), (ErrorKind, Seq<char>)> {
    if valid_name(target) {
        Ok(())
    } else {
        Err((error, target))
    }
}

/// Number of occurrences of `needle` in `s`.
pub open spec fn count_of<T>(s: Seq<T>, needle: T) -> nat
    decreases s.len(),
{
    if s.len() == 0 {
        0
    } else {
        count_of(s.drop_last(), needle) + if s.last() == needle { 1nat } else { 0nat }
    }
}

proof fn lemma_count_of_le<T>(s: Seq<T>, needle: T)
    ensures
        count_of(s, needle) <= s.len(),
    decreases s.len(),
{
    if s.len() > 0 {
        lemma_count_of_le(s.drop_last(), needle);
    }
}

/// If the specified target is valid to use as an MXP identifier, returns `true`.
pub fn is_valid(target: &str) -> (r: bool)
    ensures
        r == valid_name(target@),
{
    let cs = crate::text::chars_of(target);
    if cs.len() == 0 {
        return false;
    }
    let first = cs[0];
    if !(('A' <= first && first <= 'Z') || ('a' <= first && first <= 'z')) {
        return false;
    }
    let mut i: usize = 1;
    while i < cs.len()
        invariant
            cs@ == target@,
            1 <= i <= cs@.len(),
            forall|j: int| 1 <= j < i ==> is_name_char(#[trigger] cs@[j]),
        decreases cs@.len() - i,
    {
        let c = cs[i];
        if !(('0' <= c && c <= '9') || ('A' <= c && c <= 'Z') || ('a' <= c && c <= 'z') || c == '_'
            || c == '-' || c == '.') {
            assert(!is_name_char(target@[i as int]));
            return false;
        }
        i += 1;
    }
    true
}

/// If the specified target is valid to use as an MXP identifier, returns `Ok(())`. Otherwise,
/// returns an error for the target with the specified error kind.
pub fn validate(target: &str, error: ErrorKind) -> (r: Result<(), Error>)
    ensures
        r matches Ok(_) ==> validate_result(target@, error) is Ok,
        r matches Err(e) ==> validate_result(target@, error) == Err::<(), _>(e@),
{
    if is_valid(target) {
        Ok(())
    } else {
        Err(Error::new(target, error))
    }
}

/// Text that `String::from_utf8_lossy` produces for a byte sequence.
pub uninterp spec fn utf8_lossy(bytes: Seq<u8>) -> Seq<char>;

/// Reads bytes as a string slice with `std::str::from_utf8`. Claims, as its documentation
/// says, that it succeeds exactly when the bytes are valid UTF-8, and that the slice then holds
/// those bytes.
#[verifier::external_body]
pub(crate) fn str_from_utf8(bytes: &[u8]) -> (r: Option<&str>)
    ensures
        r is Some <==> valid_utf8(bytes@),
        r matches Some(s) ==> s.spec_bytes() == bytes@,
{
    std::str::from_utf8(bytes).ok()
}

/// Decodes bytes with `String::from_utf8_lossy`, which replaces invalid sequences by U+FFFD.
/// Claims only that the text is what [`utf8_lossy`] names for the bytes: the same bytes give
/// the same text.
#[verifier::external_body]
pub(crate) fn string_from_utf8_lossy(bytes: &[u8]) -> (r: String)
    ensures
        r@ == utf8_lossy(bytes@),
{
    String::from_utf8_lossy(bytes).into_owned()
}

/// Equivalent to `str::from_utf8`, but returns an [`Error`] of kind [`ErrorKind::InvalidUtf8`]
/// instead, whose target is the lossy decoding of the bytes.
pub fn validate_utf8(bytes: &[u8]) -> (r: Result<&str, Error>)
    ensures
        r is Ok <==> valid_utf8(bytes@),
        r matches Ok(s) ==> s.spec_bytes() == bytes@,
        r matches Err(e) ==> e@ == (ErrorKind::InvalidUtf8, utf8_lossy(bytes@)),
{
    if let Some(utf8) = str_from_utf8(bytes) {
        return Ok(utf8);
    }
    Err(Error::from_string(string_from_utf8_lossy(bytes), ErrorKind::InvalidUtf8))
}

/// Counts the occurrences of `needle` in `haystack`. The count is kept as a 32-bit number,
/// so it must fit in one.
pub fn count_bytes(haystack: &[u8], needle: u8) -> (n: usize)
    requires
        count_of(haystack@, needle) <= u32::MAX,
    ensures
        n == count_of(haystack@, needle),
{
    let mut n: usize = 0;
    let mut i: usize = 0;
    while i < haystack.len()
        invariant
            i <= haystack@.len(),
            n == count_of(haystack@.take(i as int), needle),
        decreases haystack@.len() - i,
    {
        proof {
            assert(haystack@.take(i + 1).drop_last() =~= haystack@.take(i as int));
            lemma_count_of_le(haystack@.take(i as int), needle);
        }
        if haystack[i] == needle {
            n += 1;
        }
        i += 1;
    }
    assert(haystack@.take(haystack@.len() as int) =~= haystack@);
    n
}

} // verus!

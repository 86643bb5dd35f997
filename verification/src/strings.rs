//! Text operations of the standard library that vstd gives no specification,
//! each behind a wrapper whose contract states what its documentation says.

use vstd::prelude::*;

verus! {

/// `needle` occurs in `hay` as a contiguous run of characters.
pub open spec fn is_infix_of(needle: Seq<char>, hay: Seq<char>) -> bool {
    exists|i: int|
        0 <= i && i + needle.len() <= hay.len() && #[trigger] hay.subrange(i, i + needle.len())
            == needle
}

/// `str::contains` with a string pattern: true exactly when the pattern
/// matches a sub-slice of `hay`.
#[verifier::external_body]
pub(crate) fn str_contains(hay: &str, needle: &str) -> (b: bool)
    ensures
        b == is_infix_of(needle@, hay@),
{
    hay.contains(needle)
}

/// `char::from_u32`: the character with scalar value `v`, or `None` where `v`
/// is not a Unicode scalar value.
#[verifier::external_body]
pub(crate) fn char_from_u32(v: u32) -> (c: Option<char>)
    ensures
        c is Some <==> vstd::utf8::is_scalar(v),
        c matches Some(ch) ==> ch as u32 == v,
{
    char::from_u32(v)
}

/// `String::push`: appends one character.
#[verifier::external_body]
pub(crate) fn push_char(s: &mut String, c: char)
    ensures
        final(s)@ == old(s)@.push(c),
{
    s.push(c)
}

/// `std::str::from_utf8`: the string whose bytes are `bytes`, or `None`
/// where `bytes` is not valid UTF-8.
#[verifier::external_body]
pub(crate) fn str_from_utf8(bytes: &[u8]) -> (r: Option<&str>)
    ensures
        r is Some <==> vstd::utf8::valid_utf8(bytes@),
        r matches Some(s) ==> vstd::utf8::encode_utf8(s@) == bytes@,
{
    std::str::from_utf8(bytes).ok()
}

/// `needle` is an infix of `hay` exactly when some run of `hay` of the
/// needle's length, starting at some position, equals it; the empty string
/// is an infix of every string.
pub proof fn lemma_is_infix_of(needle: Seq<char>, hay: Seq<char>)
    ensures
        is_infix_of(needle, hay) <==> exists|i: int|
            0 <= i && i + needle.len() <= hay.len() && #[trigger] hay.subrange(i, i + needle.len()) == needle,
        is_infix_of(Seq::empty(), hay),
        is_infix_of(hay, hay),
{
    let e = Seq::<char>::empty();
    assert(hay.subrange(0, 0 + e.len() as int) =~= e);
    assert(hay.subrange(0, 0 + hay.len() as int) =~= hay);
}

} // verus!

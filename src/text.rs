use vstd::prelude::*;
use vstd::utf8::{encode_utf8, decode_utf8, encode_utf8_decode_utf8};

verus! {

/// The UTF-8 bytes of a text.
pub open spec fn bytes_of(s: Seq<char>) -> Seq<u8> {
    encode_utf8(s)
}

/// The length of a text in UTF-8 bytes.
pub open spec fn byte_len(s: Seq<char>) -> nat {
    encode_utf8(s).len()
}

/// Encoding a concatenation concatenates the encodings.
pub proof fn lemma_bytes_of_concat(a: Seq<char>, b: Seq<char>)
    ensures
        bytes_of(a + b) == bytes_of(a) + bytes_of(b),
    decreases a.len(),
{
    if a.len() == 0 {
        assert(a + b =~= b);
        assert(bytes_of(a) + bytes_of(b) =~= bytes_of(b));
    } else {
        lemma_bytes_of_concat(a.drop_first(), b);
        assert((a + b).drop_first() =~= a.drop_first() + b);
        assert((a + b)[0] == a[0]);
        let head = vstd::utf8::encode_scalar(a[0] as u32);
        assert(head + (bytes_of(a.drop_first()) + bytes_of(b)) =~= (head + bytes_of(
            a.drop_first(),
        )) + bytes_of(b));
    }
}

/// Two texts with the same encoding are the same text.
pub proof fn lemma_bytes_of_injective(a: Seq<char>, b: Seq<char>)
    requires
        bytes_of(a) == bytes_of(b),
    ensures
        a == b,
{
    encode_utf8_decode_utf8(a);
    encode_utf8_decode_utf8(b);
    assert(decode_utf8(encode_utf8(a)) == decode_utf8(encode_utf8(b)));
}

/// Relies on `String::push_str`: appends the characters of `tail`.
#[verifier::external_body]
pub(crate) fn push_str(s: &mut String, tail: &str)
    ensures
        final(s)@ == old(s)@ + tail@,
{
    s.push_str(tail)
}

/// Relies on `String::clear`: the string becomes empty.
#[verifier::external_body]
pub(crate) fn clear(s: &mut String)
    ensures
        final(s)@ == Seq::<char>::empty(),
{
    s.clear()
}

/// Relies on `String::split_off`: the string keeps the bytes before `at` and
/// the bytes from `at` on are returned. It panics unless `at` is a character
/// boundary, which `requires` rules out.
#[verifier::external_body]
pub(crate) fn split_off(s: &mut String, at: usize) -> (r: String)
    requires
        vstd::utf8::is_char_boundary(bytes_of(old(s)@), at as int),
    ensures
        bytes_of(final(s)@) == bytes_of(old(s)@).subrange(0, at as int),
        bytes_of(r@) == bytes_of(old(s)@).subrange(at as int, byte_len(old(s)@) as int),
{
    s.split_off(at)
}

/// Relies on `str`'s `==`: true exactly when the characters are the same.
#[verifier::external_body]
pub(crate) fn str_eq(a: &str, b: &str) -> (r: bool)
    ensures
        r == (a@ == b@),
{
    a == b
}

} // verus!

//! UTF-8 helpers for the line assembler and the formatters.
//!
//! vstd's `utf8` module supplies the mathematical model (`valid_utf8`,
//! `decode_utf8`, `encode_utf8`); this module adds the longest-valid-prefix
//! function that tolerant line decoding needs, the two trusted calls into
//! std's checked conversions, and lemmas about ASCII byte runs.

use vstd::prelude::*;
use vstd::utf8::{
    decode_utf8, is_leading_byte_width_1, length_of_first_scalar, pop_first_scalar,
    valid_first_scalar, valid_utf8,
};

verus! {

/// Length of the longest prefix of `s` that is a run of complete, valid
/// UTF-8 scalar encodings: scan scalars from the front and stop at the first
/// malformed or incomplete one.
pub open spec fn utf8_prefix_len(s: Seq<u8>) -> int
    decreases s.len(),
{
    if s.len() == 0 {
        0
    } else if valid_first_scalar(s) {
        length_of_first_scalar(s) + utf8_prefix_len(pop_first_scalar(s))
    } else {
        0
    }
}

/// The prefix scan never leaves the sequence.
pub proof fn lemma_utf8_prefix_len_bounds(s: Seq<u8>)
    ensures
        0 <= utf8_prefix_len(s) <= s.len(),
    decreases s.len(),
{
    if s.len() != 0 && valid_first_scalar(s) {
        lemma_utf8_prefix_len_bounds(pop_first_scalar(s));
    }
}

/// The whole sequence is valid UTF-8 exactly when the prefix scan reaches its end.
pub proof fn lemma_utf8_prefix_len_whole(s: Seq<u8>)
    ensures
        valid_utf8(s) <==> utf8_prefix_len(s) == s.len(),
    decreases s.len(),
{
    lemma_utf8_prefix_len_bounds(s);
    if s.len() != 0 && valid_first_scalar(s) {
        lemma_utf8_prefix_len_whole(pop_first_scalar(s));
        lemma_utf8_prefix_len_bounds(pop_first_scalar(s));
    }
}

/// The longest valid prefix is itself valid UTF-8.
pub proof fn lemma_utf8_prefix_valid(s: Seq<u8>)
    ensures
        valid_utf8(s.take(utf8_prefix_len(s))),
    decreases s.len(),
{
    lemma_utf8_prefix_len_bounds(s);
    if s.len() != 0 && valid_first_scalar(s) {
        let k = length_of_first_scalar(s);
        let rest = pop_first_scalar(s);
        lemma_utf8_prefix_len_bounds(rest);
        lemma_utf8_prefix_valid(rest);
        let p = utf8_prefix_len(s);
        let whole = s.take(p);
        assert(valid_first_scalar(whole)) by {
            assert(whole.len() >= k);
            assert(forall|i: int| 0 <= i < k ==> whole[i] == s[i]);
        }
        assert(length_of_first_scalar(whole) == k);
        assert(pop_first_scalar(whole) =~= rest.take(utf8_prefix_len(rest)));
    } else {
        assert(s.take(0) =~= Seq::<u8>::empty());
    }
}

/// A run of ASCII bytes is valid UTF-8 and decodes byte-for-byte.
pub proof fn lemma_ascii_bytes_decode(s: Seq<u8>)
    requires
        forall|i: int| 0 <= i < s.len() ==> s[i] < 0x80,
    ensures
        valid_utf8(s),
        decode_utf8(s) =~= s.map_values(|b: u8| b as char),
    decreases s.len(),
{
    if s.len() != 0 {
        assert(is_leading_byte_width_1(s[0]));
        assert(valid_first_scalar(s));
        let rest = pop_first_scalar(s);
        assert(rest =~= s.drop_first());
        lemma_ascii_bytes_decode(rest);
        let b = s[0];
        assert(vstd::utf8::codepoint_width_1(b) == b as u32) by (bit_vector)
            requires
                b < 0x80,
        ;
        assert((b as u32) as char == b as char);
        assert(decode_utf8(s) =~= seq![b as char] + decode_utf8(rest));
        assert(s.map_values(|x: u8| x as char) =~= seq![b as char] + rest.map_values(
            |x: u8| x as char,
        ));
    }
}

/// Relies on `String::from_utf8`: it succeeds exactly on valid UTF-8 input,
/// and the resulting string's characters are the decoding of the bytes.
#[verifier::external_body]
pub fn string_from_utf8(bytes: Vec<u8>) -> (r: Option<String>)
    ensures
        (r is Some) <==> valid_utf8(bytes@),
        (r is Some) ==> r->0@ == decode_utf8(bytes@),
{
    String::from_utf8(bytes).ok()
}

/// Relies on `str::from_utf8` and `Utf8Error::valid_up_to`: on failure,
/// `valid_up_to` is the length of the longest prefix that is valid UTF-8.
#[verifier::external_body]
pub fn utf8_valid_up_to(bytes: &[u8]) -> (r: usize)
    ensures
        r as int == utf8_prefix_len(bytes@),
{
    match std::str::from_utf8(bytes) {
        Ok(_) => bytes.len(),
        Err(e) => e.valid_up_to(),
    }
}

} // verus!

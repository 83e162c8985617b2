//! Percent-encoding of one URL path segment.
//!
//! A project path such as `team/service` or a file path such as `src/main.rs`
//! must reach GitLab as a single path segment, so every byte of its UTF-8
//! encoding that is not an ASCII letter or digit is written as `%XX`.

use vstd::prelude::*;
use vstd::string::StringSliceAdditionalSpecFns;
use vstd::utf8::{decode_utf8, encode_utf8, encode_utf8_decode_utf8};

verus! {

/// Whether `b` is an ASCII letter or digit.
pub open spec fn is_alnum_byte(b: u8) -> bool {
    (48 <= b && b <= 57) || (65 <= b && b <= 90) || (97 <= b && b <= 122)
}

/// The upper-case hexadecimal digit for `d`, which is below sixteen.
pub open spec fn hex_upper(d: nat) -> char {
    if d < 10 {
        ((48 + d) as u8) as char
    } else {
        ((55 + d) as u8) as char
    }
}

/// The value of an upper-case hexadecimal digit.
pub open spec fn hex_value(c: char) -> nat {
    if '0' <= c && c <= '9' {
        (c as nat - 48) as nat
    } else {
        (c as nat - 55) as nat
    }
}

/// How one byte is written: itself when it is an ASCII letter or digit,
/// `%` and two upper-case hexadecimal digits otherwise.
pub open spec fn encode_byte(b: u8) -> Seq<char> {
    if is_alnum_byte(b) {
        seq![b as char]
    } else {
        seq!['%', hex_upper((b / 16) as nat), hex_upper((b % 16) as nat)]
    }
}

/// The percent-encoding of `bytes` with every byte outside the ASCII letters
/// and digits encoded.
pub open spec fn percent_encoded(bytes: Seq<u8>) -> Seq<char>
    decreases bytes.len(),
{
    if bytes.len() == 0 {
        Seq::empty()
    } else {
        encode_byte(bytes[0]) + percent_encoded(bytes.drop_first())
    }
}

/// Reverses [`percent_encoded`]: `%` and two hexadecimal digits give one
/// byte, any other character gives its own code.
pub open spec fn percent_decoded(s: Seq<char>) -> Seq<u8>
    decreases s.len(),
{
    if s.len() == 0 {
        Seq::empty()
    } else if s[0] == '%' && s.len() >= 3 {
        seq![(hex_value(s[1]) * 16 + hex_value(s[2])) as u8] + percent_decoded(s.skip(3))
    } else {
        seq![s[0] as u8] + percent_decoded(s.drop_first())
    }
}

/// Characters that may appear in an encoded segment: ASCII letters, digits
/// and `%`.
pub open spec fn is_segment_char(c: char) -> bool {
    ('0' <= c && c <= '9') || ('A' <= c && c <= 'Z') || ('a' <= c && c <= 'z') || c == '%'
}

/// The segment that [`encode_segment`] gives for `value`.
pub open spec fn segment_of(value: Seq<char>) -> Seq<char> {
    percent_encoded(encode_utf8(value))
}

/// Percent-encodes the UTF-8 bytes of `value` with the set of every
/// character that is not an ASCII letter or digit.
///
/// Trusted: calls `percent_encoding::utf8_percent_encode` with
/// `NON_ALPHANUMERIC` and renders the result. The crate writes each byte that
/// is not ASCII, or that lies in the set, as `%` and two upper-case
/// hexadecimal digits, and every other byte as itself.
#[verifier::external_body]
fn utf8_percent_encode_non_alphanumeric(value: &str) -> (s: String)
    ensures
        s@ == percent_encoded(value.spec_bytes()),
{
    percent_encoding::utf8_percent_encode(value, percent_encoding::NON_ALPHANUMERIC).to_string()
}

/// Encodes `value` so that it forms exactly one path segment.
pub fn encode_segment(value: &str) -> (s: String)
    ensures
        s@ == segment_of(value@),
{
    utf8_percent_encode_non_alphanumeric(value)
}

proof fn lemma_encode_byte_chars(b: u8)
    ensures
        forall|i: int| 0 <= i < encode_byte(b).len() ==> is_segment_char(#[trigger] encode_byte(b)[i]),
{
    let d1 = (b / 16) as nat;
    let d2 = (b % 16) as nat;
    assert(d1 < 16 && d2 < 16);
}

/// Every character of an encoded byte string is an ASCII letter, a digit or
/// `%`.
pub proof fn lemma_percent_encoded_chars(bytes: Seq<u8>)
    ensures
        forall|i: int|
            0 <= i < percent_encoded(bytes).len() ==> is_segment_char(
                #[trigger] percent_encoded(bytes)[i],
            ),
    decreases bytes.len(),
{
    if bytes.len() > 0 {
        lemma_encode_byte_chars(bytes[0]);
        lemma_percent_encoded_chars(bytes.drop_first());
        let e = encode_byte(bytes[0]);
        let r = percent_encoded(bytes.drop_first());
        assert forall|i: int| 0 <= i < percent_encoded(bytes).len() implies is_segment_char(
            #[trigger] percent_encoded(bytes)[i],
        ) by {
            if i < e.len() {
                assert(percent_encoded(bytes)[i] == e[i]);
            } else {
                assert(percent_encoded(bytes)[i] == r[i - e.len()]);
            }
        }
    }
}

proof fn lemma_decode_byte(b: u8, rest: Seq<char>)
    ensures
        percent_decoded(encode_byte(b) + rest) == seq![b] + percent_decoded(rest),
{
    let s = encode_byte(b) + rest;
    if is_alnum_byte(b) {
        assert(s[0] == b as char);
        assert(s.drop_first() =~= rest);
    } else {
        let d1 = (b / 16) as nat;
        let d2 = (b % 16) as nat;
        assert(hex_value(hex_upper(d1)) == d1);
        assert(hex_value(hex_upper(d2)) == d2);
        assert(s[0] == '%');
        assert(s[1] == hex_upper(d1));
        assert(s[2] == hex_upper(d2));
        assert(s.skip(3) =~= rest);
        assert(d1 * 16 + d2 == b);
    }
}

/// Decoding an encoded byte string gives the bytes back.
pub proof fn lemma_percent_round_trip(bytes: Seq<u8>)
    ensures
        percent_decoded(percent_encoded(bytes)) == bytes,
    decreases bytes.len(),
{
    if bytes.len() > 0 {
        lemma_decode_byte(bytes[0], percent_encoded(bytes.drop_first()));
        lemma_percent_round_trip(bytes.drop_first());
        assert(seq![bytes[0]] + bytes.drop_first() =~= bytes);
    }
}

/// An encoded segment holds only ASCII letters, digits and `%`: in
/// particular no `/`, so a path with slashes stays one segment.
pub proof fn law_segment_is_one_segment(value: Seq<char>)
    ensures
        forall|i: int|
            0 <= i < segment_of(value).len() ==> is_segment_char(#[trigger] segment_of(value)[i]),
        !segment_of(value).contains('/'),
{
    lemma_percent_encoded_chars(encode_utf8(value));
    if segment_of(value).contains('/') {
        let i = choose|i: int| 0 <= i < segment_of(value).len() && segment_of(value)[i] == '/';
        assert(is_segment_char(segment_of(value)[i]));
    }
}

/// Decoding the percent-escapes of an encoded segment and then its UTF-8
/// gives back the value that was encoded.
pub proof fn law_segment_round_trip(value: Seq<char>)
    ensures
        decode_utf8(percent_decoded(segment_of(value))) == value,
{
    lemma_percent_round_trip(encode_utf8(value));
    encode_utf8_decode_utf8(value);
}

/// Distinct values never share a segment.
pub proof fn law_segment_injective(a: Seq<char>, b: Seq<char>)
    requires
        segment_of(a) == segment_of(b),
    ensures
        a == b,
{
    law_segment_round_trip(a);
    law_segment_round_trip(b);
}

} // verus!

//! Percent-coding of object keys and URLs, and byte-to-text decoding.
//!
//! The coding itself is done by an outside crate; its exact behaviour is
//! stated here as specification functions, and the calls are trusted
//! against those statements.

use vstd::prelude::*;

verus! {

/// True for an ASCII hexadecimal digit.
pub open spec fn is_hex_digit(b: u8) -> bool {
    ||| ('0' as u8) <= b <= ('9' as u8)
    ||| ('a' as u8) <= b <= ('f' as u8)
    ||| ('A' as u8) <= b <= ('F' as u8)
}

/// The value an ASCII hexadecimal digit denotes.
pub open spec fn hex_digit_value(b: u8) -> u8
    recommends
        is_hex_digit(b),
{
    if ('0' as u8) <= b <= ('9' as u8) {
        (b - ('0' as u8)) as u8
    } else if ('a' as u8) <= b <= ('f' as u8) {
        (b - ('a' as u8) + 10) as u8
    } else {
        (b - ('A' as u8) + 10) as u8
    }
}

/// Percent-decoding of a byte string: a `%` followed by two hexadecimal
/// digits (either case) becomes the denoted byte; everything else, a stray
/// `%` included, passes through unchanged.
pub open spec fn pct_decoded(s: Seq<u8>) -> Seq<u8>
    decreases s.len(),
{
    if s.len() == 0 {
        Seq::empty()
    } else if s[0] == ('%' as u8) && s.len() >= 3 && is_hex_digit(s[1]) && is_hex_digit(s[2]) {
        seq![(16 * hex_digit_value(s[1]) + hex_digit_value(s[2])) as u8] + pct_decoded(s.skip(3))
    } else {
        seq![s[0]] + pct_decoded(s.skip(1))
    }
}

/// True for an ASCII letter or digit.
pub open spec fn is_ascii_alphanumeric_byte(b: u8) -> bool {
    ||| ('0' as u8) <= b <= ('9' as u8)
    ||| ('A' as u8) <= b <= ('Z' as u8)
    ||| ('a' as u8) <= b <= ('z' as u8)
}

/// The upper-case hexadecimal digit of a value below sixteen.
pub open spec fn upper_hex_char(v: u8) -> char
    recommends
        v < 16,
{
    if v < 10 {
        ((v + ('0' as u8)) as char)
    } else {
        ((v - 10 + ('A' as u8)) as char)
    }
}

/// Percent-encoding of a byte string with the non-alphanumeric set: every
/// byte but an ASCII letter or digit becomes `%` and two upper-case
/// hexadecimal digits.
pub open spec fn pct_encoded_all(s: Seq<u8>) -> Seq<char>
    decreases s.len(),
{
    if s.len() == 0 {
        Seq::empty()
    } else if is_ascii_alphanumeric_byte(s[0]) {
        seq![s[0] as char] + pct_encoded_all(s.skip(1))
    } else {
        seq!['%', upper_hex_char(s[0] / 16), upper_hex_char(s[0] % 16)] + pct_encoded_all(
            s.skip(1),
        )
    }
}

/// The byte values of a sequence of characters; faithful for ASCII text,
/// such as anything the percent-encoder produces.
pub open spec fn ascii_codes(cs: Seq<char>) -> Seq<u8>
    decreases cs.len(),
{
    if cs.len() == 0 {
        Seq::empty()
    } else {
        seq![cs[0] as u8] + ascii_codes(cs.drop_first())
    }
}

proof fn lemma_ascii_codes_concat(a: Seq<char>, b: Seq<char>)
    ensures
        ascii_codes(a + b) == ascii_codes(a) + ascii_codes(b),
    decreases a.len(),
{
    if a.len() == 0 {
        assert(a + b =~= b);
        assert(ascii_codes(a) + ascii_codes(b) =~= ascii_codes(b));
    } else {
        assert((a + b).drop_first() =~= a.drop_first() + b);
        lemma_ascii_codes_concat(a.drop_first(), b);
        assert(seq![(a + b)[0] as u8] + (ascii_codes(a.drop_first()) + ascii_codes(b)) =~= (
        seq![a[0] as u8] + ascii_codes(a.drop_first())) + ascii_codes(b));
    }
}

/// Law: percent-decoding undoes percent-encoding — decoding the bytes of
/// an encoded string yields exactly the bytes that were encoded.
pub proof fn lemma_percent_round_trip(s: Seq<u8>)
    ensures
        pct_decoded(ascii_codes(pct_encoded_all(s))) == s,
    decreases s.len(),
{
    if s.len() == 0 {
        assert(pct_decoded(ascii_codes(pct_encoded_all(s))) =~= s);
    } else {
        lemma_percent_round_trip(s.drop_first());
        let rest_bytes = ascii_codes(pct_encoded_all(s.drop_first()));
        if is_ascii_alphanumeric_byte(s[0]) {
            let c = s[0] as char;
            lemma_ascii_codes_concat(seq![c], pct_encoded_all(s.drop_first()));
            reveal_with_fuel(ascii_codes, 2);
            assert(seq![c].drop_first() =~= Seq::<char>::empty());
            assert(ascii_codes(seq![c]) =~= seq![s[0]]);
            let bytes = ascii_codes(pct_encoded_all(s));
            assert(bytes =~= seq![s[0]] + rest_bytes);
            assert(bytes[0] != ('%' as u8));
            assert(bytes.drop_first() =~= rest_bytes);
            assert(pct_decoded(bytes) =~= seq![s[0]] + s.drop_first());
            assert(seq![s[0]] + s.drop_first() =~= s);
        } else {
            let h1 = upper_hex_char(s[0] / 16);
            let h2 = upper_hex_char(s[0] % 16);
            let trio = seq!['%', h1, h2];
            reveal_with_fuel(ascii_codes, 4);
            lemma_ascii_codes_concat(trio, pct_encoded_all(s.drop_first()));
            assert(trio.drop_first() =~= seq![h1, h2]);
            assert(seq![h1, h2].drop_first() =~= seq![h2]);
            assert(seq![h2].drop_first() =~= Seq::<char>::empty());
            assert(ascii_codes(trio) =~= seq!['%' as u8, h1 as u8, h2 as u8]);
            let bytes = ascii_codes(pct_encoded_all(s));
            assert(bytes =~= seq!['%' as u8, h1 as u8, h2 as u8] + rest_bytes);
            assert(is_hex_digit(h1 as u8) && hex_digit_value(h1 as u8) == s[0] / 16);
            assert(is_hex_digit(h2 as u8) && hex_digit_value(h2 as u8) == s[0] % 16);
            assert(16 * (s[0] / 16) + s[0] % 16 == s[0]);
            assert(bytes.skip(3) =~= rest_bytes);
            assert(pct_decoded(bytes) =~= seq![s[0]] + s.drop_first());
            assert(seq![s[0]] + s.drop_first() =~= s);
        }
    }
}

/// Relies on percent_encoding::percent_decode: each `%` followed by two
/// hexadecimal digits decodes to its byte, and every other byte passes
/// through unchanged.
#[verifier::external_body]
pub(crate) fn percent_decode(input: &[u8]) -> (r: Vec<u8>)
    ensures
        r@ == pct_decoded(input@),
{
    percent_encoding::percent_decode(input).collect()
}

/// Relies on percent_encoding::percent_encode with the NON_ALPHANUMERIC
/// set: every byte that is not an ASCII letter or digit is written as `%`
/// and two upper-case hexadecimal digits.
#[verifier::external_body]
pub(crate) fn percent_encode_non_alphanumeric(input: &[u8]) -> (r: String)
    ensures
        r@ == pct_encoded_all(input@),
{
    percent_encoding::percent_encode(input, percent_encoding::NON_ALPHANUMERIC).to_string()
}

/// Relies on String::from_utf8 of std: it succeeds exactly on valid UTF-8
/// and returns that encoding's text.
#[verifier::external_body]
pub(crate) fn string_from_utf8(bytes: Vec<u8>) -> (r: Result<String, ()>)
    ensures
        r is Ok <==> vstd::utf8::valid_utf8(bytes@),
        r matches Ok(s) ==> s@ == vstd::utf8::decode_utf8(bytes@),
{
    match String::from_utf8(bytes) {
        Ok(s) => Ok(s),
        Err(_) => Err(()),
    }
}

} // verus!

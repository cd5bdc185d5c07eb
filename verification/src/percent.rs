//! Percent-encoding of query-string values, as the Prowl API expects it:
//! every byte of the UTF-8 form is escaped except ASCII alphanumerics and
//! `-`, `.`, `_`, `~`. The encoding itself is performed by the `urlencoding`
//! crate; this module states exactly what that call returns and proves that
//! the encoding is lossless (decoding gives the original string back).

use vstd::prelude::*;
use vstd::utf8::decode_utf8;
use vstd::utf8::encode_scalar;
use vstd::utf8::encode_utf8;
use vstd::utf8::valid_utf8;

verus! {

/// True of the bytes that percent-encoding passes through unchanged:
/// ASCII alphanumerics and `-`, `.`, `_`, `~`.
pub open spec fn is_unreserved_byte(b: u8) -> bool {
    ||| '0' as u8 <= b <= '9' as u8
    ||| 'A' as u8 <= b <= 'Z' as u8
    ||| 'a' as u8 <= b <= 'z' as u8
    ||| b == '-' as u8
    ||| b == '.' as u8
    ||| b == '_' as u8
    ||| b == '~' as u8
}

/// The uppercase hexadecimal digit for a value below sixteen.
pub open spec fn hex_digit(v: u8) -> char
    recommends
        v < 16,
{
    if v < 10 {
        ('0' as u8 + v) as char
    } else {
        ('A' as u8 + (v - 10)) as char
    }
}

/// The percent-encoding of one byte: an unreserved byte stands for itself;
/// any other becomes `%` followed by two uppercase hexadecimal digits.
pub open spec fn encode_byte(b: u8) -> Seq<char> {
    if is_unreserved_byte(b) {
        seq![b as char]
    } else {
        seq!['%', hex_digit(b / 16), hex_digit(b % 16)]
    }
}

/// The percent-encoding of a byte sequence, byte by byte.
pub open spec fn encode_bytes(bytes: Seq<u8>) -> Seq<char>
    decreases bytes.len(),
{
    if bytes.len() == 0 {
        Seq::empty()
    } else {
        encode_byte(bytes[0]) + encode_bytes(bytes.drop_first())
    }
}

/// The percent-encoding of a string: the encoding of its UTF-8 bytes.
pub open spec fn percent_encoded(s: Seq<char>) -> Seq<char> {
    encode_bytes(encode_utf8(s))
}

/// The value of a hexadecimal digit; `None` for any other character.
pub open spec fn hex_value(c: char) -> Option<u8> {
    if '0' <= c <= '9' {
        Some((c as u8 - '0' as u8) as u8)
    } else if 'A' <= c <= 'F' {
        Some((c as u8 - 'A' as u8 + 10) as u8)
    } else if 'a' <= c <= 'f' {
        Some((c as u8 - 'a' as u8 + 10) as u8)
    } else {
        None
    }
}

/// Percent-decoding down to bytes. `%` must introduce two hexadecimal
/// digits; any other character passes through as its UTF-8 bytes.
/// `None` when the text is not a valid encoding.
pub open spec fn decode_to_bytes(s: Seq<char>) -> Option<Seq<u8>>
    decreases s.len(),
{
    if s.len() == 0 {
        Some(Seq::empty())
    } else if s[0] == '%' {
        if s.len() >= 3 && hex_value(s[1]) is Some && hex_value(s[2]) is Some {
            match decode_to_bytes(s.skip(3)) {
                Some(rest) => Some(
                    seq![(hex_value(s[1]).unwrap() * 16 + hex_value(s[2]).unwrap()) as u8] + rest,
                ),
                None => None,
            }
        } else {
            None
        }
    } else {
        match decode_to_bytes(s.drop_first()) {
            Some(rest) => Some(encode_scalar(s[0] as u32) + rest),
            None => None,
        }
    }
}

/// The percent-decoding of a query-string value: the decoded bytes, read
/// back as UTF-8. `None` when the text is not a valid encoding of a string.
pub open spec fn percent_decoded(s: Seq<char>) -> Option<Seq<char>> {
    match decode_to_bytes(s) {
        Some(bytes) => if valid_utf8(bytes) {
            Some(decode_utf8(bytes))
        } else {
            None
        },
        None => None,
    }
}

proof fn lemma_hex_digit_value(v: u8)
    requires
        v < 16,
    ensures
        hex_value(hex_digit(v)) == Some(v),
        hex_digit(v) != '%',
{
}

proof fn lemma_decode_encode_bytes(bytes: Seq<u8>)
    ensures
        decode_to_bytes(encode_bytes(bytes)) == Some(bytes),
    decreases bytes.len(),
{
    if bytes.len() == 0 {
    } else {
        let b = bytes[0];
        let rest = bytes.drop_first();
        lemma_decode_encode_bytes(rest);
        let enc = encode_bytes(bytes);
        let enc_rest = encode_bytes(rest);
        if is_unreserved_byte(b) {
            assert(enc =~= seq![b as char] + enc_rest);
            assert(b as char != '%');
            assert(enc.drop_first() =~= enc_rest);
            assert(b & 0x7F == b) by (bit_vector)
                requires
                    b < 0x80,
            ;
            assert(encode_scalar(b as u32) =~= seq![b]);
            assert(decode_to_bytes(enc) == Some(seq![b] + rest));
            assert(seq![b] + rest =~= bytes);
        } else {
            let h = b / 16;
            let l = b % 16;
            lemma_hex_digit_value(h);
            lemma_hex_digit_value(l);
            assert(enc =~= seq!['%', hex_digit(h), hex_digit(l)] + enc_rest);
            assert(enc.skip(3) =~= enc_rest);
            assert(h * 16 + l == b);
            assert(decode_to_bytes(enc) == Some(seq![b] + rest));
            assert(seq![b] + rest =~= bytes);
        }
    }
}

/// Percent-encoding loses nothing: decoding an encoded string yields back
/// exactly the original raw string, whatever characters it holds.
pub proof fn lemma_percent_round_trip(s: Seq<char>)
    ensures
        percent_decoded(percent_encoded(s)) == Some(s),
{
    lemma_decode_encode_bytes(encode_utf8(s));
    vstd::utf8::encode_utf8_valid_utf8(s);
    vstd::utf8::encode_utf8_decode_utf8(s);
}

/// Relies on `urlencoding::encode`: percent-encodes every byte of the UTF-8
/// form of `s` except ASCII alphanumerics and `-`, `.`, `_`, `~`, writing
/// escapes as `%` and two uppercase hexadecimal digits.
#[verifier::external_body]
pub(crate) fn percent_encode(s: &str) -> (r: String)
    ensures
        r@ == percent_encoded(s@),
{
    urlencoding::encode(s).into_owned()
}

} // verus!

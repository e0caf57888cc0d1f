//! Percent-encoding of text in urls, through the `urlencoding` crate.
use vstd::prelude::*;
use vstd::utf8::{decode_utf8, encode_utf8, valid_utf8};
use crate::text::digit_char;

verus! {

/// The bytes that `urlencoding` leaves as they are: ASCII letters and digits, `-`, `.`, `_`
/// and `~`.
pub open spec fn is_unreserved(b: u8) -> bool {
    ||| 48 <= b <= 57
    ||| 65 <= b <= 90
    ||| 97 <= b <= 122
    ||| b == 45
    ||| b == 46
    ||| b == 95
    ||| b == 126
}

/// The upper-case hexadecimal digit of `d < 16`.
pub open spec fn hex_digit(d: u8) -> char {
    if d < 10 {
        digit_char(d as nat)
    } else if d == 10 {
        'A'
    } else if d == 11 {
        'B'
    } else if d == 12 {
        'C'
    } else if d == 13 {
        'D'
    } else if d == 14 {
        'E'
    } else {
        'F'
    }
}

/// The characters standing for byte `b`: itself when unreserved, else `%` and two upper-case
/// hexadecimal digits.
pub open spec fn encode_byte(b: u8) -> Seq<char> {
    if is_unreserved(b) {
        seq![b as char]
    } else {
        seq!['%', hex_digit(b / 16), hex_digit(b % 16)]
    }
}

/// Each byte of `bs` encoded in turn.
pub open spec fn encode_bytes(bs: Seq<u8>) -> Seq<char>
    decreases bs.len(),
{
    if bs.len() == 0 {
        Seq::empty()
    } else {
        encode_bytes(bs.drop_last()) + encode_byte(bs.last())
    }
}

/// What `urlencoding::encode` gives for the text `s`: its UTF-8 bytes, percent-encoded.
pub open spec fn url_encoded(s: Seq<char>) -> Seq<char> {
    encode_bytes(encode_utf8(s))
}

/// The value of an ASCII hexadecimal digit (either case), if `b` is one.
pub open spec fn hex_value(b: u8) -> Option<u8> {
    if 48 <= b <= 57 {
        Some((b - 48) as u8)
    } else if 65 <= b <= 70 {
        Some((b - 55) as u8)
    } else if 97 <= b <= 102 {
        Some((b - 87) as u8)
    } else {
        None
    }
}

/// The bytes `urlencoding::decode_binary` gives: each `%` followed by two hexadecimal digits
/// becomes the byte they spell; every other byte, a lone `%` included, stays.
pub open spec fn decode_bytes(bs: Seq<u8>) -> Seq<u8>
    decreases bs.len(),
{
    if bs.len() == 0 {
        Seq::empty()
    } else if bs[0] == 37 && bs.len() >= 3 && hex_value(bs[1]) is Some && hex_value(bs[2]) is Some {
        seq![(hex_value(bs[1]).unwrap() * 16 + hex_value(bs[2]).unwrap()) as u8] + decode_bytes(
            bs.subrange(3, bs.len() as int),
        )
    } else {
        seq![bs[0]] + decode_bytes(bs.subrange(1, bs.len() as int))
    }
}

/// What `urlencoding::decode` gives for the text `s`: the decoded bytes read as UTF-8, or
/// nothing when they are not valid UTF-8.
pub open spec fn url_decoded(s: Seq<char>) -> Option<Seq<char>> {
    let bs = decode_bytes(encode_utf8(s));
    if valid_utf8(bs) {
        Some(decode_utf8(bs))
    } else {
        None
    }
}

/// Percent-encodes `s` (`urlencoding::encode`, made owned). The crate's documentation and
/// source: every UTF-8 byte other than ASCII letters, digits, `-`, `.`, `_`, `~` becomes
/// `%` and two upper-case hexadecimal digits.
#[verifier::external_body]
pub(crate) fn url_encode(s: &str) -> (r: String)
    ensures
        r@ == url_encoded(s@),
{
    urlencoding::encode(s).into_owned()
}

/// Decodes percent-escapes in `s` (`urlencoding::decode`, made owned): `None` when the
/// decoded bytes are not UTF-8 (the crate's `FromUtf8Error`).
#[verifier::external_body]
pub(crate) fn url_decode(s: &str) -> (r: Option<String>)
    ensures
        match url_decoded(s@) {
            Some(t) => r matches Some(x) && x@ == t,
            None => r is None,
        },
{
    match urlencoding::decode(s) {
        Ok(c) => Some(c.into_owned()),
        Err(_) => None,
    }
}

} // verus!

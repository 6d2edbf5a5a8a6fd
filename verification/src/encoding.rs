//! Byte and text encodings used by the OAuth flows: percent-encoding of URL
//! components, base64 (standard and URL-safe), SHA-256 and UTF-8.

use vstd::prelude::*;
use base64::Engine;
use sha2::Digest;
use vstd::string::StringSliceAdditionalSpecFns;

verus! {

/// Bytes that percent-encoding leaves as they are: ASCII letters, digits, `-._~`.
pub open spec fn url_unreserved(b: u8) -> bool {
    (48 <= b <= 57) || (65 <= b <= 90) || (97 <= b <= 122) || b == 45 || b == 46 || b == 95 || b == 126
}

/// An upper-case hexadecimal digit for `d < 16`.
pub open spec fn hex_upper(d: int) -> char {
    if d < 10 {
        (48 + d) as char
    } else {
        (55 + d) as char
    }
}

/// Percent-encoding of a byte string: unreserved bytes stay, every other
/// byte becomes `%` and two upper-case hex digits.
pub open spec fn percent_encode(bytes: Seq<u8>) -> Seq<char>
    decreases bytes.len(),
{
    if bytes.len() == 0 {
        Seq::empty()
    } else {
        let b = bytes[0];
        let head = if url_unreserved(b) {
            seq![b as char]
        } else {
            seq!['%', hex_upper(b as int / 16), hex_upper(b as int % 16)]
        };
        head + percent_encode(bytes.drop_first())
    }
}

/// `urlencoding::encode`: percent-encodes the UTF-8 bytes of `s`.
#[verifier::external_body]
pub(crate) fn url_encode(s: &str) -> (r: String)
    ensures
        r@ == percent_encode(s.spec_bytes()),
{
    urlencoding::encode(s).into_owned()
}

/// The base64 digit for a six-bit value; `url` selects the URL-safe alphabet.
pub open spec fn b64_digit(v: int, url: bool) -> char {
    if v < 26 {
        (65 + v) as char
    } else if v < 52 {
        (97 + v - 26) as char
    } else if v < 62 {
        (48 + v - 52) as char
    } else if v == 62 {
        if url { '-' } else { '+' }
    } else {
        if url { '_' } else { '/' }
    }
}

/// Base64 of a byte string (RFC 4648); `pad` appends `=` to a multiple of four.
pub open spec fn base64_spec(bytes: Seq<u8>, url: bool, pad: bool) -> Seq<char>
    decreases bytes.len(),
{
    if bytes.len() == 0 {
        Seq::empty()
    } else if bytes.len() == 1 {
        let b0 = bytes[0] as int;
        seq![b64_digit(b0 / 4, url), b64_digit((b0 % 4) * 16, url)] + (if pad { seq!['=', '='] } else { Seq::empty() })
    } else if bytes.len() == 2 {
        let b0 = bytes[0] as int;
        let b1 = bytes[1] as int;
        seq![
            b64_digit(b0 / 4, url),
            b64_digit((b0 % 4) * 16 + b1 / 16, url),
            b64_digit((b1 % 16) * 4, url),
        ] + (if pad { seq!['='] } else { Seq::empty() })
    } else {
        let b0 = bytes[0] as int;
        let b1 = bytes[1] as int;
        let b2 = bytes[2] as int;
        seq![
            b64_digit(b0 / 4, url),
            b64_digit((b0 % 4) * 16 + b1 / 16, url),
            b64_digit((b1 % 16) * 4 + b2 / 64, url),
            b64_digit(b2 % 64, url),
        ] + base64_spec(bytes.skip(3), url, pad)
    }
}

/// `URL_SAFE_NO_PAD.encode`: URL-safe base64 without padding.
#[verifier::external_body]
pub(crate) fn base64url_encode(data: &[u8]) -> (r: String)
    ensures
        r@ == base64_spec(data@, true, false),
{
    base64::engine::general_purpose::URL_SAFE_NO_PAD.encode(data)
}

/// Decoding: the byte string whose encoding is `s`, if there is one (the
/// encoding is one-to-one, so there is at most one).
pub open spec fn base64_decode_spec(s: Seq<char>, url: bool, pad: bool) -> Option<Seq<u8>> {
    if exists|b: Seq<u8>| base64_spec(b, url, pad) == s {
        Some(choose|b: Seq<u8>| base64_spec(b, url, pad) == s)
    } else {
        None
    }
}

pub open spec fn opt_bytes(r: Option<Vec<u8>>) -> Option<Seq<u8>> {
    match r {
        Some(b) => Some(b@),
        None => None,
    }
}

/// `STANDARD.decode`: standard base64 with canonical padding; it accepts
/// exactly the encodings of byte strings, and gives back those bytes.
#[verifier::external_body]
pub(crate) fn base64_std_decode(s: &str) -> (r: Option<Vec<u8>>)
    ensures
        opt_bytes(r) == base64_decode_spec(s@, false, true),
{
    base64::engine::general_purpose::STANDARD.decode(s).ok()
}

/// `URL_SAFE_NO_PAD.decode`: URL-safe base64 without padding, canonical.
#[verifier::external_body]
pub(crate) fn base64url_decode(s: &str) -> (r: Option<Vec<u8>>)
    ensures
        opt_bytes(r) == base64_decode_spec(s@, true, false),
{
    base64::engine::general_purpose::URL_SAFE_NO_PAD.decode(s).ok()
}

/// The SHA-256 digest of a byte string.
pub uninterp spec fn sha256_spec(data: Seq<u8>) -> Seq<u8>;

/// `Sha256::digest`: the 32-byte SHA-256 digest.
#[verifier::external_body]
pub(crate) fn sha256(data: &[u8]) -> (r: Vec<u8>)
    ensures
        r@ == sha256_spec(data@),
        r@.len() == 32,
{
    sha2::Sha256::digest(data).to_vec()
}

/// `String::from_utf8`: the text the bytes encode, when they are valid UTF-8.
#[verifier::external_body]
pub(crate) fn utf8_decode(bytes: Vec<u8>) -> (r: Option<String>)
    ensures
        r is Some <==> vstd::utf8::valid_utf8(bytes@),
        r matches Some(t) ==> t@ == vstd::utf8::decode_utf8(bytes@),
{
    String::from_utf8(bytes).ok()
}

/// The UTF-8 bytes of a string slice.
pub fn utf8_bytes(s: &str) -> (r: &[u8])
    ensures
        r@ == s.spec_bytes(),
{
    s.as_bytes()
}

} // verus!

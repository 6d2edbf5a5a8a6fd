//! PKCE (RFC 7636): code-verifier rules, challenge computation and the
//! random strings the flows mint.

use vstd::prelude::*;
use vstd::utf8::encode_utf8;
use crate::encoding::{base64_spec, base64url_encode, sha256, sha256_spec, utf8_bytes};
use crate::text::str_eq;
use rand::Rng;

verus! {

/// A character RFC 7636 allows in a code verifier: ASCII letter or digit, or `-._~`.
pub open spec fn verifier_char(c: char) -> bool {
    ('0' <= c <= '9') || ('A' <= c <= 'Z') || ('a' <= c <= 'z') || c == '-' || c == '.' || c == '_' || c == '~'
}

/// The challenge a verifier answers under `method`: for `S256` the URL-safe,
/// unpadded base64 of the SHA-256 of its UTF-8 bytes; for any other method
/// the verifier itself.
pub open spec fn challenge_for(method: Seq<char>, verifier: Seq<char>) -> Seq<char> {
    if method == "S256"@ {
        base64_spec(sha256_spec(encode_utf8(verifier)), true, false)
    } else {
        verifier
    }
}

/// Why a presented code verifier was refused.
#[derive(Debug, Clone, Copy, PartialEq, Eq, Structural)]
pub enum PkceError {
    /// No `code_verifier` was sent.
    MissingVerifier,
    /// Its UTF-8 length is outside 43..=128 bytes.
    BadLength,
    /// It holds a character outside the unreserved set.
    BadCharacters,
    /// It does not answer the stored challenge.
    Mismatch,
}

/// The verdict on a verifier for a stored challenge, in the order the checks run.
pub open spec fn pkce_verdict(challenge: Seq<char>, method: Option<Seq<char>>, verifier: Option<Seq<char>>) -> Result<(), PkceError> {
    match verifier {
        None => Err(PkceError::MissingVerifier),
        Some(v) => {
            let n = encode_utf8(v).len();
            if n < 43 || n > 128 {
                Err(PkceError::BadLength)
            } else if !(forall|i: int| 0 <= i < v.len() ==> verifier_char(#[trigger] v[i])) {
                Err(PkceError::BadCharacters)
            } else {
                let m = match method {
                    Some(m) => m,
                    None => "S256"@,
                };
                if challenge_for(m, v) == challenge {
                    Ok(())
                } else {
                    Err(PkceError::Mismatch)
                }
            }
        },
    }
}

fn is_verifier_char(c: char) -> (r: bool)
    ensures
        r == verifier_char(c),
{
    ('0' <= c && c <= '9') || ('A' <= c && c <= 'Z') || ('a' <= c && c <= 'z') || c == '-' || c == '.' || c == '_' || c == '~'
}

/// The `S256` challenge of a verifier.
pub fn generate_code_challenge(verifier: &str) -> (r: String)
    ensures
        r@ == base64_spec(sha256_spec(encode_utf8(verifier@)), true, false),
{
    let digest = sha256(utf8_bytes(verifier));
    base64url_encode(digest.as_slice())
}

/// Check a presented verifier against the challenge stored with the code.
pub fn verify_pkce(challenge: &str, method: Option<&str>, verifier: Option<&str>) -> (r: Result<(), PkceError>)
    ensures
        r == pkce_verdict(challenge@, match method { Some(m) => Some(m@), None => None }, match verifier { Some(v) => Some(v@), None => None }),
{
    let v = match verifier {
        None => return Err(PkceError::MissingVerifier),
        Some(v) => v,
    };
    let n = utf8_bytes(v).len();
    if n < 43 || n > 128 {
        return Err(PkceError::BadLength);
    }
    let len = v.unicode_len();
    let mut i: usize = 0;
    while i < len
        invariant
            len == v@.len(),
            i <= len,
            encode_utf8(v@).len() == n,
            43 <= n <= 128,
            verifier == Some(v),
            forall|j: int| 0 <= j < i ==> verifier_char(#[trigger] v@[j]),
        decreases len - i,
    {
        if !is_verifier_char(v.get_char(i)) {
            assert(!verifier_char(v@[i as int]));
            assert(!(forall|j: int| 0 <= j < v@.len() ==> verifier_char(#[trigger] v@[j])));
            return Err(PkceError::BadCharacters);
        }
        i = i + 1;
    }
    assert(encode_utf8(v@).len() == n);
    let m = match method {
        Some(m) => m,
        None => "S256",
    };
    let ghost mo = match method { Some(mm) => Some(mm@), None => None::<Seq<char>> };
    assert(m@ == match mo { Some(mm) => mm, None => "S256"@ });
    let computed = if str_eq(m, "S256") {
        generate_code_challenge(v)
    } else {
        String::from_str(v)
    };
    assert(computed@ == challenge_for(m@, v@));
    if str_eq(computed.as_str(), challenge) {
        Ok(())
    } else {
        Err(PkceError::Mismatch)
    }
}

/// The human-readable description of a PKCE refusal.
pub fn pkce_error_description(e: PkceError) -> (r: &'static str)
    ensures
        e == PkceError::MissingVerifier ==> r@ == "Missing code_verifier"@,
        e == PkceError::BadLength ==> r@ == "code_verifier must be 43-128 characters"@,
        e == PkceError::BadCharacters ==> r@ == "code_verifier contains invalid characters"@,
        e == PkceError::Mismatch ==> r@ == "Invalid code_verifier"@,
{
    match e {
        PkceError::MissingVerifier => "Missing code_verifier",
        PkceError::BadLength => "code_verifier must be 43-128 characters",
        PkceError::BadCharacters => "code_verifier contains invalid characters",
        PkceError::Mismatch => "Invalid code_verifier",
    }
}

/// `Rng::random_range` on the thread's generator: an index below `bound`
/// (the crate panics on an empty range, hence `bound > 0`).
#[verifier::external_body]
fn random_below(bound: usize) -> (r: usize)
    requires
        bound > 0,
    ensures
        r < bound,
{
    rand::rng().random_range(0..bound)
}

/// `RngCore::fill_bytes` on the thread's generator: `n` random bytes.
#[verifier::external_body]
fn random_bytes(n: usize) -> (r: Vec<u8>)
    ensures
        r@.len() == n,
{
    let mut bytes = vec![0u8; n];
    rand::RngCore::fill_bytes(&mut rand::rng(), &mut bytes);
    bytes
}

/// The ASCII letters and digits.
pub open spec fn alphanumeric(c: char) -> bool {
    ('0' <= c <= '9') || ('A' <= c <= 'Z') || ('a' <= c <= 'z')
}

/// The 62 characters random strings are drawn from, by index.
pub open spec fn alphanumeric_charset() -> Seq<char> {
    "ABCDEFGHIJKLMNOPQRSTUVWXYZabcdefghijklmnopqrstuvwxyz0123456789"@
}

/// The string whose `i`-th character is the charset's character at `ks[i]`.
pub open spec fn chars_at(ks: Seq<usize>) -> Seq<char> {
    Seq::new(ks.len(), |i: int| alphanumeric_charset()[ks[i] as int])
}

/// The string of the charset's characters at the given indices, in order.
pub fn alphanumeric_from_indices(ks: &Vec<usize>) -> (r: String)
    requires
        forall|i: int| 0 <= i < ks@.len() ==> ks@[i] < 62,
    ensures
        r@ == chars_at(ks@),
{
    let charset = "ABCDEFGHIJKLMNOPQRSTUVWXYZabcdefghijklmnopqrstuvwxyz0123456789";
    proof {
        reveal_strlit("ABCDEFGHIJKLMNOPQRSTUVWXYZabcdefghijklmnopqrstuvwxyz0123456789");
    }
    assert(charset.is_ascii());
    let mut out = String::new();
    let mut i: usize = 0;
    while i < ks.len()
        invariant
            charset@ == alphanumeric_charset(),
            charset@.len() == 62,
            charset.is_ascii(),
            forall|j: int| 0 <= j < ks@.len() ==> ks@[j] < 62,
            i <= ks@.len(),
            out@ == chars_at(ks@.take(i as int)),
        decreases ks@.len() - i,
    {
        let k = ks[i];
        let ghost before = out@;
        out.append(charset.substring_char(k, k + 1));
        assert(out@ =~= chars_at(ks@.take(i + 1)));
        i = i + 1;
    }
    assert(ks@.take(ks@.len() as int) =~= ks@);
    out
}

/// A random string of `len` ASCII letters and digits (authorization codes,
/// generated `state` values): `len` indices drawn uniformly below 62, each
/// turned into the charset's character.
pub fn generate_random_string(len: usize) -> (r: String)
    ensures
        r@.len() == len,
        forall|i: int| 0 <= i < len ==> alphanumeric(#[trigger] r@[i]),
        exists|ks: Seq<usize>| ks.len() == len && (forall|i: int| 0 <= i < len ==> ks[i] < 62) && r@ == chars_at(ks),
{
    let mut ks: Vec<usize> = Vec::new();
    let mut i: usize = 0;
    while i < len
        invariant
            i <= len,
            ks@.len() == i,
            forall|j: int| 0 <= j < i ==> ks@[j] < 62,
        decreases len - i,
    {
        ks.push(random_below(62));
        i = i + 1;
    }
    let r = alphanumeric_from_indices(&ks);
    proof {
        reveal_strlit("ABCDEFGHIJKLMNOPQRSTUVWXYZabcdefghijklmnopqrstuvwxyz0123456789");
        assert forall|i: int| 0 <= i < len implies alphanumeric(#[trigger] r@[i]) by {
            assert(r@[i] == alphanumeric_charset()[ks@[i] as int]);
            let k = ks@[i] as int;
            assert(0 <= k < 62);
            assert(forall|m: int| 0 <= m < 62 ==> alphanumeric(#[trigger] alphanumeric_charset()[m]));
        }
    }
    r
}

/// A random state / nonce / verifier for the federated login: `len` random
/// bytes, URL-safe base64 without padding.
pub fn generate_random_token(len: usize) -> (r: String)
    ensures
        exists|b: Seq<u8>| b.len() == len && r@ == base64_spec(b, true, false),
{
    let bytes = random_bytes(len);
    base64url_encode(bytes.as_slice())
}

/// A fresh PKCE code verifier for the federated login.
pub fn generate_code_verifier() -> (r: String)
    ensures
        exists|b: Seq<u8>| b.len() == 32 && r@ == base64_spec(b, true, false),
{
    generate_random_token(32)
}

} // verus!

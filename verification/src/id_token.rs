//! Checking the ID token an external provider returns: choosing the signing
//! key, the signature check, and the claims the login relies on.

use vstd::prelude::*;
use crate::encoding::{base64url_decode, opt_bytes};
use crate::federation::IdentityProvider;
use crate::text::opt_view;
use crate::redirect::first_occurrence;
use jsonwebtoken::Algorithm;
use crate::text::{copy_opt, lowercase_spec, owned, prefixed, split, split_spec, str_eq, string_views, to_lowercase};

verus! {

// ---------------------------------------------------------------- JSON claims

/// One claim of a JSON document as the login reads it.
#[derive(Debug, Clone, PartialEq, Eq)]
pub enum JsonClaim {
    /// The document is not a JSON object with this member.
    Absent,
    /// A string.
    Text(String),
    /// An array; each element's text when it is a string.
    List(Vec<Option<String>>),
    /// Any other JSON value.
    Other,
}

/// The mathematical value of a claim.
pub enum ClaimValue {
    Absent,
    Text(Seq<char>),
    List(Seq<Option<Seq<char>>>),
    Other,
}

impl JsonClaim {
    pub open spec fn value(self) -> ClaimValue {
        match self {
            JsonClaim::Absent => ClaimValue::Absent,
            JsonClaim::Text(s) => ClaimValue::Text(s@),
            JsonClaim::List(l) => ClaimValue::List(l@.map_values(|o: Option<String>| opt_view(o))),
            JsonClaim::Other => ClaimValue::Other,
        }
    }
}

/// The member `key` (or its member `sub`) of the JSON document `payload`, as
/// `serde_json` parses it.
pub uninterp spec fn json_claim_spec(payload: Seq<u8>, key: Seq<char>, sub: Option<Seq<char>>) -> ClaimValue;

/// Parses `payload` with `serde_json::from_slice` and reads one member (or
/// one member of a member) with `Value::get`, telling strings, arrays and
/// other values apart. The contract names the result: it depends on the
/// bytes and the keys alone.
#[verifier::external_body]
fn json_claim(payload: &[u8], key: &str, sub: Option<&str>) -> (r: JsonClaim)
    ensures
        r.value() == json_claim_spec(payload@, key@, match sub { Some(s) => Some(s@), None => None }),
{
    let root: serde_json::Value = match serde_json::from_slice(payload) {
        Ok(v) => v,
        Err(_) => return JsonClaim::Absent,
    };
    let found = match sub {
        None => root.get(key),
        Some(s) => root.get(key).and_then(|v| v.get(s)),
    };
    match found {
        None => JsonClaim::Absent,
        Some(serde_json::Value::String(s)) => JsonClaim::Text(s.clone()),
        Some(serde_json::Value::Array(a)) => JsonClaim::List(a.iter().map(|v| v.as_str().map(String::from)).collect()),
        Some(_) => JsonClaim::Other,
    }
}

/// The text of a string claim.
pub open spec fn claim_text(c: ClaimValue) -> Option<Seq<char>> {
    match c {
        ClaimValue::Text(s) => Some(s),
        _ => None,
    }
}

/// The strings of an array, in order.
pub open spec fn present(l: Seq<Option<Seq<char>>>) -> Seq<Seq<char>>
    decreases l.len(),
{
    if l.len() == 0 {
        Seq::empty()
    } else {
        let rest = present(l.drop_last());
        match l.last() {
            Some(s) => rest.push(s),
            None => rest,
        }
    }
}

/// The strings of an array claim.
pub open spec fn claim_strings(c: ClaimValue) -> Option<Seq<Seq<char>>> {
    match c {
        ClaimValue::List(l) => Some(present(l)),
        _ => None,
    }
}

fn text_of(c: JsonClaim) -> (r: Option<String>)
    ensures
        opt_view(r) == claim_text(c.value()),
{
    match c {
        JsonClaim::Text(s) => Some(s),
        _ => None,
    }
}

fn strings_of(c: JsonClaim) -> (r: Option<Vec<String>>)
    ensures
        match r {
            Some(v) => claim_strings(c.value()) == Some(string_views(v@)),
            None => claim_strings(c.value()) is None,
        },
{
    match c {
        JsonClaim::List(l) => {
            let ghost lv = l@.map_values(|o: Option<String>| opt_view(o));
            let mut out: Vec<String> = Vec::new();
            let mut i: usize = 0;
            while i < l.len()
                invariant
                    lv == l@.map_values(|o: Option<String>| opt_view(o)),
                    i <= l@.len(),
                    string_views(out@) == present(lv.take(i as int)),
                decreases l@.len() - i,
            {
                assert(lv.take(i + 1).drop_last() =~= lv.take(i as int));
                assert(lv.take(i + 1).last() == opt_view(l@[i as int]));
                let ghost before = string_views(out@);
                match &l[i] {
                    Some(s) => {
                        out.push(s.clone());
                        assert(string_views(out@) =~= before.push(s@));
                    },
                    None => {},
                }
                i = i + 1;
            }
            assert(lv.take(lv.len() as int) =~= lv);
            Some(out)
        },
        _ => None,
    }
}

/// One claim of a JSON document (or one member of a member).
pub fn read_claim(payload: &[u8], key: &str, sub: Option<&str>) -> (r: JsonClaim)
    ensures
        r.value() == json_claim_spec(payload@, key@, match sub { Some(s) => Some(s@), None => None }),
{
    json_claim(payload, key, sub)
}

fn top_claim(payload: &[u8], key: &str) -> (r: JsonClaim)
    ensures
        r.value() == json_claim_spec(payload@, key@, None),
{
    json_claim(payload, key, None)
}

// ---------------------------------------------------------------- issuers of multi-tenant providers

#[verifier::external_type_specification]
#[verifier::external_body]
pub struct ExRegex(regex::Regex);

/// Whether `pattern` is a regular expression the `regex` crate accepts.
pub uninterp spec fn regex_valid(pattern: Seq<char>) -> bool;

/// Whether the regular expression `pattern` matches somewhere in `text`.
pub uninterp spec fn regex_matches(pattern: Seq<char>, text: Seq<char>) -> bool;

/// A compiled regular expression together with its source.
pub struct IssuerPattern {
    source: String,
    compiled: regex::Regex,
}

impl IssuerPattern {
    pub closed spec fn source(self) -> Seq<char> {
        self.source@
    }
}

/// `regex::Regex::new`: compiles `pattern`; `None` when the crate rejects it.
#[verifier::external_body]
fn compile_pattern(pattern: &str) -> (r: Option<IssuerPattern>)
    ensures
        r is Some <==> regex_valid(pattern@),
        r matches Some(p) ==> p.source() == pattern@,
{
    regex::Regex::new(pattern).ok().map(|compiled| IssuerPattern { source: pattern.to_string(), compiled })
}

/// `regex::Regex::is_match` on a pattern compiled from `p.source()`.
#[verifier::external_body]
fn pattern_matches(p: &IssuerPattern, text: &str) -> (r: bool)
    ensures
        r == regex_matches(p.source(), text@),
{
    p.compiled.is_match(text)
}

/// An issuer is valid for a provider when it is the configured issuer, or,
/// for a multi-tenant provider, when it matches the provider's issuer pattern.
pub open spec fn issuer_valid(idp: IdentityProvider, issuer: Seq<char>) -> bool {
    if idp.oidc_issuer_url matches Some(u) && u@ == issuer {
        true
    } else if idp.oidc_multi_tenant && idp.oidc_issuer_pattern is Some {
        let p = idp.oidc_issuer_pattern->0@;
        regex_valid(p) && regex_matches(p, issuer)
    } else {
        false
    }
}

pub fn is_valid_issuer_for_idp(idp: &IdentityProvider, issuer: &str) -> (r: bool)
    ensures
        r == issuer_valid(*idp, issuer@),
{
    if let Some(u) = &idp.oidc_issuer_url {
        if str_eq(u.as_str(), issuer) {
            return true;
        }
    }
    if idp.oidc_multi_tenant {
        if let Some(pattern) = &idp.oidc_issuer_pattern {
            if let Some(compiled) = compile_pattern(pattern.as_str()) {
                return pattern_matches(&compiled, issuer);
            }
        }
    }
    false
}

// ---------------------------------------------------------------- claims of a verified token

/// The claims the login uses.
#[derive(Debug, Clone, PartialEq, Eq)]
pub struct IdTokenClaims {
    pub issuer: String,
    pub subject: String,
    /// Lower-cased.
    pub email: String,
    pub name: Option<String>,
    /// The tenant (`tid`), for Entra ID.
    pub tenant_id: Option<String>,
    /// From `roles`, else `groups`, else `realm_access.roles`.
    pub roles: Option<Vec<String>>,
    /// The JSON text of the payload without the protocol members `nonce`,
    /// `at_hash` and `c_hash`, for the login event's federated claims.
    pub raw_claims: Vec<u8>,
}

/// The claims as mathematical values: issuer, subject, email, name, tenant,
/// roles, and the JSON text of the federated claims.
pub type ClaimsView = (
    Seq<char>,
    Seq<char>,
    Seq<char>,
    Option<Seq<char>>,
    Option<Seq<char>>,
    Option<Seq<Seq<char>>>,
    Seq<u8>,
);

impl IdTokenClaims {
    pub open spec fn view_claims(self) -> ClaimsView {
        (self.issuer@, self.subject@, self.email@, opt_view(self.name), opt_view(self.tenant_id),
            match self.roles { Some(v) => Some(string_views(v@)), None => None }, self.raw_claims@)
    }
}

pub open spec fn top(payload: Seq<u8>, key: Seq<char>) -> ClaimValue {
    json_claim_spec(payload, key, None)
}

/// `email`, else `preferred_username`.
pub open spec fn email_claim(payload: Seq<u8>) -> Option<Seq<char>> {
    match claim_text(top(payload, "email"@)) {
        Some(e) => Some(e),
        None => claim_text(top(payload, "preferred_username"@)),
    }
}

/// `roles`, else `groups`, else `realm_access.roles`, when one is an array.
pub open spec fn roles_claim(payload: Seq<u8>) -> Option<Seq<Seq<char>>> {
    match claim_strings(top(payload, "roles"@)) {
        Some(r) => Some(r),
        None => match claim_strings(top(payload, "groups"@)) {
            Some(g) => Some(g),
            None => claim_strings(json_claim_spec(payload, "realm_access"@, Some("roles"@))),
        },
    }
}

/// The JSON text `payload` without its member `key`, as `serde_json` writes it.
pub uninterp spec fn json_without_member_spec(payload: Seq<u8>, key: Seq<char>) -> Seq<u8>;

/// Parses `payload` with `serde_json::from_slice`, removes the member `key`
/// when the document is an object (`Map::remove`), and writes the document
/// back with `serde_json::to_vec`; bytes that do not parse come back as they
/// are. The contract names the result, a function of the bytes and the key.
#[verifier::external_body]
fn json_without_member(payload: &[u8], key: &str) -> (r: Vec<u8>)
    ensures
        r@ == json_without_member_spec(payload@, key@),
{
    let mut doc: serde_json::Value = match serde_json::from_slice(payload) {
        Ok(v) => v,
        Err(_) => return payload.to_vec(),
    };
    if let serde_json::Value::Object(members) = &mut doc {
        members.remove(key);
    }
    serde_json::to_vec(&doc).unwrap_or_else(|_| payload.to_vec())
}

/// The payload as the login event carries it: without the protocol members
/// `nonce`, `at_hash` and `c_hash`.
pub open spec fn federated_claims(payload: Seq<u8>) -> Seq<u8> {
    json_without_member_spec(
        json_without_member_spec(json_without_member_spec(payload, "nonce"@), "at_hash"@),
        "c_hash"@,
    )
}

pub open spec fn guest_account_message() -> Seq<char> {
    "External guest accounts are not supported. Please sign in with your home organization."@
}

/// What the claims of a token whose signature checked out give: the claims,
/// or why the login is refused.
pub open spec fn id_token_claims_spec(payload: Seq<u8>, idp: IdentityProvider, nonce: Seq<char>) -> Result<ClaimsView, Seq<char>> {
    match claim_text(top(payload, "iss"@)) {
        None => Err("Missing issuer claim"@),
        Some(iss) => match claim_text(top(payload, "sub"@)) {
            None => Err("Missing subject claim"@),
            Some(sub) => if idp.oidc_multi_tenant && !issuer_valid(idp, iss) {
                Err("Invalid issuer for multi-tenant IDP: "@ + iss)
            } else if claim_text(top(payload, "nonce"@)) != Some(nonce) {
                Err("Nonce mismatch"@)
            } else {
                match email_claim(payload) {
                    None => Err("No email claim in ID token"@),
                    Some(raw) => {
                        let email = lowercase_spec(raw);
                        if first_occurrence(email, "#ext#"@) is Some {
                            Err(guest_account_message())
                        } else {
                            Ok((iss, sub, email, claim_text(top(payload, "name"@)), claim_text(top(payload, "tid"@)),
                                roles_claim(payload), federated_claims(payload)))
                        }
                    },
                }
            },
        },
    }
}

/// The claims of a token whose signature checked out, from its JSON payload.
pub fn id_token_claims(payload: &[u8], idp: &IdentityProvider, expected_nonce: &str) -> (r: Result<IdTokenClaims, String>)
    ensures
        match id_token_claims_spec(payload@, *idp, expected_nonce@) {
            Ok(v) => r matches Ok(c) && c.view_claims() == v,
            Err(m) => r matches Err(e) && e@ == m,
        },
{
    let issuer = match text_of(top_claim(payload, "iss")) {
        Some(s) => s,
        None => return Err(owned("Missing issuer claim")),
    };
    let subject = match text_of(top_claim(payload, "sub")) {
        Some(s) => s,
        None => return Err(owned("Missing subject claim")),
    };
    if idp.oidc_multi_tenant && !is_valid_issuer_for_idp(idp, issuer.as_str()) {
        let mut m = owned("Invalid issuer for multi-tenant IDP: ");
        m.append(issuer.as_str());
        return Err(m);
    }
    let nonce_ok = match text_of(top_claim(payload, "nonce")) {
        Some(n) => str_eq(n.as_str(), expected_nonce),
        None => false,
    };
    if !nonce_ok {
        return Err(owned("Nonce mismatch"));
    }
    let raw = match text_of(top_claim(payload, "email")) {
        Some(e) => e,
        None => match text_of(top_claim(payload, "preferred_username")) {
            Some(u) => u,
            None => return Err(owned("No email claim in ID token")),
        },
    };
    let email = to_lowercase(raw.as_str());
    if crate::federation::contains_text(email.as_str(), "#ext#") {
        return Err(owned("External guest accounts are not supported. Please sign in with your home organization."));
    }
    let name = text_of(top_claim(payload, "name"));
    let tenant_id = text_of(top_claim(payload, "tid"));
    let roles = match strings_of(top_claim(payload, "roles")) {
        Some(r) => Some(r),
        None => match strings_of(top_claim(payload, "groups")) {
            Some(g) => Some(g),
            None => strings_of(json_claim(payload, "realm_access", Some("roles"))),
        },
    };
    let without_nonce = json_without_member(payload, "nonce");
    let without_at_hash = json_without_member(without_nonce.as_slice(), "at_hash");
    let raw_claims = json_without_member(without_at_hash.as_slice(), "c_hash");
    Ok(IdTokenClaims { issuer, subject, email, name, tenant_id, roles, raw_claims })
}

// ---------------------------------------------------------------- the signature

/// A key of the provider's published key set (JWKS).
#[derive(Debug, Clone, PartialEq, Eq)]
pub struct Jwk {
    pub kid: Option<String>,
    pub kty: String,
    /// RSA modulus, URL-safe base64.
    pub n: Option<String>,
    /// RSA exponent, URL-safe base64.
    pub e: Option<String>,
}

/// The signing algorithm a token's header names.
#[derive(Debug, Clone, Copy, PartialEq, Eq, Structural)]
pub enum SigningAlgorithm {
    HS256,
    HS384,
    HS512,
    ES256,
    ES384,
    RS256,
    RS384,
    RS512,
    PS256,
    PS384,
    PS512,
    EdDSA,
}

/// The RSA algorithms a signature is checked with.
#[derive(Debug, Clone, Copy, PartialEq, Eq, Structural)]
pub enum RsaAlgorithm {
    RS256,
    RS384,
    RS512,
}

/// The key id and algorithm of a token's header, when `jsonwebtoken` can
/// decode the header.
pub uninterp spec fn jwt_header_spec(token: Seq<char>) -> Option<(Option<Seq<char>>, SigningAlgorithm)>;

/// `jsonwebtoken::decode_header`: the header's `kid` and `alg`, or the
/// crate's error text. The contract names the result, a function of the token.
#[verifier::external_body]
fn decode_jwt_header(token: &str) -> (r: Result<(Option<String>, SigningAlgorithm), String>)
    ensures
        match r {
            Ok((kid, alg)) => jwt_header_spec(token@) == Some((opt_view(kid), alg)),
            Err(_) => jwt_header_spec(token@) is None,
        },
{
    let h = jsonwebtoken::decode_header(token).map_err(|e| e.to_string())?;
    let alg = match h.alg {
        Algorithm::HS256 => SigningAlgorithm::HS256, Algorithm::HS384 => SigningAlgorithm::HS384,
        Algorithm::HS512 => SigningAlgorithm::HS512, Algorithm::ES256 => SigningAlgorithm::ES256,
        Algorithm::ES384 => SigningAlgorithm::ES384, Algorithm::RS256 => SigningAlgorithm::RS256,
        Algorithm::RS384 => SigningAlgorithm::RS384, Algorithm::RS512 => SigningAlgorithm::RS512,
        Algorithm::PS256 => SigningAlgorithm::PS256, Algorithm::PS384 => SigningAlgorithm::PS384,
        Algorithm::PS512 => SigningAlgorithm::PS512, Algorithm::EdDSA => SigningAlgorithm::EdDSA,
    };
    Ok((h.kid, alg))
}

/// The `Debug` text of an optional key id.
pub uninterp spec fn debug_text(kid: Option<Seq<char>>) -> Seq<char>;

/// `format!("{:?}", kid)`.
#[verifier::external_body]
fn debug_kid(kid: &Option<String>) -> (r: String)
    ensures
        r@ == debug_text(opt_view(*kid)),
{
    format!("{:?}", kid)
}

/// A key serves a token whose header names no key id, or names the key's.
pub open spec fn key_serves(key: Jwk, kid: Option<Seq<char>>) -> bool {
    kid is None || opt_view(key.kid) == kid
}

/// The first key of `keys` that serves a token with key id `kid`.
pub open spec fn selected_key(keys: Seq<Jwk>, kid: Option<Seq<char>>) -> Jwk {
    keys[choose|i: int| 0 <= i < keys.len() && key_serves(keys[i], kid)
        && forall|j: int| 0 <= j < i ==> !key_serves(#[trigger] keys[j], kid)]
}

/// The index of the first key that serves the token.
pub fn select_signing_key(keys: &Vec<Jwk>, kid: &Option<String>) -> (r: Option<usize>)
    ensures
        match r {
            Some(i) => i < keys@.len() && key_serves(keys@[i as int], opt_view(*kid))
                && forall|j: int| 0 <= j < i ==> !key_serves(#[trigger] keys@[j], opt_view(*kid)),
            None => forall|j: int| 0 <= j < keys@.len() ==> !key_serves(#[trigger] keys@[j], opt_view(*kid)),
        },
{
    let mut i: usize = 0;
    while i < keys.len()
        invariant
            i <= keys@.len(),
            forall|j: int| 0 <= j < i ==> !key_serves(#[trigger] keys@[j], opt_view(*kid)),
        decreases keys@.len() - i,
    {
        let serves = match kid {
            None => true,
            Some(k) => match &keys[i].kid {
                Some(kk) => str_eq(kk.as_str(), k.as_str()),
                None => false,
            },
        };
        if serves {
            return Some(i);
        }
        i = i + 1;
    }
    None
}

/// The algorithm a token is checked with: its header's among RS256, RS384
/// and RS512, else RS256.
pub open spec fn rsa_algorithm_spec(alg: SigningAlgorithm) -> RsaAlgorithm {
    match alg {
        SigningAlgorithm::RS384 => RsaAlgorithm::RS384,
        SigningAlgorithm::RS512 => RsaAlgorithm::RS512,
        _ => RsaAlgorithm::RS256,
    }
}

/// Whether a header's algorithm is the RSA algorithm `alg`.
pub open spec fn same_algorithm(header: SigningAlgorithm, alg: RsaAlgorithm) -> bool {
    match alg {
        RsaAlgorithm::RS256 => header == SigningAlgorithm::RS256,
        RsaAlgorithm::RS384 => header == SigningAlgorithm::RS384,
        RsaAlgorithm::RS512 => header == SigningAlgorithm::RS512,
    }
}

pub fn signing_algorithm(alg: SigningAlgorithm) -> (r: RsaAlgorithm)
    ensures
        r == rsa_algorithm_spec(alg),
{
    match alg {
        SigningAlgorithm::RS384 => RsaAlgorithm::RS384,
        SigningAlgorithm::RS512 => RsaAlgorithm::RS512,
        _ => RsaAlgorithm::RS256,
    }
}

/// What the signature verification checks besides the signature: the
/// algorithm, the issuer and audience it requires (when set), and whether
/// it checks the audience at all.
#[derive(Debug, Clone, PartialEq, Eq)]
pub struct JwtCheck {
    pub alg: RsaAlgorithm,
    pub issuer: Option<String>,
    pub audience: Option<String>,
    pub validate_audience: bool,
}

/// The checks for a token from `idp` whose header names `header_alg`: the
/// header's algorithm among RS256, RS384 and RS512 (else RS256); for a
/// single-tenant provider its issuer and client id as the required issuer
/// and audience; for a multi-tenant provider, whose issuer varies by tenant,
/// neither, and no audience check.
pub fn jwt_check(idp: &IdentityProvider, header_alg: SigningAlgorithm) -> (r: JwtCheck)
    ensures
        r.alg == rsa_algorithm_spec(header_alg),
        idp.oidc_multi_tenant ==> r.issuer is None && r.audience is None && !r.validate_audience,
        !idp.oidc_multi_tenant ==> opt_view(r.issuer) == opt_view(idp.oidc_issuer_url)
            && opt_view(r.audience) == opt_view(idp.oidc_client_id) && r.validate_audience,
{
    let alg = signing_algorithm(header_alg);
    if idp.oidc_multi_tenant {
        JwtCheck { alg, issuer: None, audience: None, validate_audience: false }
    } else {
        JwtCheck {
            alg,
            issuer: copy_opt(&idp.oidc_issuer_url),
            audience: copy_opt(&idp.oidc_client_id),
            validate_audience: true,
        }
    }
}

/// Whether a claim admits the expected value the way `jsonwebtoken` checks
/// `iss` and `aud`: a string must equal it, an array of strings must hold
/// it; an absent claim or one of another shape is not checked.
pub open spec fn claim_admits(c: ClaimValue, expected: Seq<char>) -> bool {
    match c {
        ClaimValue::Text(s) => s == expected,
        ClaimValue::List(l) => (forall|k: int| 0 <= k < l.len() ==> (#[trigger] l[k]) is Some) ==> l.contains(
            Some(expected),
        ),
        _ => true,
    }
}

#[verifier::external_type_specification]
#[verifier::external_body]
pub struct ExDecodingKey(jsonwebtoken::DecodingKey);

#[verifier::external_type_specification]
#[verifier::external_body]
pub struct ExValidation(jsonwebtoken::Validation);

/// An RSA public key built from its two components.
pub struct RsaPublicKey {
    modulus: String,
    exponent: String,
    key: jsonwebtoken::DecodingKey,
}

impl RsaPublicKey {
    pub closed spec fn modulus(self) -> Seq<char> {
        self.modulus@
    }

    pub closed spec fn exponent(self) -> Seq<char> {
        self.exponent@
    }
}

/// `DecodingKey::from_rsa_components`: succeeds exactly when both components
/// are URL-safe base64 without padding (the crate decodes them and nothing
/// more), keeping which is the modulus and which the exponent; the crate's
/// error text otherwise.
#[verifier::external_body]
fn rsa_decoding_key(n: &str, e: &str) -> (r: Result<RsaPublicKey, String>)
    ensures
        r is Ok <==> (crate::encoding::base64_decode_spec(n@, true, false) is Some
            && crate::encoding::base64_decode_spec(e@, true, false) is Some),
        r matches Ok(k) ==> k.modulus() == n@ && k.exponent() == e@,
{
    jsonwebtoken::DecodingKey::from_rsa_components(n, e)
        .map(|key| RsaPublicKey { modulus: n.to_string(), exponent: e.to_string(), key })
        .map_err(|err| err.to_string())
}

/// A `jsonwebtoken::Validation` built from a `JwtCheck`.
pub struct JwtValidation {
    check: JwtCheck,
    inner: jsonwebtoken::Validation,
}

impl JwtValidation {
    pub closed spec fn check(self) -> JwtCheck {
        self.check
    }
}

/// `Validation::new` for the check's algorithm, with its `iss`, `aud` and
/// `validate_aud` fields set from the check (a required value becomes a set
/// of one, as `set_issuer` and `set_audience` make it).
#[verifier::external_body]
fn jwt_validation(check: &JwtCheck) -> (r: JwtValidation)
    ensures
        r.check() == *check,
{
    let mut inner = jsonwebtoken::Validation::new(match check.alg {
        RsaAlgorithm::RS256 => Algorithm::RS256,
        RsaAlgorithm::RS384 => Algorithm::RS384,
        RsaAlgorithm::RS512 => Algorithm::RS512,
    });
    inner.iss = check.issuer.clone().map(|i| std::collections::HashSet::from([i]));
    inner.aud = check.audience.clone().map(|a| std::collections::HashSet::from([a]));
    inner.validate_aud = check.validate_audience;
    JwtValidation { check: check.clone(), inner }
}

/// The JSON text, as `serde_json::to_vec` writes it, of the claims that
/// `jsonwebtoken` decodes from the payload part of `token`.
pub uninterp spec fn jwt_claims_spec(token: Seq<char>) -> Seq<u8>;

/// Whether the signature of `token` verifies under the RSA key with
/// components `n` and `e` (URL-safe base64) and the algorithm `alg`.
pub uninterp spec fn jwt_signature_valid(token: Seq<char>, n: Seq<char>, e: Seq<char>, alg: RsaAlgorithm) -> bool;

/// `jsonwebtoken::decode` into a JSON value, handed back as the JSON text of
/// the claims (`serde_json::to_vec`), or the crate's error text. What holds
/// of a success, as the crate's `verify_signature` and `validate` show it:
/// the header names the check's algorithm, the signature verifies under the
/// key, and the `iss` and `aud` claims admit the required values. Not
/// stated: the expiry check, which reads the clock, so no success is
/// promised.
#[verifier::external_body]
fn decode_verified_claims(token: &str, key: &RsaPublicKey, v: &JwtValidation) -> (r: Result<Vec<u8>, String>)
    ensures
        r matches Ok(p) ==> {
            &&& p@ == jwt_claims_spec(token@)
            &&& jwt_header_spec(token@) matches Some((_, a)) && same_algorithm(a, v.check().alg)
            &&& jwt_signature_valid(token@, key.modulus(), key.exponent(), v.check().alg)
            &&& v.check().issuer matches Some(i) ==> claim_admits(json_claim_spec(p@, "iss"@, None), i@)
            &&& v.check().validate_audience && v.check().audience is Some ==> claim_admits(
                json_claim_spec(p@, "aud"@, None),
                v.check().audience->0@,
            )
        },
{
    let data = jsonwebtoken::decode::<serde_json::Value>(token, &key.key, &v.inner).map_err(|e| e.to_string())?;
    serde_json::to_vec(&data.claims).map_err(|e| e.to_string())
}

/// The refusal, if any, before the signature check, with whether the
/// message is the whole error (else its beginning): the provider must name
/// its issuer and client, the header must decode, a key must serve the
/// token, and that key must be an RSA key with both components decodable.
pub open spec fn key_verdict(token: Seq<char>, idp: IdentityProvider, keys: Seq<Jwk>) -> Option<(Seq<char>, bool)> {
    if idp.oidc_issuer_url is None {
        Some(("Missing issuer URL on IDP"@, true))
    } else if idp.oidc_client_id is None {
        Some(("Missing client ID on IDP"@, true))
    } else {
        match jwt_header_spec(token) {
            None => Some(("Invalid ID token header: "@, false)),
            Some((kid, _alg)) => {
                if forall|j: int| 0 <= j < keys.len() ==> !key_serves(#[trigger] keys[j], kid) {
                    Some(("No matching key found in JWKS for kid: "@ + debug_text(kid), true))
                } else {
                    let k = selected_key(keys, kid);
                    if k.kty@ != "RSA"@ {
                        Some(("Unsupported JWK key type: "@ + k.kty@, true))
                    } else if k.n is None {
                        Some(("Missing 'n' in RSA JWK"@, true))
                    } else if k.e is None {
                        Some(("Missing 'e' in RSA JWK"@, true))
                    } else if !(crate::encoding::base64_decode_spec(k.n->0@, true, false) is Some
                        && crate::encoding::base64_decode_spec(k.e->0@, true, false) is Some) {
                        Some(("Invalid RSA key components: "@, false))
                    } else {
                        None
                    }
                }
            },
        }
    }
}

/// A token that passed the signature check: its header names one of the RSA
/// algorithms, its signature verifies under the selected key, and, for a
/// single-tenant provider, its `iss` and `aud` claims admit the provider's
/// issuer and client id.
pub open spec fn token_verified(token: Seq<char>, idp: IdentityProvider, keys: Seq<Jwk>) -> bool {
    match jwt_header_spec(token) {
        None => false,
        Some((kid, alg)) => {
            let k = selected_key(keys, kid);
            let claims = jwt_claims_spec(token);
            &&& same_algorithm(alg, rsa_algorithm_spec(alg))
            &&& jwt_signature_valid(token, k.n->0@, k.e->0@, rsa_algorithm_spec(alg))
            &&& !idp.oidc_multi_tenant ==> claim_admits(json_claim_spec(claims, "iss"@, None), idp.oidc_issuer_url->0@)
            &&& !idp.oidc_multi_tenant ==> claim_admits(json_claim_spec(claims, "aud"@, None), idp.oidc_client_id->0@)
        },
    }
}

/// The error is `m` itself (`exact`) or begins with it.
pub open spec fn refused_with(r: Result<IdTokenClaims, String>, m: Seq<char>, exact: bool) -> bool {
    r matches Err(e) && (if exact { e@ == m } else { m.is_prefix_of(e@) })
}

/// Check an ID token against the provider's key set and read its claims.
/// Before the signature check the refusals are those of `key_verdict`. A
/// token that passes it is accepted only when it is verified
/// (`token_verified`), and then yields the claims `id_token_claims` reads
/// from its decoded payload; otherwise the error is the signature check's,
/// or the refusal of those claims.
pub fn validate_id_token(id_token: &str, idp: &IdentityProvider, expected_nonce: &str, keys: &Vec<Jwk>) -> (r: Result<IdTokenClaims, String>)
    ensures
        match key_verdict(id_token@, *idp, keys@) {
            Some((m, exact)) => refused_with(r, m, exact),
            None => match r {
                Ok(c) => token_verified(id_token@, *idp, keys@) && id_token_claims_spec(
                    jwt_claims_spec(id_token@),
                    *idp,
                    expected_nonce@,
                ) == Ok::<ClaimsView, Seq<char>>(c.view_claims()),
                Err(e) => "JWT signature validation failed: "@.is_prefix_of(e@) || id_token_claims_spec(
                    jwt_claims_spec(id_token@),
                    *idp,
                    expected_nonce@,
                ) == Err::<ClaimsView, Seq<char>>(e@),
            },
        },
{
    if idp.oidc_issuer_url.is_none() {
        return Err(owned("Missing issuer URL on IDP"));
    }
    if idp.oidc_client_id.is_none() {
        return Err(owned("Missing client ID on IDP"));
    }
    let (kid, alg) = match decode_jwt_header(id_token) {
        Ok(h) => h,
        Err(e) => return Err(prefixed("Invalid ID token header: ", e.as_str())),
    };
    let i = match select_signing_key(keys, &kid) {
        Some(i) => i,
        None => {
            let d = debug_kid(&kid);
            return Err(prefixed("No matching key found in JWKS for kid: ", d.as_str()));
        },
    };
    proof {
        let kv = opt_view(kid);
        let c = choose|c: int| 0 <= c < keys@.len() && key_serves(keys@[c], kv)
            && forall|j: int| 0 <= j < c ==> !key_serves(#[trigger] keys@[j], kv);
        assert(c == i) by {
            if c < i {
                assert(!key_serves(keys@[c], kv));
            } else if c > i {
                assert(!key_serves(keys@[i as int], kv));
            }
        }
        assert(selected_key(keys@, kv) == keys@[i as int]);
    }
    let key = &keys[i];
    if !str_eq(key.kty.as_str(), "RSA") {
        return Err(prefixed("Unsupported JWK key type: ", key.kty.as_str()));
    }
    let n = match &key.n {
        Some(n) => n,
        None => return Err(owned("Missing 'n' in RSA JWK")),
    };
    let e = match &key.e {
        Some(e) => e,
        None => return Err(owned("Missing 'e' in RSA JWK")),
    };
    let public_key = match rsa_decoding_key(n.as_str(), e.as_str()) {
        Ok(k) => k,
        Err(m) => return Err(prefixed("Invalid RSA key components: ", m.as_str())),
    };
    let check = jwt_check(idp, alg);
    let validation = jwt_validation(&check);
    let payload = match decode_verified_claims(id_token, &public_key, &validation) {
        Ok(p) => p,
        Err(m) => return Err(prefixed("JWT signature validation failed: ", m.as_str())),
    };
    id_token_claims(payload.as_slice(), idp, expected_nonce)
}

// ---------------------------------------------------------------- logout hints

/// The audience of an `id_token_hint`, read without checking its signature:
/// its `aud` claim, or the first entry when that is an array of strings.
pub open spec fn hint_audience(token: Seq<char>) -> Option<Seq<char>> {
    let parts = split_spec(token, '.');
    if parts.len() < 2 {
        None
    } else {
        match crate::encoding::base64_decode_spec(parts[1], true, false) {
            None => None,
            Some(bytes) => match json_claim_spec(bytes, "aud"@, None) {
                ClaimValue::Text(s) => Some(s),
                ClaimValue::List(l) => if l.len() > 0 { l[0] } else { None },
                _ => None,
            },
        }
    }
}

pub fn extract_aud_from_id_token_hint(token: &str) -> (r: Option<String>)
    ensures
        opt_view(r) == hint_audience(token@),
{
    let parts = split(token, '.');
    let ghost pv = parts@.map_values(|x: String| x@);
    assert(pv.len() == parts@.len());
    if parts.len() < 2 {
        return None;
    }
    assert(pv[1] == parts@[1]@);
    let bytes = match base64url_decode(parts[1].as_str()) {
        Some(b) => b,
        None => return None,
    };
    assert(opt_bytes(Some(bytes)) == Some(bytes@));
    match top_claim(bytes.as_slice(), "aud") {
        JsonClaim::Text(s) => Some(s),
        JsonClaim::List(l) => {
            if l.len() > 0 {
                copy_opt(&l[0])
            } else {
                None
            }
        },
        _ => None,
    }
}

} // verus!

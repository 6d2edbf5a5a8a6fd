use fc_platform::pkce::{generate_code_challenge, pkce_error_description, verify_pkce, PkceError};

const VERIFIER: &str = "dBjftJeZ4CVP-mJ92K27uhbUJU1p1r_wW1gFWFOEjXk";
const CHALLENGE: &str = "ngF5GsXcbwljx6u133FFr3Xht9xooA_DuaX_3QwODtc";

#[test]
fn s256_challenge_is_base64url_of_sha256() {
    assert_eq!(generate_code_challenge(VERIFIER), CHALLENGE);
}

#[test]
fn verifier_checks() {
    assert_eq!(verify_pkce(CHALLENGE, Some("S256"), Some(VERIFIER)), Ok(()));
    assert_eq!(verify_pkce(CHALLENGE, None, Some(VERIFIER)), Ok(()));
    assert_eq!(verify_pkce(VERIFIER, Some("plain"), Some(VERIFIER)), Ok(()));
    assert_eq!(verify_pkce(CHALLENGE, Some("S256"), None), Err(PkceError::MissingVerifier));
    assert_eq!(verify_pkce(CHALLENGE, Some("S256"), Some("short")), Err(PkceError::BadLength));
    let bad = "a".repeat(42) + "!";
    assert_eq!(verify_pkce(CHALLENGE, Some("S256"), Some(&bad)), Err(PkceError::BadCharacters));
    let other = "b".repeat(43);
    assert_eq!(verify_pkce(CHALLENGE, Some("S256"), Some(&other)), Err(PkceError::Mismatch));
    assert_eq!(verify_pkce(CHALLENGE, Some("S256"), Some(&"c".repeat(129))), Err(PkceError::BadLength));
}

#[test]
fn pkce_round_trip_on_fresh_verifier() {
    let v = fc_platform::pkce::generate_code_verifier();
    let c = generate_code_challenge(&v);
    assert_eq!(verify_pkce(&c, Some("S256"), Some(&v)), Ok(()));
}

#[test]
fn error_descriptions() {
    assert_eq!(pkce_error_description(PkceError::MissingVerifier), "Missing code_verifier");
    assert_eq!(pkce_error_description(PkceError::BadLength), "code_verifier must be 43-128 characters");
    assert_eq!(pkce_error_description(PkceError::Mismatch), "Invalid code_verifier");
}

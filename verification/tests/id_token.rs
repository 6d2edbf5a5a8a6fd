use fc_platform::federation::{IdentityProvider, IdentityProviderType};
use fc_platform::id_token::{
    extract_aud_from_id_token_hint, id_token_claims, is_valid_issuer_for_idp, jwt_check, select_signing_key,
    signing_algorithm, validate_id_token, Jwk, RsaAlgorithm, SigningAlgorithm,
};

fn s(x: &str) -> String {
    x.to_string()
}

fn idp() -> IdentityProvider {
    IdentityProvider {
        id: s("idp_1"),
        code: s("kc"),
        name: s("Keycloak"),
        provider_type: IdentityProviderType::Oidc,
        oidc_issuer_url: Some(s("https://kc.example.com/realms/acme")),
        oidc_client_id: Some(s("platform")),
        oidc_client_secret_ref: None,
        oidc_multi_tenant: false,
        oidc_issuer_pattern: None,
        allowed_email_domains: vec![],
    }
}

fn claims_of(json: &str, nonce: &str) -> Result<fc_platform::id_token::IdTokenClaims, String> {
    id_token_claims(json.as_bytes(), &idp(), nonce)
}

#[test]
fn claims_are_read_from_the_payload() {
    let c = claims_of(
        r#"{"iss":"https://kc.example.com/realms/acme","sub":"u1","nonce":"n1","email":"Bob@Acme.COM",
            "name":"Bob","tid":"t1","roles":["a:admin", 3, "b:viewer"]}"#,
        "n1",
    )
    .unwrap();
    assert_eq!(c.issuer, "https://kc.example.com/realms/acme");
    assert_eq!(c.subject, "u1");
    assert_eq!(c.email, "bob@acme.com");
    assert_eq!(c.name.unwrap(), "Bob");
    assert_eq!(c.tenant_id.unwrap(), "t1");
    assert_eq!(c.roles.unwrap(), vec![s("a:admin"), s("b:viewer")]);
}

#[test]
fn roles_fall_back_to_groups_then_realm_roles() {
    let c = claims_of(r#"{"iss":"i","sub":"u","nonce":"n","preferred_username":"x@y.z","groups":["g"]}"#, "n").unwrap();
    assert_eq!(c.email, "x@y.z");
    assert_eq!(c.roles.unwrap(), vec![s("g")]);
    let c = claims_of(r#"{"iss":"i","sub":"u","nonce":"n","email":"x@y.z","realm_access":{"roles":["r1"]}}"#, "n")
        .unwrap();
    assert_eq!(c.roles.unwrap(), vec![s("r1")]);
    let c = claims_of(r#"{"iss":"i","sub":"u","nonce":"n","email":"x@y.z"}"#, "n").unwrap();
    assert_eq!(c.roles, None);
    assert_eq!(c.name, None);
}

#[test]
fn claims_refusals() {
    assert_eq!(claims_of(r#"{"sub":"u"}"#, "n").unwrap_err(), "Missing issuer claim");
    assert_eq!(claims_of(r#"{"iss":"i"}"#, "n").unwrap_err(), "Missing subject claim");
    assert_eq!(claims_of(r#"{"iss":"i","sub":"u","nonce":"other"}"#, "n").unwrap_err(), "Nonce mismatch");
    assert_eq!(claims_of(r#"{"iss":"i","sub":"u"}"#, "n").unwrap_err(), "Nonce mismatch");
    assert_eq!(claims_of(r#"{"iss":"i","sub":"u","nonce":"n"}"#, "n").unwrap_err(), "No email claim in ID token");
    assert_eq!(
        claims_of(r#"{"iss":"i","sub":"u","nonce":"n","email":"bob_acme.com#EXT#@tenant.onmicrosoft.com"}"#, "n")
            .unwrap_err(),
        "External guest accounts are not supported. Please sign in with your home organization."
    );
    assert_eq!(claims_of("not json", "n").unwrap_err(), "Missing issuer claim");
}

#[test]
fn multi_tenant_issuers() {
    let mut p = idp();
    p.oidc_multi_tenant = true;
    p.oidc_issuer_pattern = Some(s(r"^https://login\.microsoftonline\.com/[0-9a-f-]+/v2\.0$"));
    assert!(is_valid_issuer_for_idp(&p, "https://kc.example.com/realms/acme"));
    assert!(is_valid_issuer_for_idp(&p, "https://login.microsoftonline.com/0a1b-2c/v2.0"));
    assert!(!is_valid_issuer_for_idp(&p, "https://evil.example.com/v2.0"));
    p.oidc_issuer_pattern = Some(s("(unclosed"));
    assert!(!is_valid_issuer_for_idp(&p, "https://login.microsoftonline.com/0a1b-2c/v2.0"));
    let r = id_token_claims(br#"{"iss":"https://evil.example.com","sub":"u","nonce":"n","email":"a@b.c"}"#, &p, "n");
    assert_eq!(r.unwrap_err(), "Invalid issuer for multi-tenant IDP: https://evil.example.com");
    let single = idp();
    assert!(!is_valid_issuer_for_idp(&single, "https://login.microsoftonline.com/0a1b-2c/v2.0"));
}

fn key(kid: Option<&str>, kty: &str) -> Jwk {
    Jwk { kid: kid.map(s), kty: s(kty), n: Some(s("AQAB")), e: Some(s("AQAB")) }
}

#[test]
fn signing_keys_and_algorithms() {
    let keys = vec![key(Some("a"), "RSA"), key(Some("b"), "RSA")];
    assert_eq!(select_signing_key(&keys, &Some(s("b"))), Some(1));
    assert_eq!(select_signing_key(&keys, &None), Some(0));
    assert_eq!(select_signing_key(&keys, &Some(s("c"))), None);
    assert_eq!(signing_algorithm(SigningAlgorithm::HS256), RsaAlgorithm::RS256);
    assert_eq!(signing_algorithm(SigningAlgorithm::PS384), RsaAlgorithm::RS256);
    assert_eq!(signing_algorithm(SigningAlgorithm::RS384), RsaAlgorithm::RS384);
    assert_eq!(signing_algorithm(SigningAlgorithm::RS512), RsaAlgorithm::RS512);
}

#[test]
fn checks_handed_to_the_signature_verification() {
    let c = jwt_check(&idp(), SigningAlgorithm::RS512);
    assert_eq!(c.alg, RsaAlgorithm::RS512);
    assert_eq!(c.issuer, Some(s("https://kc.example.com/realms/acme")));
    assert_eq!(c.audience, Some(s("platform")));
    assert!(c.validate_audience);
    let mut p = idp();
    p.oidc_multi_tenant = true;
    let c = jwt_check(&p, SigningAlgorithm::ES256);
    assert_eq!(c.alg, RsaAlgorithm::RS256);
    assert_eq!(c.issuer, None);
    assert_eq!(c.audience, None);
    assert!(!c.validate_audience);
}

#[test]
fn federated_claims_leave_out_protocol_members() {
    let c = claims_of(
        r#"{"iss":"i","sub":"u","nonce":"n","at_hash":"h","c_hash":"c","email":"a@b.c","tid":"t"}"#,
        "n",
    )
    .unwrap();
    let raw: serde_json::Value = serde_json::from_slice(&c.raw_claims).unwrap();
    let expected: serde_json::Value = serde_json::from_str(r#"{"iss":"i","sub":"u","email":"a@b.c","tid":"t"}"#).unwrap();
    assert_eq!(raw, expected);
}

const TOKEN_K1: &str = "eyJhbGciOiJSUzI1NiIsImtpZCI6ImsxIn0.eyJzdWIiOiJ1In0.c2ln";

#[test]
fn id_token_refusals_before_the_signature() {
    let mut p = idp();
    p.oidc_issuer_url = None;
    assert_eq!(validate_id_token(TOKEN_K1, &p, "n", &vec![]).unwrap_err(), "Missing issuer URL on IDP");
    let mut p = idp();
    p.oidc_client_id = None;
    assert_eq!(validate_id_token(TOKEN_K1, &p, "n", &vec![]).unwrap_err(), "Missing client ID on IDP");
    assert!(validate_id_token("x.y.z", &idp(), "n", &vec![]).unwrap_err().starts_with("Invalid ID token header"));
    assert_eq!(
        validate_id_token(TOKEN_K1, &idp(), "n", &vec![key(Some("k2"), "RSA")]).unwrap_err(),
        "No matching key found in JWKS for kid: Some(\"k1\")"
    );
    assert_eq!(
        validate_id_token(TOKEN_K1, &idp(), "n", &vec![key(Some("k1"), "EC")]).unwrap_err(),
        "Unsupported JWK key type: EC"
    );
    let mut k = key(Some("k1"), "RSA");
    k.n = None;
    assert_eq!(validate_id_token(TOKEN_K1, &idp(), "n", &vec![k]).unwrap_err(), "Missing 'n' in RSA JWK");
    let mut k = key(Some("k1"), "RSA");
    k.e = None;
    assert_eq!(validate_id_token(TOKEN_K1, &idp(), "n", &vec![k]).unwrap_err(), "Missing 'e' in RSA JWK");
    let mut k = key(Some("k1"), "RSA");
    k.n = Some(s("@@@"));
    assert!(validate_id_token(TOKEN_K1, &idp(), "n", &vec![k]).unwrap_err().starts_with("Invalid RSA key components: "));
    let r = validate_id_token(TOKEN_K1, &idp(), "n", &vec![key(Some("k1"), "RSA")]);
    assert!(r.unwrap_err().starts_with("JWT signature validation failed"));
}

#[test]
fn audience_of_a_logout_hint() {
    assert_eq!(extract_aud_from_id_token_hint("h.eyJhdWQiOiJjbHRfMSJ9.s"), Some(s("clt_1")));
    assert_eq!(extract_aud_from_id_token_hint("h.eyJhdWQiOlsiY2x0XzIiLCJ4Il19"), Some(s("clt_2")));
    assert_eq!(extract_aud_from_id_token_hint("h.eyJhbGciOiJSUzI1NiJ9.s"), None);
    assert_eq!(extract_aud_from_id_token_hint("nodots"), None);
    assert_eq!(extract_aud_from_id_token_hint("h.@@@.s"), None);
}

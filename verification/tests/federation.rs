use fc_platform::federation::{
    applications_from_roles, build_authorization_url_from_idp, check_callback_params, check_federated_identity,
    check_interaction_email, check_login_domain, check_login_provider, determine_redirect_url, domain_check_response,
    email_domain_of, error_redirect, get_authorization_endpoint, get_callback_url, get_external_base_url,
    get_token_endpoint, interaction_email_domain, lex_less, login_clients, login_domain, logout_client,
    logout_rejection_description, post_logout_redirect_url, token_exchange_request, token_exchange_tokens, replace_all, same_site_policy, user_scope_for,
    EmailDomainMapping, IdentityProvider, IdentityProviderType, OidcLoginState, SameSitePolicy, ScopeType, UserScope,
};
use fc_platform::oidc::{InteractionLoginResponse, OidcCallbackParams};
use fc_platform::federation::{interaction_login, InteractionAnswer, LoginStateLookup};
use fc_platform::oauth::RecordLookup;

fn s(x: &str) -> String {
    x.to_string()
}

fn idp() -> IdentityProvider {
    IdentityProvider {
        id: s("idp_1"),
        code: s("entra"),
        name: s("Entra"),
        provider_type: IdentityProviderType::Oidc,
        oidc_issuer_url: Some(s("https://login.microsoftonline.com/tenant/v2.0")),
        oidc_client_id: Some(s("client 1")),
        oidc_client_secret_ref: None,
        oidc_multi_tenant: false,
        oidc_issuer_pattern: None,
        allowed_email_domains: vec![],
    }
}

fn mapping() -> EmailDomainMapping {
    EmailDomainMapping {
        id: s("edm_1"),
        email_domain: s("acme.com"),
        identity_provider_id: s("idp_1"),
        scope_type: ScopeType::Client,
        primary_client_id: None,
        required_oidc_tenant_id: None,
        allowed_role_ids: vec![],
    }
}

fn login_state() -> OidcLoginState {
    OidcLoginState {
        state: s("st"),
        email_domain: s("acme.com"),
        identity_provider_id: s("idp_1"),
        email_domain_mapping_id: s("edm_1"),
        nonce: s("n"),
        code_verifier: s("v"),
        return_url: None,
        oauth_client_id: None,
        oauth_redirect_uri: None,
        oauth_scope: None,
        oauth_state: None,
        oauth_code_challenge: None,
        oauth_code_challenge_method: None,
        oauth_nonce: None,
        interaction_uid: None,
    }
}

#[test]
fn email_domains() {
    assert_eq!(email_domain_of("  Alice@Example.COM "), Some(s("example.com")));
    assert_eq!(email_domain_of("a@b@c"), Some(s("b@c")));
    assert_eq!(email_domain_of("@example.com"), None);
    assert_eq!(email_domain_of("alice@"), None);
    assert_eq!(email_domain_of("alice"), None);
}

#[test]
fn domain_check_answers() {
    let r = domain_check_response("acme.com", false, &Some(idp()));
    assert_eq!(r.auth_method, "external");
    assert_eq!(r.login_url.unwrap(), "/auth/oidc/login?domain=acme.com");
    assert_eq!(r.idp_issuer.unwrap(), "https://login.microsoftonline.com/tenant/v2.0");
    let r = domain_check_response("acme.com", true, &Some(idp()));
    assert_eq!(r.auth_method, "internal");
    assert_eq!(r.login_url, None);
    assert_eq!(domain_check_response("acme.com", false, &None).auth_method, "internal");
    let mut internal = idp();
    internal.provider_type = IdentityProviderType::Internal;
    assert_eq!(domain_check_response("acme.com", false, &Some(internal)).auth_method, "internal");
}

#[test]
fn login_start_checks() {
    assert_eq!(login_domain("  ACME.com "), "acme.com");
    let e = check_login_domain("").unwrap_err();
    assert_eq!((e.status, e.error.as_str()), (400, "domain parameter is required"));
    assert!(check_login_domain("acme.com").is_ok());
    assert!(check_login_provider("acme.com", true, &Some(idp())).is_ok());
    let e = check_login_provider("acme.com", false, &Some(idp())).unwrap_err();
    assert_eq!((e.status, e.error.as_str()), (404, "No authentication configuration found for domain: acme.com"));
    let e = check_login_provider("acme.com", true, &None).unwrap_err();
    assert_eq!((e.status, e.error.as_str()), (500, "Identity provider not found for domain: acme.com"));
    let mut p = idp();
    p.provider_type = IdentityProviderType::Internal;
    let e = check_login_provider("acme.com", true, &Some(p)).unwrap_err();
    assert_eq!((e.status, e.error.as_str()), (400, "Domain acme.com uses internal authentication, not OIDC"));
    let mut p = idp();
    p.oidc_client_id = None;
    let e = check_login_provider("acme.com", true, &Some(p)).unwrap_err();
    assert_eq!((e.status, e.error.as_str()), (500, "OIDC configuration incomplete for domain: acme.com"));
    let mut p = idp();
    p.allowed_email_domains = vec![s("other.com")];
    let e = check_login_provider("acme.com", true, &Some(p)).unwrap_err();
    assert_eq!((e.status, e.error.as_str()), (403, "Domain acme.com is not allowed by the identity provider"));
    let mut p = idp();
    p.allowed_email_domains = vec![s("other.com"), s("acme.com")];
    assert!(check_login_provider("acme.com", true, &Some(p)).is_ok());
}

#[test]
fn provider_endpoints() {
    assert_eq!(
        get_authorization_endpoint("https://login.microsoftonline.com/tenant/v2.0"),
        "https://login.microsoftonline.com/tenant/oauth2/v2.0/authorize"
    );
    assert_eq!(
        get_token_endpoint("https://login.microsoftonline.com/tenant/v2.0"),
        "https://login.microsoftonline.com/tenant/oauth2/v2.0/token"
    );
    assert_eq!(get_authorization_endpoint("https://kc.example.com/realms/x//"), "https://kc.example.com/realms/x/authorize");
    assert_eq!(get_token_endpoint("https://kc.example.com/realms/x"), "https://kc.example.com/realms/x/token");
    assert_eq!(replace_all("a/v2.0/b/v2.0", "/v2.0", "!"), "a!/b!");
    assert_eq!(replace_all("none here", "/v2.0", "!"), "none here");
}

#[test]
fn callback_and_base_urls() {
    assert_eq!(get_external_base_url(&Some(s("https://p.example.com")), false, "h:1"), "https://p.example.com");
    assert_eq!(get_external_base_url(&None, true, "h:1"), "https://h:1");
    assert_eq!(get_external_base_url(&None, false, "h:1"), "http://h:1");
    assert_eq!(get_callback_url(&None, true, "h"), "https://h/auth/oidc/callback");
}

#[test]
fn authorization_url() {
    let url = build_authorization_url_from_idp(&idp(), "st", "nn", "cc", "https://h/auth/oidc/callback");
    assert_eq!(
        url,
        "https://login.microsoftonline.com/tenant/oauth2/v2.0/authorize?response_type=code&client_id=client%201\
&redirect_uri=https%3A%2F%2Fh%2Fauth%2Foidc%2Fcallback&scope=openid%20profile%20email&state=st&nonce=nn\
&code_challenge=cc&code_challenge_method=S256"
    );
}

#[test]
fn callback_parameters() {
    let p = OidcCallbackParams { code: Some(s("c")), state: Some(s("st")), error: None, error_description: None };
    assert_eq!(check_callback_params(&p).unwrap(), (s("c"), s("st")));
    let p = OidcCallbackParams { code: None, state: None, error: Some(s("access_denied")), error_description: None };
    assert_eq!(check_callback_params(&p).unwrap_err(), "access_denied");
    let p = OidcCallbackParams {
        code: None,
        state: None,
        error: Some(s("access_denied")),
        error_description: Some(s("User cancelled")),
    };
    assert_eq!(check_callback_params(&p).unwrap_err(), "User cancelled");
    let p = OidcCallbackParams { code: Some(s("")), state: Some(s("st")), error: None, error_description: None };
    assert_eq!(check_callback_params(&p).unwrap_err(), "No authorization code received");
    let p = OidcCallbackParams { code: Some(s("c")), state: None, error: None, error_description: None };
    assert_eq!(check_callback_params(&p).unwrap_err(), "No state parameter received");
    assert_eq!(error_redirect("Bad thing & more"), "/?error=Bad%20thing%20%26%20more");
}

#[test]
fn identity_checks() {
    assert!(check_federated_identity("bob@acme.com", &None, &mapping()).is_ok());
    assert_eq!(
        check_federated_identity("bob@other.com", &None, &mapping()).unwrap_err(),
        "Email domain does not match the expected domain"
    );
    assert_eq!(
        check_federated_identity("bob", &None, &mapping()).unwrap_err(),
        "Email domain does not match the expected domain"
    );
    let mut m = mapping();
    m.required_oidc_tenant_id = Some(s("t1"));
    assert!(check_federated_identity("bob@acme.com", &Some(s("t1")), &m).is_ok());
    assert_eq!(check_federated_identity("bob@acme.com", &Some(s("t2")), &m).unwrap_err(), "OIDC tenant ID does not match");
    assert_eq!(check_federated_identity("bob@acme.com", &None, &m).unwrap_err(), "OIDC tenant ID not present in token");
}

#[test]
fn scopes_clients_and_cookies() {
    assert_eq!(user_scope_for(ScopeType::Anchor), UserScope::Anchor);
    assert_eq!(user_scope_for(ScopeType::Partner), UserScope::Partner);
    assert_eq!(user_scope_for(ScopeType::Client), UserScope::Client);
    assert_eq!(login_clients(UserScope::Anchor, &vec![s("clt_1")]), vec![s("*")]);
    assert_eq!(login_clients(UserScope::Client, &vec![s("clt_1")]), vec![s("clt_1")]);
    assert_eq!(same_site_policy("Strict"), SameSitePolicy::Strict);
    assert_eq!(same_site_policy("NONE"), SameSitePolicy::NoRestriction);
    assert_eq!(same_site_policy("Lax"), SameSitePolicy::Lax);
    assert_eq!(same_site_policy("whatever"), SameSitePolicy::Lax);
}

#[test]
fn applications_of_roles_are_sorted_and_unique() {
    let roles = vec![s("orders:admin"), s(":bad"), s("billing:viewer"), s("plain"), s("orders:viewer"), s("Zeta:x")];
    assert_eq!(applications_from_roles(&roles), vec![s("Zeta"), s("billing"), s("orders")]);
    assert!(applications_from_roles(&vec![]).is_empty());
    assert!(lex_less("ab", "b"));
    assert!(lex_less("a", "ab"));
    assert!(!lex_less("ab", "ab"));
    assert!(!lex_less("b", "ab"));
}

#[test]
fn redirect_after_login() {
    assert_eq!(determine_redirect_url("https://p", &login_state()), "https://p/dashboard");
    let mut st = login_state();
    st.return_url = Some(s("/processes"));
    assert_eq!(determine_redirect_url("https://p", &st), "https://p/processes");
    st.return_url = Some(s("https://elsewhere/x"));
    assert_eq!(determine_redirect_url("https://p", &st), "https://elsewhere/x");
    st.return_url = Some(s(""));
    assert_eq!(determine_redirect_url("https://p", &st), "https://p/dashboard");
    let mut st = login_state();
    st.oauth_client_id = Some(s("clt 1"));
    st.oauth_state = Some(s("x"));
    st.oauth_nonce = Some(s("y"));
    st.return_url = Some(s("/ignored"));
    assert_eq!(
        determine_redirect_url("https://p", &st),
        "https://p/oauth/authorize?response_type=code&client_id=clt%201&state=x&nonce=y"
    );
}

#[test]
fn logout_redirects() {
    assert_eq!(
        logout_client(&None).unwrap_err(),
        "id_token_hint is required to verify post_logout_redirect_uri"
    );
    assert_eq!(logout_client(&Some(s("garbage"))).unwrap_err(), "id_token_hint is malformed");
    // payload {"aud":"clt_1"}
    assert_eq!(logout_client(&Some(s("h.eyJhdWQiOiJjbHRfMSJ9.s"))).unwrap(), "clt_1");
    let registered = vec![s("https://app.example.com/bye"), s("https://*.example.com/out?x=1")];
    assert_eq!(
        post_logout_redirect_url("https://app.example.com/bye", &registered, &Some(s("a b"))).unwrap(),
        "https://app.example.com/bye?state=a%20b"
    );
    assert_eq!(
        post_logout_redirect_url("https://t.example.com/out?x=1", &registered, &Some(s("s"))).unwrap(),
        "https://t.example.com/out?x=1&state=s"
    );
    assert_eq!(
        post_logout_redirect_url("https://app.example.com/bye", &registered, &None).unwrap(),
        "https://app.example.com/bye"
    );
    assert_eq!(
        post_logout_redirect_url("https://evil.com/", &registered, &None).unwrap_err(),
        "not in the client's registered post_logout_redirect_uris"
    );
    assert_eq!(logout_rejection_description("why"), "Invalid post_logout_redirect_uri: why");
}

#[test]
fn interaction_emails() {
    assert_eq!(interaction_email_domain("Bob@ACME.com"), "acme.com");
    assert_eq!(interaction_email_domain("bob"), "");
    assert_eq!(check_interaction_email("bob@Acme.com", &login_state()).unwrap(), "acme.com");
    assert_eq!(check_interaction_email("bob@other.com", &login_state()).unwrap_err(), "Email domain does not match");
}

#[test]
fn encoded_values_cannot_add_parameters() {
    let url = error_redirect("a&b=c?#d/é");
    assert_eq!(url, "/?error=a%26b%3Dc%3F%23d%2F%C3%A9");
    let tail = &url["/?error=".len()..];
    assert!(tail.chars().all(|c| c.is_ascii_alphanumeric() || "-._~%".contains(c)));
}

#[test]
fn code_exchange() {
    let r = token_exchange_request(&idp(), "c1", "v1", "https://h/cb", &Some(s("sec"))).unwrap();
    assert_eq!(r.token_endpoint, "https://login.microsoftonline.com/tenant/oauth2/v2.0/token");
    assert_eq!(
        r.form,
        vec![
            (s("grant_type"), s("authorization_code")),
            (s("code"), s("c1")),
            (s("redirect_uri"), s("https://h/cb")),
            (s("client_id"), s("client 1")),
            (s("code_verifier"), s("v1")),
            (s("client_secret"), s("sec")),
        ]
    );
    assert_eq!(token_exchange_request(&idp(), "c1", "v1", "cb", &None).unwrap().form.len(), 5);
    let mut p = idp();
    p.oidc_client_id = None;
    assert_eq!(token_exchange_request(&p, "c1", "v1", "cb", &None).unwrap_err(), "Missing client ID");
    p.oidc_issuer_url = None;
    assert_eq!(token_exchange_request(&p, "c1", "v1", "cb", &None).unwrap_err(), "Missing issuer URL");
    let t = token_exchange_tokens(br#"{"id_token":"i","access_token":"a","refresh_token":"r"}"#).unwrap();
    assert_eq!((t.id_token.as_str(), t.access_token.as_str(), t.refresh_token.as_deref()), ("i", "a", Some("r")));
    let t = token_exchange_tokens(br#"{"id_token":"i"}"#).unwrap();
    assert_eq!((t.access_token.as_str(), t.refresh_token), ("", None));
    assert_eq!(token_exchange_tokens(br#"{"access_token":"a"}"#).unwrap_err(), "No ID token in response");
}

#[test]
fn interaction_login_answers() {
    let ls = LoginStateLookup::Found(login_state());
    let (st, a) = interaction_login(&LoginStateLookup::NotFound, "a@acme.com", RecordLookup::Found, &Some(idp()), "cb");
    assert_eq!(st, 404);
    assert_eq!(
        a,
        InteractionAnswer::Plain(InteractionLoginResponse {
            success: false,
            redirect_url: None,
            error: Some(s("Interaction not found or expired")),
        })
    );
    let (st, _) = interaction_login(&LoginStateLookup::Failed, "a@acme.com", RecordLookup::Found, &None, "cb");
    assert_eq!(st, 500);
    let (st, a) = interaction_login(&ls, "a@other.com", RecordLookup::NotFound, &None, "cb");
    assert_eq!(st, 400);
    assert!(matches!(a, InteractionAnswer::Plain(r) if r.error == Some(s("Email domain does not match"))));
    let (st, a) = interaction_login(&ls, "a@ACME.com", RecordLookup::NotFound, &Some(idp()), "cb");
    assert_eq!(st, 200);
    assert_eq!(
        a,
        InteractionAnswer::InternalAuth {
            login_url: s("/auth/login"),
            passkey_begin_url: s("/auth/webauthn/authenticate/begin"),
            error: s("domain uses internal authentication; complete login via /auth/login or /auth/webauthn/* and revisit /oauth/authorize"),
        }
    );
    let mut internal = idp();
    internal.provider_type = IdentityProviderType::Internal;
    let (st, a) = interaction_login(&ls, "a@acme.com", RecordLookup::Found, &Some(internal), "cb");
    assert_eq!(st, 400);
    assert!(matches!(a, InteractionAnswer::Plain(r) if r.error == Some(s("Identity provider not found or not OIDC type"))));
    let (st, _) = interaction_login(&ls, "a@acme.com", RecordLookup::Failed, &None, "cb");
    assert_eq!(st, 400);
    let (st, a) = interaction_login(&ls, "a@acme.com", RecordLookup::Found, &Some(idp()), "https://p/cb");
    assert_eq!(st, 200);
    let challenge = fc_platform::pkce::generate_code_challenge("v");
    let url = build_authorization_url_from_idp(&idp(), "st", "n", &challenge, "https://p/cb");
    assert_eq!(a, InteractionAnswer::Plain(InteractionLoginResponse { success: true, redirect_url: Some(url), error: None }));
}

use fc_platform::oauth::{
    authorize_session_step, bearer_token_response, check_authorize_client, check_authorize_request,
    check_client_authentication, check_client_credentials_client, check_code_redemption, check_refresh_binding,
    check_refresh_principal, check_service_principal, code_redirect_url, error_redirect_url, grant_kind,
    introspection_active, introspection_inactive, invalid_scopes, is_refresh_hint, login_redirect_url,
    parse_client_credentials, refresh_id_token_audience, refresh_scope, require_client_credentials, require_code,
    scope_includes, scope_list, unsupported_grant, userinfo_response, AccessTokenClaims, AuthorizationCode,
    AuthorizeRejection, AuthorizeRequest, ClientLookup, GrantKind, PrincipalLookup, SessionClaims, SessionStep,
    TokenRequest,
};
use fc_platform::oauth::{issue_authorization_code, require_record, require_refresh_token, PendingAuthorization, RecordLookup};
use fc_platform::oauth::{code_grant_plan, refresh_rotation_plan, token_response_headers, StoredRefreshToken};
use fc_platform::oauth::{
    authorization_code_grant, client_credentials_grant, client_credentials_plan, refresh_token_grant,
    session_authorization_code, CodeLookup, RefreshTokenLookup,
};
use fc_platform::oauth_clients::{OAuthClient, OAuthClientType};

fn s(x: &str) -> String {
    x.to_string()
}

fn request() -> AuthorizeRequest {
    AuthorizeRequest {
        response_type: s("code"),
        client_id: s("clt_1"),
        redirect_uri: s("https://app.example.com/callback"),
        scope: Some(s("openid profile")),
        state: Some(s("st8")),
        nonce: None,
        code_challenge: Some(s("abc")),
        code_challenge_method: Some(s("S256")),
        provider: None,
        max_age: None,
        prompt: None,
    }
}

fn client() -> OAuthClient {
    OAuthClient {
        id: s("oac_1"),
        client_id: s("clt_1"),
        client_name: s("App"),
        client_type: OAuthClientType::Public,
        client_secret_ref: None,
        redirect_uris: vec![s("https://app.example.com/callback")],
        post_logout_redirect_uris: vec![],
        grant_types: vec![s("authorization_code")],
        default_scopes: vec![s("orders:read")],
        pkce_required: true,
        application_ids: vec![],
        allowed_origins: vec![],
        service_account_principal_id: None,
        active: true,
    }
}

fn token_request() -> TokenRequest {
    TokenRequest {
        grant_type: s("authorization_code"),
        code: Some(s("code1")),
        redirect_uri: Some(s("https://app.example.com/callback")),
        client_id: Some(s("clt_1")),
        client_secret: None,
        code_verifier: None,
        refresh_token: None,
        username: None,
        password: None,
    }
}

fn stored_code() -> AuthorizationCode {
    AuthorizationCode {
        code: s("code1"),
        client_id: s("clt_1"),
        principal_id: s("prn_1"),
        redirect_uri: s("https://app.example.com/callback"),
        scope: Some(s("openid")),
        nonce: None,
        state: None,
        code_challenge: None,
        code_challenge_method: None,
        created_at: 1_000,
    }
}

#[test]
fn authorize_request_needs_code_and_state() {
    assert!(check_authorize_request(&request()).is_ok());
    let mut r = request();
    r.response_type = s("token");
    match check_authorize_request(&r) {
        Err(AuthorizeRejection::Redirect { error, .. }) => assert_eq!(error, "unsupported_response_type"),
        other => panic!("unexpected {:?}", other),
    }
    let mut r = request();
    r.state = Some(s("   "));
    match check_authorize_request(&r) {
        Err(AuthorizeRejection::BadRequest(b)) => {
            assert_eq!(b.error, "invalid_request");
            assert_eq!(b.error_description.unwrap(), "`state` parameter is required for CSRF protection");
        }
        other => panic!("unexpected {:?}", other),
    }
}

#[test]
fn authorize_client_checks_in_order() {
    assert!(check_authorize_client(&request(), &ClientLookup::Found(client())).is_ok());
    match check_authorize_client(&request(), &ClientLookup::NotFound) {
        Err(AuthorizeRejection::Redirect { error, description }) => {
            assert_eq!(error, "unauthorized_client");
            assert_eq!(description, "Unknown client");
        }
        other => panic!("unexpected {:?}", other),
    }
    let mut r = request();
    r.redirect_uri = s("https://evil.example.com/callback");
    match check_authorize_client(&r, &ClientLookup::Found(client())) {
        Err(AuthorizeRejection::BadRequest(b)) => assert_eq!(b.error_description.unwrap(), "Invalid redirect_uri"),
        other => panic!("unexpected {:?}", other),
    }
    let mut r = request();
    r.code_challenge = None;
    match check_authorize_client(&r, &ClientLookup::Found(client())) {
        Err(AuthorizeRejection::Redirect { description, .. }) => assert_eq!(description, "PKCE code_challenge is required"),
        other => panic!("unexpected {:?}", other),
    }
    let mut r = request();
    r.code_challenge_method = Some(s("S512"));
    match check_authorize_client(&r, &ClientLookup::Found(client())) {
        Err(AuthorizeRejection::Redirect { description, .. }) => assert_eq!(description, "Invalid code_challenge_method"),
        other => panic!("unexpected {:?}", other),
    }
    let mut r = request();
    r.scope = Some(s("openid admin orders:read billing"));
    match check_authorize_client(&r, &ClientLookup::Found(client())) {
        Err(AuthorizeRejection::Redirect { error, description }) => {
            assert_eq!(error, "invalid_scope");
            assert_eq!(description, "Invalid scope(s): admin, billing");
        }
        other => panic!("unexpected {:?}", other),
    }
    let mut c = client();
    c.active = false;
    match check_authorize_client(&request(), &ClientLookup::Found(c)) {
        Err(AuthorizeRejection::Redirect { description, .. }) => assert_eq!(description, "Client is not active"),
        other => panic!("unexpected {:?}", other),
    }
}

#[test]
fn invalid_scopes_keeps_request_order() {
    let allowed = vec![s("orders:read")];
    assert_eq!(invalid_scopes("  openid  x orders:read y ", &allowed), vec![s("x"), s("y")]);
    assert!(invalid_scopes("openid profile email offline_access", &allowed).is_empty());
}

#[test]
fn redirect_urls_encode_their_values() {
    assert_eq!(
        error_redirect_url("https://a.example/cb", "access_denied", "User said no", &Some(s("x y"))),
        "https://a.example/cb?error=access_denied&error_description=User%20said%20no&state=x%20y"
    );
    assert_eq!(code_redirect_url("https://a.example/cb", "c/1", &None), "https://a.example/cb?code=c%2F1");
    assert_eq!(
        login_redirect_url(&request(), "st8"),
        "/auth/login?oauth=true&response_type=code&client_id=clt_1&redirect_uri=https%3A%2F%2Fapp.example.com%2Fcallback&state=st8&scope=openid%20profile&code_challenge=abc&code_challenge_method=S256"
    );
}

#[test]
fn session_step_follows_prompt_and_max_age() {
    let claims = SessionClaims { sub: s("prn_1"), iat: 1_000 };
    assert_eq!(authorize_session_step(Some("none"), None, None, 2_000), SessionStep::LoginRequired);
    assert_eq!(authorize_session_step(None, None, None, 2_000), SessionStep::ShowLogin);
    assert_eq!(authorize_session_step(Some("login"), Some(&claims), None, 2_000), SessionStep::ShowLogin);
    assert_eq!(
        authorize_session_step(None, Some(&claims), Some(1_000), 2_000),
        SessionStep::IssueCode { principal_id: s("prn_1") }
    );
    assert_eq!(authorize_session_step(None, Some(&claims), Some(999), 2_000), SessionStep::ShowLogin);
}

#[test]
fn grant_types_and_unknown_grant() {
    assert_eq!(grant_kind("authorization_code"), GrantKind::AuthorizationCode);
    assert_eq!(grant_kind("refresh_token"), GrantKind::RefreshToken);
    assert_eq!(grant_kind("client_credentials"), GrantKind::ClientCredentials);
    assert_eq!(grant_kind("password"), GrantKind::Unsupported);
    let f = unsupported_grant("password");
    assert_eq!(f.status, 400);
    assert_eq!(f.body.error, "unsupported_grant_type");
    assert_eq!(f.body.error_description.unwrap(), "Grant type 'password' is not supported");
}

#[test]
fn code_redemption_rules() {
    assert!(check_code_redemption(&token_request(), &stored_code(), 1_600).is_ok());
    let f = check_code_redemption(&token_request(), &stored_code(), 1_601).unwrap_err();
    assert_eq!(f.body.error_description.unwrap(), "Authorization code has expired");
    let mut r = token_request();
    r.client_id = Some(s("clt_2"));
    assert_eq!(
        check_code_redemption(&r, &stored_code(), 1_100).unwrap_err().body.error_description.unwrap(),
        "Client ID mismatch"
    );
    let mut r = token_request();
    r.redirect_uri = None;
    assert_eq!(
        check_code_redemption(&r, &stored_code(), 1_100).unwrap_err().body.error_description.unwrap(),
        "Redirect URI mismatch"
    );
    let mut code = stored_code();
    code.code_challenge = Some(s("ngF5GsXcbwljx6u133FFr3Xht9xooA_DuaX_3QwODtc"));
    code.code_challenge_method = Some(s("S256"));
    let mut r = token_request();
    assert_eq!(
        check_code_redemption(&r, &code, 1_100).unwrap_err().body.error_description.unwrap(),
        "Missing code_verifier"
    );
    r.code_verifier = Some(s("dBjftJeZ4CVP-mJ92K27uhbUJU1p1r_wW1gFWFOEjXk"));
    assert!(check_code_redemption(&r, &code, 1_100).is_ok());
}

#[test]
fn token_request_parameters() {
    assert_eq!(require_code(&token_request()).unwrap(), "code1");
    let mut r = token_request();
    r.code = None;
    assert_eq!(require_code(&r).unwrap_err().body.error_description.unwrap(), "Missing 'code' parameter");
    let mut r = token_request();
    r.client_secret = Some(s("sec"));
    assert_eq!(require_client_credentials(&r).unwrap(), (s("clt_1"), s("sec")));
    r.client_secret = None;
    assert_eq!(require_client_credentials(&r).unwrap_err().body.error_description.unwrap(), "Missing client_secret");
    r.client_id = None;
    assert_eq!(require_client_credentials(&r).unwrap_err().body.error_description.unwrap(), "Missing client_id");
}

#[test]
fn scopes_and_token_response() {
    assert!(scope_includes(&Some(s("openid offline_access")), "offline_access"));
    assert!(!scope_includes(&Some(s("openid")), "offline"));
    assert!(!scope_includes(&None, "openid"));
    assert_eq!(scope_list(&Some(s(" a  b "))), vec![s("a"), s("b")]);
    assert!(scope_list(&None).is_empty());
    let t = bearer_token_response(s("tok"), None, Some(s("idt")), Some(s("openid")));
    assert_eq!(t.token_type, "Bearer");
    assert_eq!(t.expires_in, 3600);
    assert_eq!(t.id_token.unwrap(), "idt");
}

#[test]
fn refresh_rules() {
    assert!(check_refresh_binding(&None, None).is_ok());
    assert!(check_refresh_binding(&Some(s("clt_1")), Some("clt_1")).is_ok());
    let f = check_refresh_binding(&Some(s("clt_1")), Some("clt_2")).unwrap_err();
    assert_eq!(f.status, 401);
    assert_eq!(f.body.error_description.unwrap(), "Token was not issued to this client");
    assert_eq!(check_refresh_principal(false).unwrap_err().body.error_description.unwrap(), "Account is not active");
    assert!(check_refresh_principal(true).is_ok());
    assert_eq!(refresh_id_token_audience(&vec![s("openid")], &Some(s("clt_1"))), Some(s("clt_1")));
    assert_eq!(refresh_id_token_audience(&vec![s("profile")], &Some(s("clt_1"))), None);
    assert_eq!(refresh_scope(&vec![s("openid"), s("profile")]), Some(s("openid profile")));
    assert_eq!(refresh_scope(&vec![]), None);
    assert!(is_refresh_hint(&Some(s("refresh_token"))));
    assert!(!is_refresh_hint(&Some(s("access_token"))));
}

#[test]
fn client_credentials_from_header_or_body() {
    // "clt_1:sec" in standard base64
    let c = parse_client_credentials(Some("Basic Y2x0XzE6c2Vj"), Some("ignored"), None).unwrap();
    assert_eq!(c.client_id, "clt_1");
    assert_eq!(c.client_secret.unwrap(), "sec");
    // "clt_1:" has an empty secret, which counts as none
    let c = parse_client_credentials(Some("Basic Y2x0XzE6"), None, None).unwrap();
    assert_eq!(c.client_secret, None);
    let f = parse_client_credentials(Some("Basic !!!"), None, None).unwrap_err();
    assert_eq!(f.body.error_description.unwrap(), "Invalid Basic auth encoding");
    // "nocolon"
    let f = parse_client_credentials(Some("Basic bm9jb2xvbg=="), None, None).unwrap_err();
    assert_eq!(f.body.error_description.unwrap(), "Invalid Basic auth format");
    let c = parse_client_credentials(Some("Bearer x"), Some("clt_9"), Some("pw")).unwrap();
    assert_eq!(c.client_id, "clt_9");
    assert_eq!(c.client_secret.unwrap(), "pw");
    let f = parse_client_credentials(None, None, None).unwrap_err();
    assert_eq!(f.status, 401);
    assert_eq!(f.body.error_description.unwrap(), "Missing client credentials");
}

#[test]
fn client_authentication() {
    let public = ClientLookup::Found(client());
    assert!(check_client_authentication(&public, &None, &None).is_ok());
    assert_eq!(
        check_client_authentication(&public, &Some(s("x")), &None).unwrap_err().body.error_description.unwrap(),
        "Public clients must not provide a client_secret"
    );
    let mut c = client();
    c.client_type = OAuthClientType::Confidential;
    c.client_secret_ref = Some(s("encrypted:abc"));
    c.service_account_principal_id = Some(s("sac_1"));
    let conf = ClientLookup::Found(c);
    assert!(check_client_authentication(&conf, &Some(s("sec")), &Some(s("sec"))).is_ok());
    assert_eq!(
        check_client_authentication(&conf, &None, &Some(s("sec"))).unwrap_err().body.error_description.unwrap(),
        "Client secret required for confidential clients"
    );
    assert_eq!(
        check_client_authentication(&conf, &Some(s("bad")), &Some(s("sec"))).unwrap_err().body.error_description.unwrap(),
        "Invalid client credentials"
    );
    assert_eq!(check_client_authentication(&ClientLookup::Failed, &None, &None).unwrap_err().status, 500);
    assert_eq!(check_client_credentials_client(&conf, "sec", &Some(s("sec"))).unwrap(), "sac_1");
    assert_eq!(
        check_client_credentials_client(&public, "sec", &None).unwrap_err().body.error,
        "unauthorized_client"
    );
    assert!(check_service_principal(PrincipalLookup::Found { active: true }).is_ok());
    assert_eq!(
        check_service_principal(PrincipalLookup::NotFound).unwrap_err().body.error_description.unwrap(),
        "Client not properly configured"
    );
}

fn claims() -> AccessTokenClaims {
    AccessTokenClaims {
        sub: s("prn_1"),
        email: Some(s("a@example.com")),
        name: s("Alice"),
        scope: s("openid"),
        principal_type: s("USER"),
        clients: vec![s("clt_1:acme"), s("clt_2:beta")],
        roles: vec![s("app:admin")],
        applications: vec![s("app")],
        exp: 2_000,
        iat: 1_000,
        iss: s("https://auth.example.com"),
    }
}

#[test]
fn userinfo_and_introspection() {
    let u = userinfo_response(claims());
    assert_eq!(u.sub, "prn_1");
    assert_eq!(u.client_id.unwrap(), "clt_1");
    let mut c = claims();
    c.clients = vec![s("*")];
    assert_eq!(userinfo_response(c).client_id, None);
    let i = introspection_active(claims());
    assert!(i.active);
    assert_eq!(i.client_id.unwrap(), "clt_1:acme");
    assert_eq!(i.token_type.unwrap(), "Bearer");
    let n = introspection_inactive();
    assert!(!n.active);
    assert_eq!(n.sub, None);
}

#[test]
fn codes_issued_for_pending_requests() {
    let pending = PendingAuthorization {
        client_id: s("clt_1"),
        redirect_uri: s("https://app.example.com/callback"),
        scope: Some(s("openid")),
        nonce: Some(s("n")),
        code_challenge: Some(s("ch")),
        code_challenge_method: None,
    };
    let c = issue_authorization_code(s("code1"), pending.clone(), s("prn_1"), 1_000);
    assert_eq!(c.code_challenge, None);
    assert_eq!(c.client_id, "clt_1");
    assert_eq!(c.created_at, 1_000);
    let mut p = pending;
    p.code_challenge_method = Some(s("S256"));
    let c = issue_authorization_code(s("code1"), p, s("prn_1"), 1_000);
    assert_eq!(c.code_challenge.unwrap(), "ch");
    assert_eq!(c.code_challenge_method.unwrap(), "S256");
    assert_eq!(c.state, None);
}

#[test]
fn refresh_token_and_lookups() {
    let mut r = token_request();
    assert_eq!(
        require_refresh_token(&r).unwrap_err().body.error_description.unwrap(),
        "Missing refresh_token parameter"
    );
    r.refresh_token = Some(s("rt"));
    assert_eq!(require_refresh_token(&r).unwrap(), "rt");
    assert!(require_record(RecordLookup::Found, 401, "x").is_ok());
    let f = require_record(RecordLookup::NotFound, 401, "Invalid or expired refresh token").unwrap_err();
    assert_eq!((f.status, f.body.error.as_str()), (401, "invalid_grant"));
    assert_eq!(f.body.error_description.unwrap(), "Invalid or expired refresh token");
    let f = require_record(RecordLookup::Failed, 400, "Principal not found").unwrap_err();
    assert_eq!((f.status, f.body.error.as_str(), f.body.error_description), (500, "server_error", None));
}

#[test]
fn code_grant_issues_tokens_by_scope() {
    let mut c = stored_code();
    c.scope = Some(s("openid profile offline_access"));
    c.nonce = Some(s("n-1"));
    let plan = code_grant_plan(&c);
    assert_eq!(plan.id_token, Some((s("clt_1"), Some(s("n-1")))));
    let t = plan.refresh_token.unwrap();
    assert_eq!(t.principal_id, "prn_1");
    assert_eq!(t.oauth_client_id, Some(s("clt_1")));
    assert_eq!(t.accessible_clients, None);
    assert_eq!(t.scopes, vec![s("openid"), s("profile"), s("offline_access")]);
    assert_eq!(plan.scope, Some(s("openid profile offline_access")));

    c.scope = Some(s("profile"));
    let plan = code_grant_plan(&c);
    assert_eq!(plan.id_token, None);
    assert_eq!(plan.refresh_token, None);
    assert_eq!(plan.scope, Some(s("profile")));

    c.scope = None;
    let plan = code_grant_plan(&c);
    assert_eq!(plan.id_token, None);
    assert_eq!(plan.refresh_token, None);
    assert_eq!(plan.scope, None);
}

#[test]
fn refresh_rotation_keeps_the_grant() {
    let stored = StoredRefreshToken {
        principal_id: s("prn_1"),
        oauth_client_id: Some(s("clt_1")),
        accessible_clients: vec![s("cli_a"), s("cli_b")],
        scopes: vec![s("openid"), s("offline_access")],
    };
    let plan = refresh_rotation_plan(&stored);
    assert_eq!(plan.id_token, Some((s("clt_1"), None)));
    let t = plan.refresh_token.unwrap();
    assert_eq!(t.principal_id, "prn_1");
    assert_eq!(t.oauth_client_id, Some(s("clt_1")));
    assert_eq!(t.accessible_clients, Some(vec![s("cli_a"), s("cli_b")]));
    assert_eq!(t.scopes, vec![s("openid"), s("offline_access")]);
    assert_eq!(plan.scope, Some(s("openid offline_access")));

    let unbound = StoredRefreshToken { oauth_client_id: None, scopes: vec![], ..stored };
    let plan = refresh_rotation_plan(&unbound);
    assert_eq!(plan.id_token, None);
    assert_eq!(plan.refresh_token.unwrap().oauth_client_id, None);
    assert_eq!(plan.scope, None);
}

#[test]
fn token_answers_are_not_cached() {
    assert_eq!(
        token_response_headers(),
        vec![(s("cache-control"), s("no-store")), (s("pragma"), s("no-cache"))]
    );
}

#[test]
fn code_grant_takes_its_checks_in_order() {
    let code = CodeLookup::Found(stored_code());
    // no code parameter wins over a failed lookup
    let mut req = token_request();
    req.code = None;
    let f = authorization_code_grant(&req, &CodeLookup::Failed, RecordLookup::Found, 1_100).unwrap_err();
    assert_eq!((f.status, f.body.error_description), (400, Some(s("Missing 'code' parameter"))));
    let f = authorization_code_grant(&token_request(), &CodeLookup::Failed, RecordLookup::Found, 1_100).unwrap_err();
    assert_eq!((f.status, f.body.error.as_str()), (500, "server_error"));
    let f = authorization_code_grant(&token_request(), &CodeLookup::NotFound, RecordLookup::Found, 1_100).unwrap_err();
    assert_eq!(f.body.error_description, Some(s("Invalid or expired authorization code")));
    // an expired code is refused before a missing principal
    let f = authorization_code_grant(&token_request(), &code, RecordLookup::NotFound, 5_000).unwrap_err();
    assert_eq!(f.body.error_description, Some(s("Authorization code has expired")));
    let f = authorization_code_grant(&token_request(), &code, RecordLookup::NotFound, 1_100).unwrap_err();
    assert_eq!((f.status, f.body.error_description), (400, Some(s("Principal not found"))));
    let plan = authorization_code_grant(&token_request(), &code, RecordLookup::Found, 1_100).unwrap();
    assert_eq!(plan.id_token, Some((s("clt_1"), None)));
    assert_eq!(plan.refresh_token, None);
}

fn stored_refresh() -> StoredRefreshToken {
    StoredRefreshToken {
        principal_id: s("prn_1"),
        oauth_client_id: Some(s("clt_1")),
        accessible_clients: vec![],
        scopes: vec![s("openid")],
    }
}

#[test]
fn refresh_grant_takes_its_checks_in_order() {
    let mut req = token_request();
    req.refresh_token = Some(s("rt"));
    let found = RefreshTokenLookup::Found(stored_refresh());
    let active = PrincipalLookup::Found { active: true };
    // a foreign client is refused before a failed revocation
    let f = refresh_token_grant(&req, &found, Some("clt_2"), false, active).unwrap_err();
    assert_eq!((f.status, f.body.error_description), (401, Some(s("Token was not issued to this client"))));
    let f = refresh_token_grant(&req, &found, Some("clt_1"), false, active).unwrap_err();
    assert_eq!((f.status, f.body.error.as_str()), (500, "server_error"));
    let f = refresh_token_grant(&req, &found, Some("clt_1"), true, PrincipalLookup::NotFound).unwrap_err();
    assert_eq!((f.status, f.body.error_description), (401, Some(s("Principal not found"))));
    let f = refresh_token_grant(&req, &found, Some("clt_1"), true, PrincipalLookup::Found { active: false })
        .unwrap_err();
    assert_eq!(f.body.error_description, Some(s("Account is not active")));
    let f = refresh_token_grant(&req, &RefreshTokenLookup::NotFound, None, true, active).unwrap_err();
    assert_eq!((f.status, f.body.error_description), (401, Some(s("Invalid or expired refresh token"))));
    req.refresh_token = None;
    let f = refresh_token_grant(&req, &RefreshTokenLookup::Failed, None, false, active).unwrap_err();
    assert_eq!(f.body.error_description, Some(s("Missing refresh_token parameter")));
    req.refresh_token = Some(s("rt"));
    let plan = refresh_token_grant(&req, &found, Some("clt_1"), true, active).unwrap();
    assert_eq!(plan.id_token, Some((s("clt_1"), None)));
    assert_eq!(plan.scope, Some(s("openid")));
}

fn service_client() -> OAuthClient {
    let mut c = client();
    c.client_type = OAuthClientType::Confidential;
    c.client_secret_ref = Some(s("encrypted:x"));
    c.service_account_principal_id = Some(s("sac_1"));
    c.grant_types = vec![s("client_credentials")];
    c
}

#[test]
fn client_credentials_grant_answers_without_refresh_or_id_token() {
    let mut req = token_request();
    req.grant_type = s("client_credentials");
    req.client_secret = Some(s("secret"));
    let found = ClientLookup::Found(service_client());
    let active = PrincipalLookup::Found { active: true };
    let plan = client_credentials_grant(&req, &found, &Some(s("secret")), active).unwrap();
    assert_eq!(plan, client_credentials_plan());
    assert_eq!(plan.id_token, None);
    assert_eq!(plan.refresh_token, None);
    assert_eq!(plan.scope, None);
    // a wrong secret is refused before an inactive service account
    let f = client_credentials_grant(&req, &found, &Some(s("other")), PrincipalLookup::Found { active: false })
        .unwrap_err();
    assert_eq!((f.status, f.body.error_description), (401, Some(s("Invalid client credentials"))));
    let f = client_credentials_grant(&req, &found, &Some(s("secret")), PrincipalLookup::Found { active: false })
        .unwrap_err();
    assert_eq!(f.body.error_description, Some(s("Service account is not active")));
    req.client_secret = None;
    let f = client_credentials_grant(&req, &ClientLookup::Failed, &None, active).unwrap_err();
    assert_eq!((f.status, f.body.error_description), (400, Some(s("Missing client_secret"))));
}

#[test]
fn a_session_code_keeps_the_state() {
    let mut req = request();
    req.state = Some(s("st-1"));
    req.code_challenge = Some(s("ch"));
    req.code_challenge_method = Some(s("S256"));
    let c = session_authorization_code(s("code9"), &req, s("prn_1"), 42);
    assert_eq!(c.state, Some(s("st-1")));
    assert_eq!(c.code_challenge, Some(s("ch")));
    assert_eq!(c.principal_id, "prn_1");
    assert_eq!(c.created_at, 42);
    req.code_challenge_method = None;
    let c = session_authorization_code(s("code9"), &req, s("prn_1"), 42);
    assert_eq!(c.code_challenge, None);
}

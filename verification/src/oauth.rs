//! The OAuth2 authorization server: authorize, token, userinfo, introspection, revocation.

use vstd::prelude::*;
use crate::encoding::{base64_decode_spec, base64_std_decode, percent_encode, url_encode, utf8_decode};
use crate::oauth_clients::OAuthClient;
use crate::redirect::{matches_redirect_uri, redirect_allowed};
use crate::text::{all_ws, contains_str, opt_view, is_blank, join, join_spec, owned, str_eq, words, words_spec};
use vstd::string::StringSliceAdditionalSpecFns;

verus! {

/// Authorization request parameters
#[derive(Debug, Clone, PartialEq, Eq)]
pub struct AuthorizeRequest {
    pub response_type: String,
    pub client_id: String,
    pub redirect_uri: String,
    pub scope: Option<String>,
    /// Required. Echoed back to the client on the callback so it can detect
    /// CSRF-pinned authorization codes (OAuth 2.0 Security BCP §4.7). PKCE
    /// protects the code itself; `state` protects the redirect flow.
    pub state: Option<String>,
    pub nonce: Option<String>,
    /// PKCE code challenge
    pub code_challenge: Option<String>,
    /// PKCE code challenge method (S256 or plain)
    pub code_challenge_method: Option<String>,
    /// Provider ID for external OIDC
    pub provider: Option<String>,
    /// OIDC max_age: maximum authentication age in seconds
    pub max_age: Option<i64>,
    /// OIDC prompt: space-separated list of prompt values (none, login, consent, select_account)
    pub prompt: Option<String>,
}

/// Token request (form-urlencoded)
#[derive(Debug, Clone, PartialEq, Eq)]
pub struct TokenRequest {
    pub grant_type: String,
    pub code: Option<String>,
    pub redirect_uri: Option<String>,
    pub client_id: Option<String>,
    pub client_secret: Option<String>,
    /// PKCE code verifier
    pub code_verifier: Option<String>,
    /// For refresh token grant
    pub refresh_token: Option<String>,
    /// For password grant (not recommended)
    pub username: Option<String>,
    pub password: Option<String>,
}

/// Token response
#[derive(Debug, Clone, PartialEq, Eq)]
pub struct TokenResponse {
    pub access_token: String,
    pub token_type: String,
    pub expires_in: i64,
    pub refresh_token: Option<String>,
    pub id_token: Option<String>,
    pub scope: Option<String>,
}

/// Error response (RFC 6749)
#[derive(Debug, Clone, PartialEq, Eq)]
pub struct ErrorResponse {
    pub error: String,
    pub error_description: Option<String>,
}

/// Token introspection request (RFC 7662)
#[derive(Debug, Clone, PartialEq, Eq)]
pub struct IntrospectRequest {
    pub token: String,
    pub token_type_hint: Option<String>,
}

/// Token introspection response (RFC 7662)
#[derive(Debug, Clone, PartialEq, Eq)]
pub struct IntrospectResponse {
    pub active: bool,
    pub sub: Option<String>,
    pub scope: Option<String>,
    pub client_id: Option<String>,
    pub email: Option<String>,
    pub name: Option<String>,
    pub principal_type: Option<String>,
    pub exp: Option<i64>,
    pub iat: Option<i64>,
    pub iss: Option<String>,
    pub token_type: Option<String>,
}

/// Token revocation request (RFC 7009)
#[derive(Debug, Clone, PartialEq, Eq)]
pub struct RevokeRequest {
    pub token: String,
    pub token_type_hint: Option<String>,
}

/// OIDC UserInfo response
#[derive(Debug, Clone, PartialEq, Eq)]
pub struct UserInfoResponse {
    pub sub: String,
    pub email: Option<String>,
    pub name: Option<String>,
    pub scope: Option<String>,
    pub principal_type: Option<String>,
    pub client_id: Option<String>,
    pub clients: Option<Vec<String>>,
    pub roles: Option<Vec<String>>,
    pub applications: Option<Vec<String>>,
}

/// Token introspection request with optional client credentials in body
#[derive(Debug, Clone, PartialEq, Eq)]
pub struct IntrospectRequestFull {
    pub token: String,
    pub token_type_hint: Option<String>,
    pub client_id: Option<String>,
    pub client_secret: Option<String>,
}

/// Token revocation request with optional client credentials in body
#[derive(Debug, Clone, PartialEq, Eq)]
pub struct RevokeRequestFull {
    pub token: String,
    pub token_type_hint: Option<String>,
    pub client_id: Option<String>,
    pub client_secret: Option<String>,
}


/// Percent-encoding of the UTF-8 bytes of a text.
pub open spec fn enc(s: Seq<char>) -> Seq<char> {
    percent_encode(vstd::utf8::encode_utf8(s))
}

/// How the authorization endpoint turns a request away.
#[derive(Debug, Clone, PartialEq, Eq)]
pub enum AuthorizeRejection {
    /// Send the user agent back to the client's `redirect_uri` with `error`,
    /// `error_description` and the client's `state`.
    Redirect { error: String, description: String },
    /// Answer `400 Bad Request` with this body, without redirecting.
    BadRequest(ErrorResponse),
}

impl AuthorizeRejection {
    /// Whether it redirects, the error code, and the description.
    pub open spec fn outcome(self) -> (bool, Seq<char>, Seq<char>) {
        match self {
            AuthorizeRejection::Redirect { error, description } => (true, error@, description@),
            AuthorizeRejection::BadRequest(b) => (false, b.error@, match b.error_description {
                Some(d) => d@,
                None => Seq::empty(),
            }),
        }
    }
}

/// The result agrees with the expected verdict (`None` meaning success).
pub open spec fn agrees(r: Result<(), AuthorizeRejection>, verdict: Option<(bool, Seq<char>, Seq<char>)>) -> bool {
    match r {
        Ok(_) => verdict is None,
        Err(x) => verdict == Some(x.outcome()) && (x matches AuthorizeRejection::BadRequest(b) ==> b.error_description is Some),
    }
}

/// `state` is absent or blank.
pub open spec fn state_missing(state: Option<String>) -> bool {
    match state {
        None => true,
        Some(s) => all_ws(s@),
    }
}

fn error_body(error: &str, description: &str) -> (r: ErrorResponse)
    ensures
        r.error@ == error@,
        r.error_description matches Some(d) && d@ == description@,
{
    ErrorResponse { error: owned(error), error_description: Some(owned(description)) }
}

/// The checks that run before the client is looked up: only the `code`
/// response type is served, and `state` is required.
/// The verdict of the checks that run before the client is looked up.
pub open spec fn authorize_request_verdict(req: AuthorizeRequest) -> Option<(bool, Seq<char>, Seq<char>)> {
    if req.response_type@ != "code"@ {
        Some((true, "unsupported_response_type"@, "Only 'code' response type is supported"@))
    } else if state_missing(req.state) {
        Some((false, "invalid_request"@, "`state` parameter is required for CSRF protection"@))
    } else {
        None
    }
}

/// The checks that run before the client is looked up: only the `code`
/// response type is served, and `state` is required.
pub fn check_authorize_request(req: &AuthorizeRequest) -> (r: Result<(), AuthorizeRejection>)
    ensures
        agrees(r, authorize_request_verdict(*req)),
{
    if !str_eq(req.response_type.as_str(), "code") {
        return Err(
            AuthorizeRejection::Redirect {
                error: owned("unsupported_response_type"),
                description: owned("Only 'code' response type is supported"),
            },
        );
    }
    let missing = match &req.state {
        None => true,
        Some(s) => is_blank(s.as_str()),
    };
    if missing {
        return Err(
            AuthorizeRejection::BadRequest(
                error_body("invalid_request", "`state` parameter is required for CSRF protection"),
            ),
        );
    }
    Ok(())
}

/// The outcome of looking a client up by its public id.
#[derive(Debug, Clone, PartialEq, Eq)]
pub enum ClientLookup {
    Found(OAuthClient),
    NotFound,
    /// The store could not be read.
    Failed,
}

/// The scopes any client may ask for.
pub open spec fn standard_scope(w: Seq<char>) -> bool {
    w == "openid"@ || w == "profile"@ || w == "email"@ || w == "offline_access"@
}

/// The requested scopes a client may not ask for: neither standard nor
/// among its default scopes, in request order.
pub open spec fn invalid_scopes_spec(scope: Seq<char>, allowed: Seq<Seq<char>>) -> Seq<Seq<char>> {
    words_spec(scope).filter(|w: Seq<char>| !standard_scope(w) && !allowed.contains(w))
}

fn is_standard_scope(w: &str) -> (r: bool)
    ensures
        r == standard_scope(w@),
{
    str_eq(w, "openid") || str_eq(w, "profile") || str_eq(w, "email") || str_eq(w, "offline_access")
}

/// The scopes of a request that the client may not ask for.
pub fn invalid_scopes(scope: &str, default_scopes: &Vec<String>) -> (r: Vec<String>)
    ensures
        r@.map_values(|x: String| x@) == invalid_scopes_spec(scope@, default_scopes@.map_values(|x: String| x@)),
{
    let ws = words(scope);
    let ghost allowed = default_scopes@.map_values(|x: String| x@);
    let ghost all = ws@.map_values(|x: String| x@);
    let ghost pred = |w: Seq<char>| !standard_scope(w) && !allowed.contains(w);
    let mut out: Vec<String> = Vec::new();
    let mut i: usize = 0;
    assert(all.take(0).filter(pred) =~= Seq::<Seq<char>>::empty());
    while i < ws.len()
        invariant
            all == ws@.map_values(|x: String| x@),
            allowed == default_scopes@.map_values(|x: String| x@),
            pred == (|w: Seq<char>| !standard_scope(w) && !allowed.contains(w)),
            i <= ws@.len(),
            out@.map_values(|x: String| x@) == all.take(i as int).filter(pred),
        decreases ws@.len() - i,
    {
        let w = ws[i].as_str();
        assert(all.take(i + 1).drop_last() =~= all.take(i as int));
        reveal(Seq::filter);
        if !is_standard_scope(w) && !contains_str(default_scopes, w) {
            out.push(ws[i].clone());
            assert(out@.map_values(|x: String| x@) =~= all.take(i + 1).filter(pred));
        } else {
            assert(out@.map_values(|x: String| x@) =~= all.take(i + 1).filter(pred));
        }
        i = i + 1;
    }
    assert(all.take(ws@.len() as int) =~= all);
    out
}

/// The verdict of the checks made once the client is known, in order: it
/// must exist and be active, `redirect_uri` must be registered (or match a
/// registered `*` pattern), PKCE must be used if the client requires it, the
/// challenge method must be `S256` or `plain`, and every scope must be
/// allowed.
pub open spec fn authorize_client_verdict(req: AuthorizeRequest, lookup: ClientLookup) -> Option<(bool, Seq<char>, Seq<char>)> {
    match lookup {
        ClientLookup::NotFound => Some((true, "unauthorized_client"@, "Unknown client"@)),
        ClientLookup::Failed => Some((true, "server_error"@, "Internal error"@)),
        ClientLookup::Found(c) => {
            if !c.active {
                Some((true, "unauthorized_client"@, "Client is not active"@))
            } else if !redirect_allowed(req.redirect_uri@, c.redirect_uris@.map_values(|x: String| x@)) {
                Some((false, "invalid_request"@, "Invalid redirect_uri"@))
            } else if c.pkce_required && req.code_challenge is None {
                Some((true, "invalid_request"@, "PKCE code_challenge is required"@))
            } else if (match req.code_challenge_method {
                Some(m) => m@ != "S256"@ && m@ != "plain"@,
                None => false,
            }) {
                Some((true, "invalid_request"@, "Invalid code_challenge_method"@))
            } else {
                match req.scope {
                    Some(s) => {
                        let bad = invalid_scopes_spec(s@, c.default_scopes@.map_values(|x: String| x@));
                        if bad.len() > 0 {
                            Some((true, "invalid_scope"@, "Invalid scope(s): "@ + join_spec(bad, ", "@)))
                        } else {
                            None
                        }
                    },
                    None => None,
                }
            }
        },
    }
}

/// The checks made once the client has been looked up.
pub fn check_authorize_client(req: &AuthorizeRequest, lookup: &ClientLookup) -> (r: Result<(), AuthorizeRejection>)
    ensures
        agrees(r, authorize_client_verdict(*req, *lookup)),
{
    let client = match lookup {
        ClientLookup::Found(c) => c,
        ClientLookup::NotFound => {
            return Err(AuthorizeRejection::Redirect { error: owned("unauthorized_client"), description: owned("Unknown client") });
        },
        ClientLookup::Failed => {
            return Err(AuthorizeRejection::Redirect { error: owned("server_error"), description: owned("Internal error") });
        },
    };
    if !client.active {
        return Err(AuthorizeRejection::Redirect { error: owned("unauthorized_client"), description: owned("Client is not active") });
    }
    if !matches_redirect_uri(req.redirect_uri.as_str(), &client.redirect_uris) {
        return Err(AuthorizeRejection::BadRequest(error_body("invalid_request", "Invalid redirect_uri")));
    }
    if client.pkce_required && req.code_challenge.is_none() {
        return Err(AuthorizeRejection::Redirect { error: owned("invalid_request"), description: owned("PKCE code_challenge is required") });
    }
    if let Some(method) = &req.code_challenge_method {
        if !str_eq(method.as_str(), "S256") && !str_eq(method.as_str(), "plain") {
            return Err(AuthorizeRejection::Redirect { error: owned("invalid_request"), description: owned("Invalid code_challenge_method") });
        }
    }
    if let Some(scope) = &req.scope {
        let bad = invalid_scopes(scope.as_str(), &client.default_scopes);
        if bad.len() > 0 {
            let mut d = owned("Invalid scope(s): ");
            let listed = join(&bad, ", ");
            d.append(listed.as_str());
            return Err(AuthorizeRejection::Redirect { error: owned("invalid_scope"), description: d });
        }
    }
    Ok(())
}


/// Append `prefix` and the percent-encoded `value`.
pub fn push_param(out: &mut String, prefix: &str, value: &str)
    ensures
        final(out)@ == old(out)@ + prefix@ + enc(value@),
{
    out.append(prefix);
    let e = url_encode(value);
    out.append(e.as_str());
}

/// `&name=value` for a present value, nothing otherwise.
pub open spec fn opt_param(prefix: Seq<char>, value: Option<Seq<char>>) -> Seq<char> {
    match value {
        Some(v) => prefix + enc(v),
        None => Seq::empty(),
    }
}

pub fn push_opt_param(out: &mut String, prefix: &str, value: &Option<String>)
    ensures
        final(out)@ == old(out)@ + opt_param(prefix@, opt_view(*value)),
{
    match value {
        Some(v) => push_param(out, prefix, v.as_str()),
        None => {
            assert(old(out)@ + Seq::<char>::empty() =~= old(out)@);
        },
    }
}

/// The redirect that reports an authorization error to the client.
pub fn error_redirect_url(redirect_uri: &str, error: &str, description: &str, state: &Option<String>) -> (r: String)
    ensures
        r@ == redirect_uri@ + "?error="@ + enc(error@) + "&error_description="@ + enc(description@)
            + opt_param("&state="@, opt_view(*state)),
{
    let mut url = owned(redirect_uri);
    push_param(&mut url, "?error=", error);
    push_param(&mut url, "&error_description=", description);
    push_opt_param(&mut url, "&state=", state);
    url
}

/// The redirect that hands an authorization code to the client.
pub fn code_redirect_url(redirect_uri: &str, code: &str, state: &Option<String>) -> (r: String)
    ensures
        r@ == redirect_uri@ + "?code="@ + enc(code@) + opt_param("&state="@, opt_view(*state)),
{
    let mut url = owned(redirect_uri);
    push_param(&mut url, "?code=", code);
    push_opt_param(&mut url, "&state=", state);
    url
}

/// The login page URL that carries the OAuth request through the login.
pub fn login_redirect_url(req: &AuthorizeRequest, state_param: &str) -> (r: String)
    ensures
        r@ == "/auth/login?oauth=true&response_type=code"@ + "&client_id="@ + enc(req.client_id@)
            + "&redirect_uri="@ + enc(req.redirect_uri@) + "&state="@ + enc(state_param@)
            + opt_param("&scope="@, opt_view(req.scope))
            + opt_param("&code_challenge="@, opt_view(req.code_challenge))
            + opt_param("&code_challenge_method="@, opt_view(req.code_challenge_method))
            + opt_param("&nonce="@, opt_view(req.nonce)),
{
    let mut url = owned("/auth/login?oauth=true&response_type=code");
    push_param(&mut url, "&client_id=", req.client_id.as_str());
    push_param(&mut url, "&redirect_uri=", req.redirect_uri.as_str());
    push_param(&mut url, "&state=", state_param);
    push_opt_param(&mut url, "&scope=", &req.scope);
    push_opt_param(&mut url, "&code_challenge=", &req.code_challenge);
    push_opt_param(&mut url, "&code_challenge_method=", &req.code_challenge_method);
    push_opt_param(&mut url, "&nonce=", &req.nonce);
    url
}

/// What a validated session token tells the authorization endpoint.
#[derive(Debug, Clone, PartialEq, Eq)]
pub struct SessionClaims {
    /// The signed-in principal.
    pub sub: String,
    /// When the session token was issued (seconds since the epoch).
    pub iat: i64,
}

/// How the authorization endpoint proceeds once the request is valid.
#[derive(Debug, Clone, PartialEq, Eq)]
pub enum SessionStep {
    /// `prompt=none` without a valid session: report `login_required`.
    LoginRequired,
    /// A recent enough session: issue a code for this principal at once.
    IssueCode { principal_id: String },
    /// Send the user to log in.
    ShowLogin,
}

/// The session step: `prompt=none` demands a valid session, `prompt=login`
/// forces a new login, and a session older than `max_age` seconds is not
/// reused.
pub open spec fn session_step_spec(prompt: Option<Seq<char>>, session: Option<SessionClaims>, max_age: Option<i64>, now: i64) -> SessionStep {
    if prompt == Some("none"@) && session is None {
        SessionStep::LoginRequired
    } else if prompt != Some("login"@) && session is Some && !(max_age matches Some(m) && now - session->0.iat > m) {
        SessionStep::IssueCode { principal_id: session->0.sub }
    } else {
        SessionStep::ShowLogin
    }
}

/// Decide the session step; `session` holds the claims of a session token
/// that validated, and `now` is the current time in seconds.
pub fn authorize_session_step(prompt: Option<&str>, session: Option<&SessionClaims>, max_age: Option<i64>, now: i64) -> (r: SessionStep)
    ensures
        r == session_step_spec(
            match prompt { Some(p) => Some(p@), None => None },
            match session { Some(c) => Some(*c), None => None },
            max_age,
            now,
        ),
{
    let is_none = match prompt {
        Some(p) => str_eq(p, "none"),
        None => false,
    };
    let force_login = match prompt {
        Some(p) => str_eq(p, "login"),
        None => false,
    };
    match session {
        None => {
            if is_none {
                SessionStep::LoginRequired
            } else {
                SessionStep::ShowLogin
            }
        },
        Some(c) => {
            if force_login {
                return SessionStep::ShowLogin;
            }
            let too_old = match max_age {
                Some(m) => (now as i128) - (c.iat as i128) > (m as i128),
                None => false,
            };
            if too_old {
                SessionStep::ShowLogin
            } else {
                SessionStep::IssueCode { principal_id: c.sub.clone() }
            }
        },
    }
}

/// An OAuth error answer: HTTP status and RFC 6749 body.
#[derive(Debug, Clone, PartialEq, Eq)]
pub struct OAuthFailure {
    pub status: u16,
    pub body: ErrorResponse,
}

impl OAuthFailure {
    /// Status, error code and optional description.
    pub open spec fn outcome(self) -> (u16, Seq<char>, Option<Seq<char>>) {
        (self.status, self.body.error@, opt_view(self.body.error_description))
    }
}

fn failure(status: u16, error: &str, description: Option<&str>) -> (r: OAuthFailure)
    ensures
        r.outcome() == (status, error@, match description { Some(d) => Some(d@), None => None }),
{
    OAuthFailure {
        status,
        body: ErrorResponse {
            error: owned(error),
            error_description: match description {
                Some(d) => Some(owned(d)),
                None => None,
            },
        },
    }
}

/// The result has the expected outcome (`Ok` paired with `None`).
pub open spec fn fails_as<T>(r: Result<T, OAuthFailure>, expected: Option<(u16, Seq<char>, Option<Seq<char>>)>) -> bool {
    match r {
        Ok(_) => expected is None,
        Err(f) => expected == Some(f.outcome()),
    }
}

/// The grants the token endpoint serves.
#[derive(Debug, Clone, Copy, PartialEq, Eq, Structural)]
pub enum GrantKind {
    AuthorizationCode,
    RefreshToken,
    ClientCredentials,
    Unsupported,
}

pub open spec fn grant_kind_spec(g: Seq<char>) -> GrantKind {
    if g == "authorization_code"@ {
        GrantKind::AuthorizationCode
    } else if g == "refresh_token"@ {
        GrantKind::RefreshToken
    } else if g == "client_credentials"@ {
        GrantKind::ClientCredentials
    } else {
        GrantKind::Unsupported
    }
}

/// Which grant a token request asks for.
pub fn grant_kind(grant_type: &str) -> (r: GrantKind)
    ensures
        r == grant_kind_spec(grant_type@),
{
    if str_eq(grant_type, "authorization_code") {
        GrantKind::AuthorizationCode
    } else if str_eq(grant_type, "refresh_token") {
        GrantKind::RefreshToken
    } else if str_eq(grant_type, "client_credentials") {
        GrantKind::ClientCredentials
    } else {
        GrantKind::Unsupported
    }
}

/// The answer to an unknown grant type.
pub fn unsupported_grant(grant_type: &str) -> (r: OAuthFailure)
    ensures
        r.outcome() == (400u16, "unsupported_grant_type"@, Some("Grant type '"@ + grant_type@ + "' is not supported"@)),
{
    let mut d = owned("Grant type '");
    d.append(grant_type);
    d.append("' is not supported");
    OAuthFailure { status: 400, body: ErrorResponse { error: owned("unsupported_grant_type"), error_description: Some(d) } }
}

/// A stored authorization code, as the token endpoint redeems it.
#[derive(Debug, Clone, PartialEq, Eq)]
pub struct AuthorizationCode {
    pub code: String,
    pub client_id: String,
    pub principal_id: String,
    pub redirect_uri: String,
    pub scope: Option<String>,
    pub nonce: Option<String>,
    pub state: Option<String>,
    pub code_challenge: Option<String>,
    pub code_challenge_method: Option<String>,
    /// When it was issued (seconds since the epoch).
    pub created_at: i64,
}

/// An authorization request waiting for the user to log in.
#[derive(Debug, Clone, PartialEq, Eq)]
pub struct PendingAuthorization {
    pub client_id: String,
    pub redirect_uri: String,
    pub scope: Option<String>,
    pub nonce: Option<String>,
    pub code_challenge: Option<String>,
    pub code_challenge_method: Option<String>,
}

/// The code issued when the user of a pending request has logged in as
/// `principal_id`: it carries the request's client, redirect URI, scope and
/// nonce, and its PKCE challenge when both challenge and method were given.
pub fn issue_authorization_code(code: String, pending: PendingAuthorization, principal_id: String, now: i64) -> (r: AuthorizationCode)
    ensures
        r.code == code && r.client_id == pending.client_id && r.principal_id == principal_id,
        r.redirect_uri == pending.redirect_uri && r.scope == pending.scope && r.nonce == pending.nonce,
        r.state is None,
        (pending.code_challenge is Some && pending.code_challenge_method is Some) ==> (r.code_challenge
            == pending.code_challenge && r.code_challenge_method == pending.code_challenge_method),
        !(pending.code_challenge is Some && pending.code_challenge_method is Some) ==> (r.code_challenge is None
            && r.code_challenge_method is None),
        r.created_at == now,
{
    let with_pkce = pending.code_challenge.is_some() && pending.code_challenge_method.is_some();
    AuthorizationCode {
        code,
        client_id: pending.client_id,
        principal_id,
        redirect_uri: pending.redirect_uri,
        scope: pending.scope,
        nonce: pending.nonce,
        state: None,
        code_challenge: if with_pkce { pending.code_challenge } else { None },
        code_challenge_method: if with_pkce { pending.code_challenge_method } else { None },
        created_at: now,
    }
}

/// The code issued at once to a request whose user already has a valid
/// session as `principal_id`: it carries the request's client, redirect URI,
/// scope, nonce and state, and its PKCE challenge when both challenge and
/// method were given.
pub fn session_authorization_code(code: String, req: &AuthorizeRequest, principal_id: String, now: i64) -> (r: AuthorizationCode)
    ensures
        r.code == code && r.client_id == req.client_id && r.principal_id == principal_id,
        r.redirect_uri == req.redirect_uri && r.scope == req.scope && r.nonce == req.nonce,
        r.state == req.state,
        (req.code_challenge is Some && req.code_challenge_method is Some) ==> (r.code_challenge
            == req.code_challenge && r.code_challenge_method == req.code_challenge_method),
        !(req.code_challenge is Some && req.code_challenge_method is Some) ==> (r.code_challenge is None
            && r.code_challenge_method is None),
        r.created_at == now,
{
    let with_pkce = req.code_challenge.is_some() && req.code_challenge_method.is_some();
    AuthorizationCode {
        code,
        client_id: req.client_id.clone(),
        principal_id,
        redirect_uri: req.redirect_uri.clone(),
        scope: req.scope.clone(),
        nonce: req.nonce.clone(),
        state: req.state.clone(),
        code_challenge: if with_pkce { req.code_challenge.clone() } else { None },
        code_challenge_method: if with_pkce { req.code_challenge_method.clone() } else { None },
        created_at: now,
    }
}

/// Codes older than this many seconds are refused (RFC 6749 §4.1.2).
pub const AUTHORIZATION_CODE_TTL_SECS: i64 = 600;

/// The verdict on redeeming a consumed code at time `now`, in order: age,
/// client, redirect URI, then PKCE when the code carries a challenge.
pub open spec fn code_redemption_verdict(req: TokenRequest, code: AuthorizationCode, now: i64) -> Option<(u16, Seq<char>, Option<Seq<char>>)> {
    if now - code.created_at > 600 {
        Some((400u16, "invalid_grant"@, Some("Authorization code has expired"@)))
    } else if opt_view(req.client_id) != Some(code.client_id@) {
        Some((400u16, "invalid_grant"@, Some("Client ID mismatch"@)))
    } else if opt_view(req.redirect_uri) != Some(code.redirect_uri@) {
        Some((400u16, "invalid_grant"@, Some("Redirect URI mismatch"@)))
    } else {
        match code.code_challenge {
            None => None,
            Some(ch) => match crate::pkce::pkce_verdict(ch@, opt_view(code.code_challenge_method), opt_view(req.code_verifier)) {
                Ok(_) => None,
                Err(e) => Some((400u16, "invalid_grant"@, Some(pkce_description(e)))),
            },
        }
    }
}

pub open spec fn pkce_description(e: crate::pkce::PkceError) -> Seq<char> {
    match e {
        crate::pkce::PkceError::MissingVerifier => "Missing code_verifier"@,
        crate::pkce::PkceError::BadLength => "code_verifier must be 43-128 characters"@,
        crate::pkce::PkceError::BadCharacters => "code_verifier contains invalid characters"@,
        crate::pkce::PkceError::Mismatch => "Invalid code_verifier"@,
    }
}

fn opt_str_eq(a: &Option<String>, b: &str) -> (r: bool)
    ensures
        r == (opt_view(*a) == Some(b@)),
{
    match a {
        Some(x) => str_eq(x.as_str(), b),
        None => false,
    }
}

fn opt_as_str(a: &Option<String>) -> (r: Option<&str>)
    ensures
        (match r { Some(x) => Some(x@), None => None }) == opt_view(*a),
{
    match a {
        Some(x) => Some(x.as_str()),
        None => None,
    }
}

/// Check a consumed authorization code against the token request.
pub fn check_code_redemption(req: &TokenRequest, code: &AuthorizationCode, now: i64) -> (r: Result<(), OAuthFailure>)
    ensures
        fails_as(r, code_redemption_verdict(*req, *code, now)),
{
    if (now as i128) - (code.created_at as i128) > 600 {
        return Err(failure(400, "invalid_grant", Some("Authorization code has expired")));
    }
    if !opt_str_eq(&req.client_id, code.client_id.as_str()) {
        return Err(failure(400, "invalid_grant", Some("Client ID mismatch")));
    }
    if !opt_str_eq(&req.redirect_uri, code.redirect_uri.as_str()) {
        return Err(failure(400, "invalid_grant", Some("Redirect URI mismatch")));
    }
    match &code.code_challenge {
        None => Ok(()),
        Some(ch) => {
            let method = opt_as_str(&code.code_challenge_method);
            let verifier = opt_as_str(&req.code_verifier);
            match crate::pkce::verify_pkce(ch.as_str(), method, verifier) {
                Ok(()) => Ok(()),
                Err(e) => Err(failure(400, "invalid_grant", Some(crate::pkce::pkce_error_description(e)))),
            }
        },
    }
}

/// A token request for the code grant must carry the code.
pub fn require_code(req: &TokenRequest) -> (r: Result<String, OAuthFailure>)
    ensures
        match r {
            Ok(c) => req.code == Some(c),
            Err(f) => req.code is None && f.outcome() == (400u16, "invalid_request"@, Some("Missing 'code' parameter"@)),
        },
{
    match &req.code {
        Some(c) => Ok(c.clone()),
        None => Err(failure(400, "invalid_request", Some("Missing 'code' parameter"))),
    }
}

/// Whether a space-separated scope string holds a scope.
pub open spec fn scope_has(scope: Option<Seq<char>>, s: Seq<char>) -> bool {
    match scope {
        Some(sc) => words_spec(sc).contains(s),
        None => false,
    }
}

/// Whether the granted scope includes `wanted` (`openid` calls for an ID
/// token, `offline_access` for a refresh token).
pub fn scope_includes(scope: &Option<String>, wanted: &str) -> (r: bool)
    ensures
        r == scope_has(opt_view(*scope), wanted@),
{
    match scope {
        Some(s) => crate::text::has_word(s.as_str(), wanted),
        None => false,
    }
}

/// The scopes of a space-separated scope string, none when absent.
pub fn scope_list(scope: &Option<String>) -> (r: Vec<String>)
    ensures
        r@.map_values(|x: String| x@) == match opt_view(*scope) { Some(s) => words_spec(s), None => Seq::empty() },
{
    match scope {
        Some(s) => words(s.as_str()),
        None => {
            let v: Vec<String> = Vec::new();
            assert(v@.map_values(|x: String| x@) =~= Seq::<Seq<char>>::empty());
            v
        },
    }
}

/// Access tokens live for an hour.
pub const ACCESS_TOKEN_TTL_SECS: i64 = 3600;

/// The successful token answer.
pub fn bearer_token_response(access_token: String, refresh_token: Option<String>, id_token: Option<String>, scope: Option<String>) -> (r: TokenResponse)
    ensures
        r.access_token == access_token,
        r.token_type@ == "Bearer"@,
        r.expires_in == 3600,
        r.refresh_token == refresh_token,
        r.id_token == id_token,
        r.scope == scope,
{
    TokenResponse { access_token, token_type: owned("Bearer"), expires_in: ACCESS_TOKEN_TTL_SECS, refresh_token, id_token, scope }
}

/// A refresh grant must carry the refresh token.
pub fn require_refresh_token(req: &TokenRequest) -> (r: Result<String, OAuthFailure>)
    ensures
        match r {
            Ok(t) => req.refresh_token == Some(t),
            Err(f) => req.refresh_token is None
                && f.outcome() == (400u16, "invalid_request"@, Some("Missing refresh_token parameter"@)),
        },
{
    match &req.refresh_token {
        Some(t) => Ok(t.clone()),
        None => Err(failure(400, "invalid_request", Some("Missing refresh_token parameter"))),
    }
}

/// The outcome of looking a stored record up.
#[derive(Debug, Clone, Copy, PartialEq, Eq, Structural)]
pub enum RecordLookup {
    Found,
    NotFound,
    /// The store could not be read.
    Failed,
}

/// A grant needs the record it looked up: a missing one is an
/// `invalid_grant` with `status` and `description`, an unreadable store a
/// `500 server_error`.
pub fn require_record(lookup: RecordLookup, status: u16, description: &str) -> (r: Result<(), OAuthFailure>)
    ensures
        fails_as(r, match lookup {
            RecordLookup::Found => None,
            RecordLookup::NotFound => Some((status, "invalid_grant"@, Some(description@))),
            RecordLookup::Failed => Some((500u16, "server_error"@, None)),
        }),
{
    match lookup {
        RecordLookup::Found => Ok(()),
        RecordLookup::NotFound => Err(failure(status, "invalid_grant", Some(description))),
        RecordLookup::Failed => Err(failure(500, "server_error", None)),
    }
}

/// A refresh token bound to a client may only be used by that client.
pub fn check_refresh_binding(stored_client_id: &Option<String>, authenticated_client_id: Option<&str>) -> (r: Result<(), OAuthFailure>)
    ensures
        fails_as(r, match opt_view(*stored_client_id) {
            Some(s) => if (match authenticated_client_id { Some(a) => Some(a@), None => None }) == Some(s) {
                None
            } else {
                Some((401u16, "invalid_grant"@, Some("Token was not issued to this client"@)))
            },
            None => None,
        }),
{
    match stored_client_id {
        None => Ok(()),
        Some(s) => {
            let same = match authenticated_client_id {
                Some(a) => str_eq(a, s.as_str()),
                None => false,
            };
            if same {
                Ok(())
            } else {
                Err(failure(401, "invalid_grant", Some("Token was not issued to this client")))
            }
        },
    }
}

/// A refreshed session needs an active principal.
pub fn check_refresh_principal(active: bool) -> (r: Result<(), OAuthFailure>)
    ensures
        fails_as(r, if active { None } else { Some((401u16, "invalid_grant"@, Some("Account is not active"@))) }),
{
    if active {
        Ok(())
    } else {
        Err(failure(401, "invalid_grant", Some("Account is not active")))
    }
}

/// The audience of the ID token a refresh issues: the bound client, when the
/// scopes first granted held `openid`; no ID token otherwise.
pub fn refresh_id_token_audience(scopes: &Vec<String>, oauth_client_id: &Option<String>) -> (r: Option<String>)
    ensures
        r == (if scopes@.map_values(|x: String| x@).contains("openid"@) { *oauth_client_id } else { None }),
{
    if contains_str(scopes, "openid") {
        oauth_client_id.clone()
    } else {
        None
    }
}

/// The scope a refresh reports: the stored scopes joined by spaces, none when empty.
pub fn refresh_scope(scopes: &Vec<String>) -> (r: Option<String>)
    ensures
        scopes@.len() == 0 ==> r is None,
        scopes@.len() > 0 ==> opt_view(r) == Some(join_spec(scopes@.map_values(|x: String| x@), " "@)),
{
    if scopes.len() == 0 {
        None
    } else {
        Some(join(scopes, " "))
    }
}

/// A refresh token to store: whose it is, the client it is bound to, the
/// clients it reaches (when carried over from an earlier token) and the
/// scopes it was granted.
#[derive(Debug, Clone, PartialEq, Eq)]
pub struct RefreshTokenGrant {
    pub principal_id: String,
    pub oauth_client_id: Option<String>,
    pub accessible_clients: Option<Vec<String>>,
    pub scopes: Vec<String>,
}

/// What a grant issues besides the access token: the audience and nonce of
/// the ID token, the refresh token to store, and the scope the answer reports.
#[derive(Debug, Clone, PartialEq, Eq)]
pub struct TokenPlan {
    pub id_token: Option<(String, Option<String>)>,
    pub refresh_token: Option<RefreshTokenGrant>,
    pub scope: Option<String>,
}

/// The words of an optional scope string, none when absent.
pub open spec fn scope_words(scope: Option<Seq<char>>) -> Seq<Seq<char>> {
    match scope {
        Some(s) => words_spec(s),
        None => Seq::empty(),
    }
}

/// What a redeemed code yields: an ID token for the code's client, with the
/// code's nonce, only when its scope holds `openid`; a refresh token of the
/// code's principal, bound to the code's client and granted the scope's
/// words, only when the scope holds `offline_access`; and the code's scope
/// as it was.
pub open spec fn code_plan_matches(r: TokenPlan, code: AuthorizationCode) -> bool {
    &&& r.id_token is Some <==> scope_has(opt_view(code.scope), "openid"@)
    &&& r.id_token matches Some((aud, nonce)) ==> aud == code.client_id && nonce == code.nonce
    &&& r.refresh_token is Some <==> scope_has(opt_view(code.scope), "offline_access"@)
    &&& r.refresh_token matches Some(t) ==> {
        &&& t.principal_id == code.principal_id
        &&& t.oauth_client_id == Some(code.client_id)
        &&& t.accessible_clients is None
        &&& t.scopes@.map_values(|x: String| x@) == scope_words(opt_view(code.scope))
    }
    &&& r.scope == code.scope
}

pub fn code_grant_plan(code: &AuthorizationCode) -> (r: TokenPlan)
    ensures
        code_plan_matches(r, *code),
{
    let id_token = if scope_includes(&code.scope, "openid") {
        Some((code.client_id.clone(), code.nonce.clone()))
    } else {
        None
    };
    let refresh_token = if scope_includes(&code.scope, "offline_access") {
        Some(RefreshTokenGrant {
            principal_id: code.principal_id.clone(),
            oauth_client_id: Some(code.client_id.clone()),
            accessible_clients: None,
            scopes: scope_list(&code.scope),
        })
    } else {
        None
    };
    TokenPlan { id_token, refresh_token, scope: code.scope.clone() }
}

/// A stored refresh token, as a refresh grant reads it.
#[derive(Debug, Clone, PartialEq, Eq)]
pub struct StoredRefreshToken {
    pub principal_id: String,
    pub oauth_client_id: Option<String>,
    pub accessible_clients: Vec<String>,
    pub scopes: Vec<String>,
}

/// What a refresh yields once the old token is revoked: an ID token for the
/// bound client, without a nonce, only when the stored scopes hold `openid`
/// and a client is bound; always a new refresh token of the same principal
/// that keeps the bound client, the reachable clients and the scopes; and
/// the stored scopes joined by spaces as the scope, none when empty.
pub open spec fn rotation_plan_matches(r: TokenPlan, stored: StoredRefreshToken) -> bool {
    &&& r.id_token is Some <==> (stored.scopes@.map_values(|x: String| x@).contains("openid"@)
        && stored.oauth_client_id is Some)
    &&& r.id_token matches Some((aud, nonce)) ==> Some(aud) == stored.oauth_client_id && nonce is None
    &&& r.refresh_token matches Some(t) && {
        &&& t.principal_id == stored.principal_id
        &&& t.oauth_client_id == stored.oauth_client_id
        &&& t.accessible_clients matches Some(a) && a@ == stored.accessible_clients@
        &&& t.scopes@ == stored.scopes@
    }
    &&& stored.scopes@.len() == 0 ==> r.scope is None
    &&& stored.scopes@.len() > 0 ==> opt_view(r.scope) == Some(
        join_spec(stored.scopes@.map_values(|x: String| x@), " "@),
    )
}

pub fn refresh_rotation_plan(stored: &StoredRefreshToken) -> (r: TokenPlan)
    ensures
        rotation_plan_matches(r, *stored),
{
    let id_token = match refresh_id_token_audience(&stored.scopes, &stored.oauth_client_id) {
        Some(aud) => Some((aud, None)),
        None => None,
    };
    let refresh_token = Some(RefreshTokenGrant {
        principal_id: stored.principal_id.clone(),
        oauth_client_id: stored.oauth_client_id.clone(),
        accessible_clients: Some(crate::text::copy_strings(&stored.accessible_clients)),
        scopes: crate::text::copy_strings(&stored.scopes),
    });
    TokenPlan { id_token, refresh_token, scope: refresh_scope(&stored.scopes) }
}

/// What the client-credentials grant issues besides the access token: no ID
/// token, no refresh token and no scope.
pub open spec fn client_credentials_plan_matches(r: TokenPlan) -> bool {
    r.id_token is None && r.refresh_token is None && r.scope is None
}

pub fn client_credentials_plan() -> (r: TokenPlan)
    ensures
        client_credentials_plan_matches(r),
{
    TokenPlan { id_token: None, refresh_token: None, scope: None }
}

/// The outcome of looking up the authorization code a request redeems
/// (consuming it).
#[derive(Debug, Clone, PartialEq, Eq)]
pub enum CodeLookup {
    Found(AuthorizationCode),
    NotFound,
    /// The store could not be read.
    Failed,
}

/// The outcome of looking up the stored refresh token a request presents.
#[derive(Debug, Clone, PartialEq, Eq)]
pub enum RefreshTokenLookup {
    Found(StoredRefreshToken),
    NotFound,
    /// The store could not be read.
    Failed,
}

/// The refusal, if any, of a code grant, checks taken in order: the code
/// parameter, the code's lookup, its redemption, the principal's lookup.
pub open spec fn code_grant_verdict(req: TokenRequest, code: CodeLookup, principal: RecordLookup, now: i64) -> Option<(u16, Seq<char>, Option<Seq<char>>)> {
    if req.code is None {
        Some((400u16, "invalid_request"@, Some("Missing 'code' parameter"@)))
    } else {
        match code {
            CodeLookup::Failed => Some((500u16, "server_error"@, None)),
            CodeLookup::NotFound => Some((400u16, "invalid_grant"@, Some("Invalid or expired authorization code"@))),
            CodeLookup::Found(c) => match code_redemption_verdict(req, c, now) {
                Some(o) => Some(o),
                None => match principal {
                    RecordLookup::Found => None,
                    RecordLookup::NotFound => Some((400u16, "invalid_grant"@, Some("Principal not found"@))),
                    RecordLookup::Failed => Some((500u16, "server_error"@, None)),
                },
            },
        }
    }
}

/// The authorization-code grant: the first refusal, or what the redeemed
/// code yields. `code` is the lookup of the request's code, `principal` that
/// of the code's principal; a lookup the checks never reach does not change
/// the answer.
pub fn authorization_code_grant(req: &TokenRequest, code: &CodeLookup, principal: RecordLookup, now: i64) -> (r: Result<TokenPlan, OAuthFailure>)
    ensures
        match code_grant_verdict(*req, *code, principal, now) {
            Some(o) => r matches Err(f) && f.outcome() == o,
            None => r matches Ok(p) && code is Found && code_plan_matches(p, code->0),
        },
{
    match require_code(req) {
        Ok(_) => {},
        Err(f) => return Err(f),
    }
    let c = match code {
        CodeLookup::Failed => return Err(failure(500, "server_error", None)),
        CodeLookup::NotFound => return Err(failure(400, "invalid_grant", Some("Invalid or expired authorization code"))),
        CodeLookup::Found(c) => c,
    };
    match check_code_redemption(req, c, now) {
        Ok(()) => {},
        Err(f) => return Err(f),
    }
    match require_record(principal, 400, "Principal not found") {
        Ok(()) => {},
        Err(f) => return Err(f),
    }
    Ok(code_grant_plan(c))
}

/// The refusal, if any, of a refresh grant, checks taken in order: the token
/// parameter, the token's lookup, its client binding, the revocation of the
/// old token, the principal's lookup and whether it is active.
pub open spec fn refresh_grant_verdict(
    req: TokenRequest,
    stored: RefreshTokenLookup,
    authenticated_client_id: Option<Seq<char>>,
    revoked: bool,
    principal: PrincipalLookup,
) -> Option<(u16, Seq<char>, Option<Seq<char>>)> {
    if req.refresh_token is None {
        Some((400u16, "invalid_request"@, Some("Missing refresh_token parameter"@)))
    } else {
        match stored {
            RefreshTokenLookup::Failed => Some((500u16, "server_error"@, None)),
            RefreshTokenLookup::NotFound => Some((401u16, "invalid_grant"@, Some("Invalid or expired refresh token"@))),
            RefreshTokenLookup::Found(t) => if t.oauth_client_id is Some && authenticated_client_id != opt_view(t.oauth_client_id) {
                Some((401u16, "invalid_grant"@, Some("Token was not issued to this client"@)))
            } else if !revoked {
                Some((500u16, "server_error"@, None))
            } else {
                match principal {
                    PrincipalLookup::Failed => Some((500u16, "server_error"@, None)),
                    PrincipalLookup::NotFound => Some((401u16, "invalid_grant"@, Some("Principal not found"@))),
                    PrincipalLookup::Found { active } => if active {
                        None
                    } else {
                        Some((401u16, "invalid_grant"@, Some("Account is not active"@)))
                    },
                }
            },
        }
    }
}

/// The refresh grant: the first refusal, or the rotation of the stored
/// token. `revoked` says whether revoking the old token succeeded.
pub fn refresh_token_grant(
    req: &TokenRequest,
    stored: &RefreshTokenLookup,
    authenticated_client_id: Option<&str>,
    revoked: bool,
    principal: PrincipalLookup,
) -> (r: Result<TokenPlan, OAuthFailure>)
    ensures
        match refresh_grant_verdict(
            *req,
            *stored,
            match authenticated_client_id { Some(a) => Some(a@), None => None },
            revoked,
            principal,
        ) {
            Some(o) => r matches Err(f) && f.outcome() == o,
            None => r matches Ok(p) && stored is Found && rotation_plan_matches(p, stored->0),
        },
{
    match require_refresh_token(req) {
        Ok(_) => {},
        Err(f) => return Err(f),
    }
    let t = match stored {
        RefreshTokenLookup::Failed => return Err(failure(500, "server_error", None)),
        RefreshTokenLookup::NotFound => return Err(failure(401, "invalid_grant", Some("Invalid or expired refresh token"))),
        RefreshTokenLookup::Found(t) => t,
    };
    match check_refresh_binding(&t.oauth_client_id, authenticated_client_id) {
        Ok(()) => {},
        Err(f) => return Err(f),
    }
    if !revoked {
        return Err(failure(500, "server_error", None));
    }
    match principal {
        PrincipalLookup::Failed => return Err(failure(500, "server_error", None)),
        PrincipalLookup::NotFound => return Err(failure(401, "invalid_grant", Some("Principal not found"))),
        PrincipalLookup::Found { active } => match check_refresh_principal(active) {
            Ok(()) => {},
            Err(f) => return Err(f),
        },
    }
    Ok(refresh_rotation_plan(t))
}

/// The refusal, if any, of a client-credentials grant, checks taken in
/// order: the id and secret parameters, the client, its service-account
/// principal.
pub open spec fn client_credentials_grant_verdict(
    req: TokenRequest,
    client: ClientLookup,
    decrypted: Option<Seq<char>>,
    principal: PrincipalLookup,
) -> Option<(u16, Seq<char>, Option<Seq<char>>)> {
    if req.client_id is None {
        Some((400u16, "invalid_request"@, Some("Missing client_id"@)))
    } else if req.client_secret is None {
        Some((400u16, "invalid_request"@, Some("Missing client_secret"@)))
    } else {
        match client_credentials_verdict(client, req.client_secret->0@, decrypted) {
            Err(o) => Some(o),
            Ok(_) => match principal {
                PrincipalLookup::Found { active } => if active {
                    None
                } else {
                    Some((401u16, "invalid_client"@, Some("Service account is not active"@)))
                },
                PrincipalLookup::NotFound => Some((500u16, "server_error"@, Some("Client not properly configured"@))),
                PrincipalLookup::Failed => Some((500u16, "server_error"@, None)),
            },
        }
    }
}

/// The client-credentials grant: the first refusal, or a plan with no ID
/// token, no refresh token and no scope. `client` is the lookup of the
/// request's client id, `decrypted` its stored secret after decryption,
/// `principal` the lookup of its service-account principal.
pub fn client_credentials_grant(
    req: &TokenRequest,
    client: &ClientLookup,
    decrypted: &Option<String>,
    principal: PrincipalLookup,
) -> (r: Result<TokenPlan, OAuthFailure>)
    ensures
        match client_credentials_grant_verdict(*req, *client, opt_view(*decrypted), principal) {
            Some(o) => r matches Err(f) && f.outcome() == o,
            None => r matches Ok(p) && client_credentials_plan_matches(p),
        },
{
    let (_id, secret) = match require_client_credentials(req) {
        Ok(c) => c,
        Err(f) => return Err(f),
    };
    match check_client_credentials_client(client, secret.as_str(), decrypted) {
        Ok(_) => {},
        Err(f) => return Err(f),
    }
    match check_service_principal(principal) {
        Ok(()) => {},
        Err(f) => return Err(f),
    }
    Ok(client_credentials_plan())
}

/// The headers of every token answer: it must not be cached.
pub fn token_response_headers() -> (r: Vec<(String, String)>)
    ensures
        r@.len() == 2,
        r@[0].0@ == "cache-control"@ && r@[0].1@ == "no-store"@,
        r@[1].0@ == "pragma"@ && r@[1].1@ == "no-cache"@,
{
    vec![(owned("cache-control"), owned("no-store")), (owned("pragma"), owned("no-cache"))]
}

/// Whether revocation should treat the token as a refresh token.
pub fn is_refresh_hint(hint: &Option<String>) -> (r: bool)
    ensures
        r == (opt_view(*hint) == Some("refresh_token"@)),
{
    opt_str_eq(hint, "refresh_token")
}


/// Credentials a client presented.
#[derive(Debug, Clone, PartialEq, Eq)]
pub struct ClientCredentials {
    pub client_id: String,
    pub client_secret: Option<String>,
}

/// An empty secret counts as no secret.
pub open spec fn nonempty(s: Seq<char>) -> Option<Seq<char>> {
    if s.len() == 0 { None } else { Some(s) }
}

/// The credentials carried by an `Authorization: Basic` header value's
/// base64 payload, or the failure description.
pub open spec fn basic_credentials_spec(payload: Seq<char>) -> Result<(Seq<char>, Option<Seq<char>>), Seq<char>> {
    match base64_decode_spec(payload, false, true) {
        None => Err("Invalid Basic auth encoding"@),
        Some(bytes) => if !vstd::utf8::valid_utf8(bytes) {
            Err("Invalid Basic auth encoding"@)
        } else {
            let text = vstd::utf8::decode_utf8(bytes);
            match crate::text::index_of_spec(text, ':') {
                None => Err("Invalid Basic auth format"@),
                Some(i) => Ok((text.take(i), nonempty(text.skip(i + 1)))),
            }
        },
    }
}

/// Where the client credentials come from: a `Basic` authorization header
/// first, then the form body.
pub open spec fn client_credentials_spec(authorization: Option<Seq<char>>, body_id: Option<Seq<char>>, body_secret: Option<Seq<char>>) -> Result<(Seq<char>, Option<Seq<char>>), (u16, Seq<char>, Option<Seq<char>>)> {
    if authorization is Some && "Basic "@.is_prefix_of(authorization->0) {
        match basic_credentials_spec(authorization->0.skip(6)) {
            Ok(c) => Ok(c),
            Err(d) => Err((401u16, "invalid_client"@, Some(d))),
        }
    } else {
        match body_id {
            Some(id) => Ok((id, body_secret)),
            None => Err((401u16, "invalid_client"@, Some("Missing client credentials"@))),
        }
    }
}

pub open spec fn opt_str_view(o: Option<&str>) -> Option<Seq<char>> {
    match o {
        Some(s) => Some(s@),
        None => None,
    }
}

/// Read the client credentials of a token, introspection or revocation request.
pub fn parse_client_credentials(authorization: Option<&str>, body_id: Option<&str>, body_secret: Option<&str>) -> (r: Result<ClientCredentials, OAuthFailure>)
    ensures
        match (r, client_credentials_spec(opt_str_view(authorization), opt_str_view(body_id), opt_str_view(body_secret))) {
            (Ok(c), Ok((id, secret))) => c.client_id@ == id && opt_view(c.client_secret) == secret,
            (Err(f), Err(o)) => f.outcome() == o,
            _ => false,
        },
{
    let basic = match authorization {
        Some(h) => if crate::text::starts_with(h, "Basic ") {
            proof {
                reveal_strlit("Basic ");
            }
            Some(h.substring_char(6, h.unicode_len()))
        } else {
            None
        },
        None => None,
    };
    match basic {
        Some(payload) => {
            proof {
                assert(payload@ == authorization->0@.skip(6));
            }
            let bytes = match base64_std_decode(payload) {
                Some(b) => b,
                None => return Err(failure(401, "invalid_client", Some("Invalid Basic auth encoding"))),
            };
            let text = match utf8_decode(bytes) {
                Some(t) => t,
                None => return Err(failure(401, "invalid_client", Some("Invalid Basic auth encoding"))),
            };
            let t = text.as_str();
            match crate::text::index_of(t, ':') {
                None => Err(failure(401, "invalid_client", Some("Invalid Basic auth format"))),
                Some(i) => {
                    let id = crate::text::substring(t, 0, i);
                    let n = t.unicode_len();
                    let secret = if i + 1 == n {
                        None
                    } else {
                        Some(crate::text::substring(t, i + 1, n))
                    };
                    proof {
                        assert(t@.take(i as int) =~= t@.subrange(0, i as int));
                        assert(t@.skip(i + 1) =~= t@.subrange(i + 1, n as int));
                    }
                    Ok(ClientCredentials { client_id: id, client_secret: secret })
                },
            }
        },
        None => match body_id {
            Some(id) => Ok(ClientCredentials {
                client_id: owned(id),
                client_secret: match body_secret {
                    Some(s) => Some(owned(s)),
                    None => None,
                },
            }),
            None => Err(failure(401, "invalid_client", Some("Missing client credentials"))),
        },
    }
}

/// The verdict on an authenticating client: it must exist and be active; a
/// public client (no stored secret) must not present a secret; a
/// confidential one must present the secret that `decrypted` holds (the
/// stored secret after decryption, `None` when it could not be decrypted).
pub open spec fn client_auth_verdict(lookup: ClientLookup, presented: Option<Seq<char>>, decrypted: Option<Seq<char>>) -> Option<(u16, Seq<char>, Option<Seq<char>>)> {
    match lookup {
        ClientLookup::NotFound => Some((401u16, "invalid_client"@, Some("Unknown client"@))),
        ClientLookup::Failed => Some((500u16, "server_error"@, None)),
        ClientLookup::Found(c) => if !c.active {
            Some((401u16, "invalid_client"@, Some("Client is not active"@)))
        } else if c.client_secret_ref is None {
            if presented is Some {
                Some((401u16, "invalid_client"@, Some("Public clients must not provide a client_secret"@)))
            } else {
                None
            }
        } else if presented is None {
            Some((401u16, "invalid_client"@, Some("Client secret required for confidential clients"@)))
        } else if decrypted != presented {
            Some((401u16, "invalid_client"@, Some("Invalid client credentials"@)))
        } else {
            None
        },
    }
}

/// Authenticate a looked-up client with the secret it presented.
pub fn check_client_authentication(lookup: &ClientLookup, presented: &Option<String>, decrypted: &Option<String>) -> (r: Result<(), OAuthFailure>)
    ensures
        fails_as(r, client_auth_verdict(*lookup, opt_view(*presented), opt_view(*decrypted))),
{
    let c = match lookup {
        ClientLookup::NotFound => return Err(failure(401, "invalid_client", Some("Unknown client"))),
        ClientLookup::Failed => return Err(failure(500, "server_error", None)),
        ClientLookup::Found(c) => c,
    };
    if !c.active {
        return Err(failure(401, "invalid_client", Some("Client is not active")));
    }
    if c.client_secret_ref.is_none() {
        if presented.is_some() {
            return Err(failure(401, "invalid_client", Some("Public clients must not provide a client_secret")));
        }
        return Ok(());
    }
    let p = match presented {
        None => return Err(failure(401, "invalid_client", Some("Client secret required for confidential clients"))),
        Some(p) => p,
    };
    let verified = match decrypted {
        Some(d) => str_eq(d.as_str(), p.as_str()),
        None => false,
    };
    if !verified {
        return Err(failure(401, "invalid_client", Some("Invalid client credentials")));
    }
    Ok(())
}

/// The client-credentials grant needs both the id and the secret in the body.
pub fn require_client_credentials(req: &TokenRequest) -> (r: Result<(String, String), OAuthFailure>)
    ensures
        match r {
            Ok((id, secret)) => req.client_id == Some(id) && req.client_secret == Some(secret),
            Err(f) => (req.client_id is None && f.outcome() == (400u16, "invalid_request"@, Some("Missing client_id"@)))
                || (req.client_id is Some && req.client_secret is None && f.outcome() == (400u16, "invalid_request"@, Some("Missing client_secret"@))),
        },
{
    let id = match &req.client_id {
        Some(i) => i.clone(),
        None => return Err(failure(400, "invalid_request", Some("Missing client_id"))),
    };
    let secret = match &req.client_secret {
        Some(s) => s.clone(),
        None => return Err(failure(400, "invalid_request", Some("Missing client_secret"))),
    };
    Ok((id, secret))
}

/// The verdict on a client-credentials client: an active confidential
/// client whose decrypted secret equals the presented one, linked to a
/// service-account principal; on success the principal's id.
pub open spec fn client_credentials_verdict(lookup: ClientLookup, secret: Seq<char>, decrypted: Option<Seq<char>>) -> Result<Seq<char>, (u16, Seq<char>, Option<Seq<char>>)> {
    match lookup {
        ClientLookup::Failed => Err((500u16, "server_error"@, None)),
        ClientLookup::NotFound => Err((401u16, "invalid_client"@, Some("Invalid client credentials"@))),
        ClientLookup::Found(c) => if !c.active {
            Err((401u16, "invalid_client"@, Some("Invalid client credentials"@)))
        } else if c.client_type != crate::oauth_clients::OAuthClientType::Confidential {
            Err((401u16, "unauthorized_client"@, Some("Public clients cannot use client_credentials grant"@)))
        } else if c.client_secret_ref is None {
            Err((401u16, "invalid_client"@, Some("Invalid client credentials"@)))
        } else if decrypted != Some(secret) {
            Err((401u16, "invalid_client"@, Some("Invalid client credentials"@)))
        } else {
            match c.service_account_principal_id {
                None => Err((500u16, "server_error"@, Some("Client not properly configured"@))),
                Some(p) => Ok(p@),
            }
        },
    }
}

/// Check a client for the client-credentials grant; `decrypted` is the
/// stored secret after decryption (`None` when it could not be decrypted).
pub fn check_client_credentials_client(lookup: &ClientLookup, secret: &str, decrypted: &Option<String>) -> (r: Result<String, OAuthFailure>)
    ensures
        match (r, client_credentials_verdict(*lookup, secret@, opt_view(*decrypted))) {
            (Ok(p), Ok(q)) => p@ == q,
            (Err(f), Err(o)) => f.outcome() == o,
            _ => false,
        },
{
    let c = match lookup {
        ClientLookup::Failed => return Err(failure(500, "server_error", None)),
        ClientLookup::NotFound => return Err(failure(401, "invalid_client", Some("Invalid client credentials"))),
        ClientLookup::Found(c) => c,
    };
    if !c.active {
        return Err(failure(401, "invalid_client", Some("Invalid client credentials")));
    }
    if c.client_type != crate::oauth_clients::OAuthClientType::Confidential {
        return Err(failure(401, "unauthorized_client", Some("Public clients cannot use client_credentials grant")));
    }
    if c.client_secret_ref.is_none() {
        return Err(failure(401, "invalid_client", Some("Invalid client credentials")));
    }
    let verified = match decrypted {
        Some(d) => str_eq(d.as_str(), secret),
        None => false,
    };
    if !verified {
        return Err(failure(401, "invalid_client", Some("Invalid client credentials")));
    }
    match &c.service_account_principal_id {
        None => Err(failure(500, "server_error", Some("Client not properly configured"))),
        Some(p) => Ok(p.clone()),
    }
}

/// The outcome of looking up a principal.
#[derive(Debug, Clone, Copy, PartialEq, Eq, Structural)]
pub enum PrincipalLookup {
    Found { active: bool },
    NotFound,
    Failed,
}

/// The service-account principal of a client-credentials grant must exist
/// and be active.
pub fn check_service_principal(lookup: PrincipalLookup) -> (r: Result<(), OAuthFailure>)
    ensures
        fails_as(r, match lookup {
            PrincipalLookup::Found { active } => if active { None } else {
                Some((401u16, "invalid_client"@, Some("Service account is not active"@)))
            },
            PrincipalLookup::NotFound => Some((500u16, "server_error"@, Some("Client not properly configured"@))),
            PrincipalLookup::Failed => Some((500u16, "server_error"@, None)),
        }),
{
    match lookup {
        PrincipalLookup::Found { active } => if active {
            Ok(())
        } else {
            Err(failure(401, "invalid_client", Some("Service account is not active")))
        },
        PrincipalLookup::NotFound => Err(failure(500, "server_error", Some("Client not properly configured"))),
        PrincipalLookup::Failed => Err(failure(500, "server_error", None)),
    }
}


/// The claims of a validated access token.
#[derive(Debug, Clone, PartialEq, Eq)]
pub struct AccessTokenClaims {
    pub sub: String,
    pub email: Option<String>,
    pub name: String,
    pub scope: String,
    pub principal_type: String,
    /// Accessible clients as `id:identifier`, or `*` for all.
    pub clients: Vec<String>,
    pub roles: Vec<String>,
    pub applications: Vec<String>,
    pub exp: i64,
    pub iat: i64,
    pub iss: String,
}

/// The `client_id` userinfo reports: the id part of the first accessible
/// client, none when there is none or it is `*`.
pub open spec fn userinfo_client_id(clients: Seq<Seq<char>>) -> Option<Seq<char>> {
    if clients.len() == 0 || clients[0] == "*"@ {
        None
    } else {
        Some(crate::text::split_spec(clients[0], ':')[0])
    }
}

/// The userinfo answer for validated access-token claims.
pub fn userinfo_response(claims: AccessTokenClaims) -> (r: UserInfoResponse)
    ensures
        r.sub == claims.sub,
        r.email == claims.email,
        r.name == Some(claims.name),
        r.scope == Some(claims.scope),
        r.principal_type == Some(claims.principal_type),
        opt_view(r.client_id) == userinfo_client_id(claims.clients@.map_values(|x: String| x@)),
        r.clients == Some(claims.clients),
        r.roles == Some(claims.roles),
        r.applications == Some(claims.applications),
{
    let ghost cv = claims.clients@.map_values(|x: String| x@);
    let client_id = if claims.clients.len() == 0 {
        None
    } else {
        let first = claims.clients[0].as_str();
        if str_eq(first, "*") {
            None
        } else {
            let parts = crate::text::split(first, ':');
            proof {
                crate::text::lemma_split_len(first@, ':');
                assert(parts@.map_values(|x: String| x@)[0] == parts@[0]@);
            }
            Some(parts[0].clone())
        }
    };
    UserInfoResponse {
        sub: claims.sub,
        email: claims.email,
        name: Some(claims.name),
        scope: Some(claims.scope),
        principal_type: Some(claims.principal_type),
        client_id,
        clients: Some(claims.clients),
        roles: Some(claims.roles),
        applications: Some(claims.applications),
    }
}

/// The introspection answer for a token that validated.
pub fn introspection_active(claims: AccessTokenClaims) -> (r: IntrospectResponse)
    ensures
        r.active,
        r.sub == Some(claims.sub),
        r.scope == Some(claims.scope),
        r.client_id == (if claims.clients@.len() > 0 { Some(claims.clients@[0]) } else { None::<String> }),
        r.email == claims.email,
        r.name == Some(claims.name),
        r.principal_type == Some(claims.principal_type),
        r.exp == Some(claims.exp),
        r.iat == Some(claims.iat),
        r.iss == Some(claims.iss),
        opt_view(r.token_type) == Some("Bearer"@),
{
    let client_id = if claims.clients.len() > 0 { Some(claims.clients[0].clone()) } else { None };
    IntrospectResponse {
        active: true,
        sub: Some(claims.sub),
        scope: Some(claims.scope),
        client_id,
        email: claims.email,
        name: Some(claims.name),
        principal_type: Some(claims.principal_type),
        exp: Some(claims.exp),
        iat: Some(claims.iat),
        iss: Some(claims.iss),
        token_type: Some(owned("Bearer")),
    }
}

/// The introspection answer for any token that did not validate (RFC 7662:
/// only `active: false`).
pub fn introspection_inactive() -> (r: IntrospectResponse)
    ensures
        !r.active,
        r.sub is None && r.scope is None && r.client_id is None && r.email is None && r.name is None,
        r.principal_type is None && r.exp is None && r.iat is None && r.iss is None && r.token_type is None,
{
    IntrospectResponse {
        active: false,
        sub: None,
        scope: None,
        client_id: None,
        email: None,
        name: None,
        principal_type: None,
        exp: None,
        iat: None,
        iss: None,
        token_type: None,
    }
}

} // verus!

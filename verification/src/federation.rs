//! Login through an external OpenID Connect provider: which login method a
//! domain uses, the checks before redirecting to the provider, the provider's
//! endpoints, the checks on the callback, and where the browser goes next.

use vstd::prelude::*;
use crate::oauth::{enc, opt_param, push_param, push_opt_param};
use crate::text::{contains_str, opt_view};
use crate::oidc::{DomainCheckResponse, InteractionLoginResponse, OidcCallbackParams};
use crate::oauth::RecordLookup;
use crate::encoding::{base64_spec, sha256_spec};
use vstd::utf8::encode_utf8;
use crate::redirect::{first_occurrence, find_from, lemma_first_occurrence_bounds,
    lemma_first_occurrence_shift};
use crate::text::{string_views, chars_of, copy_opt, index_of, index_of_spec, lowercase_spec, owned, split, split_spec,
    str_eq, substring, to_lowercase, trim, trim_spec};

verus! {

/// How a provider authenticates users.
#[derive(Debug, Clone, Copy, PartialEq, Eq, Structural)]
pub enum IdentityProviderType {
    Internal,
    Oidc,
}

/// A configured identity provider.
#[derive(Debug, Clone, PartialEq, Eq)]
pub struct IdentityProvider {
    pub id: String,
    pub code: String,
    pub name: String,
    pub provider_type: IdentityProviderType,
    pub oidc_issuer_url: Option<String>,
    pub oidc_client_id: Option<String>,
    /// The stored (possibly encrypted) client secret.
    pub oidc_client_secret_ref: Option<String>,
    pub oidc_multi_tenant: bool,
    /// Regular expression that issuers of a multi-tenant provider must match.
    pub oidc_issuer_pattern: Option<String>,
    /// Email domains the provider may log in; empty means any.
    pub allowed_email_domains: Vec<String>,
}

/// The kind of user an email domain brings in.
#[derive(Debug, Clone, Copy, PartialEq, Eq, Structural)]
pub enum ScopeType {
    Anchor,
    Partner,
    Client,
}

/// The scope a logged-in user acts with.
#[derive(Debug, Clone, Copy, PartialEq, Eq, Structural)]
pub enum UserScope {
    Anchor,
    Partner,
    Client,
}

/// Which provider serves an email domain, and on what terms.
#[derive(Debug, Clone, PartialEq, Eq)]
pub struct EmailDomainMapping {
    pub id: String,
    pub email_domain: String,
    pub identity_provider_id: String,
    pub scope_type: ScopeType,
    pub primary_client_id: Option<String>,
    /// When set, the provider's token must carry this tenant id.
    pub required_oidc_tenant_id: Option<String>,
    /// When not empty, only these roles are synchronised from the provider.
    pub allowed_role_ids: Vec<String>,
}

/// What is kept between sending the user to the provider and its callback.
#[derive(Debug, Clone, PartialEq, Eq)]
pub struct OidcLoginState {
    pub state: String,
    pub email_domain: String,
    pub identity_provider_id: String,
    pub email_domain_mapping_id: String,
    pub nonce: String,
    pub code_verifier: String,
    pub return_url: Option<String>,
    pub oauth_client_id: Option<String>,
    pub oauth_redirect_uri: Option<String>,
    pub oauth_scope: Option<String>,
    pub oauth_state: Option<String>,
    pub oauth_code_challenge: Option<String>,
    pub oauth_code_challenge_method: Option<String>,
    pub oauth_nonce: Option<String>,
    pub interaction_uid: Option<String>,
}

// ---------------------------------------------------------------- domain check

/// The domain of a login email: the text after the first `@` of the trimmed,
/// lower-cased address, when that `@` is neither its first nor its last
/// character.
pub open spec fn email_domain_spec(email: Seq<char>) -> Option<Seq<char>> {
    let e = lowercase_spec(trim_spec(email));
    match index_of_spec(e, '@') {
        Some(i) => if 0 < i && i < e.len() - 1 { Some(e.skip(i + 1)) } else { None },
        None => None,
    }
}

/// The domain of a login email, or `None` for an invalid email format.
pub fn email_domain_of(email: &str) -> (r: Option<String>)
    ensures
        opt_view(r) == email_domain_spec(email@),
{
    let t = trim(email);
    let e = to_lowercase(t.as_str());
    match index_of(e.as_str(), '@') {
        Some(i) => {
            let n = e.as_str().unicode_len();
            if 0 < i && i + 1 < n {
                Some(substring(e.as_str(), i + 1, n))
            } else {
                None
            }
        },
        None => None,
    }
}

/// Whether the provider logs users in through OIDC and names its issuer.
pub open spec fn federates(idp: IdentityProvider) -> bool {
    idp.provider_type == IdentityProviderType::Oidc && idp.oidc_issuer_url is Some
}

/// Whether a domain check sends the user to the provider's login.
pub open spec fn sends_to_provider(is_anchor: bool, idp: Option<IdentityProvider>) -> bool {
    !is_anchor && idp is Some && federates(idp->0)
}

/// The answer to a domain check. Anchor domains log in internally; so do
/// domains without a mapping or provider (`idp` is `None`) and those whose
/// provider does not federate. The others are sent to the OIDC login.
pub fn domain_check_response(domain: &str, is_anchor: bool, idp: &Option<IdentityProvider>) -> (r: DomainCheckResponse)
    ensures
        sends_to_provider(is_anchor, *idp) ==> {
            &&& r.auth_method@ == "external"@
            &&& opt_view(r.login_url) == Some("/auth/oidc/login?domain="@ + domain@)
            &&& r.idp_issuer == idp->0.oidc_issuer_url
        },
        !sends_to_provider(is_anchor, *idp) ==> {
            &&& r.auth_method@ == "internal"@
            &&& r.login_url is None
            &&& r.idp_issuer is None
        },
{
    if !is_anchor {
        if let Some(p) = idp {
            if p.provider_type == IdentityProviderType::Oidc && p.oidc_issuer_url.is_some() {
                let mut url = owned("/auth/oidc/login?domain=");
                url.append(domain);
                return DomainCheckResponse {
                    auth_method: owned("external"),
                    login_url: Some(url),
                    idp_issuer: copy_opt(&p.oidc_issuer_url),
                };
            }
        }
    }
    DomainCheckResponse { auth_method: owned("internal"), login_url: None, idp_issuer: None }
}

// ---------------------------------------------------------------- starting the login

/// How the login start answers a request it refuses.
#[derive(Debug, Clone, PartialEq, Eq)]
pub struct LoginRejection {
    /// The HTTP status.
    pub status: u16,
    pub error: String,
}

impl LoginRejection {
    pub open spec fn outcome(self) -> (u16, Seq<char>) {
        (self.status, self.error@)
    }
}

fn rejection(status: u16, head: &str, domain: &str, tail: &str) -> (r: LoginRejection)
    ensures
        r.outcome() == (status, head@ + domain@ + tail@),
{
    let mut m = owned(head);
    m.append(domain);
    m.append(tail);
    LoginRejection { status, error: m }
}

/// The domain a login start is for: the parameter trimmed and lower-cased.
pub fn login_domain(raw: &str) -> (r: String)
    ensures
        r@ == lowercase_spec(trim_spec(raw@)),
{
    let t = trim(raw);
    to_lowercase(t.as_str())
}

/// A login start needs a domain.
pub fn check_login_domain(domain: &str) -> (r: Result<(), LoginRejection>)
    ensures
        domain@.len() == 0 ==> (r matches Err(e) && e.outcome() == (400u16, "domain parameter is required"@)),
        domain@.len() != 0 ==> r is Ok,
{
    if domain.unicode_len() == 0 {
        return Err(LoginRejection { status: 400, error: owned("domain parameter is required") });
    }
    Ok(())
}

/// The refusal, if any, of a login start for `domain`, given whether a
/// mapping was found for it and the provider it names.
pub open spec fn login_provider_verdict(domain: Seq<char>, mapping_found: bool, idp: Option<IdentityProvider>) -> Option<(u16, Seq<char>)> {
    if !mapping_found {
        Some((404u16, "No authentication configuration found for domain: "@ + domain))
    } else {
        match idp {
            None => Some((500u16, "Identity provider not found for domain: "@ + domain)),
            Some(p) => if p.provider_type != IdentityProviderType::Oidc {
                Some((400u16, "Domain "@ + domain + " uses internal authentication, not OIDC"@))
            } else if p.oidc_issuer_url is None || p.oidc_client_id is None {
                Some((500u16, "OIDC configuration incomplete for domain: "@ + domain))
            } else if p.allowed_email_domains@.len() > 0
                && !p.allowed_email_domains@.map_values(|x: String| x@).contains(domain) {
                Some((403u16, "Domain "@ + domain + " is not allowed by the identity provider"@))
            } else {
                None
            },
        }
    }
}

/// Check that `domain` may start an OIDC login with this provider.
pub fn check_login_provider(domain: &str, mapping_found: bool, idp: &Option<IdentityProvider>) -> (r: Result<(), LoginRejection>)
    ensures
        match login_provider_verdict(domain@, mapping_found, *idp) {
            None => r is Ok,
            Some(v) => r matches Err(e) && e.outcome() == v,
        },
{
    proof {
        reveal_strlit("");
    }
    if !mapping_found {
        return Err(rejection(404, "No authentication configuration found for domain: ", domain, ""));
    }
    match idp {
        None => Err(rejection(500, "Identity provider not found for domain: ", domain, "")),
        Some(p) => {
            if p.provider_type != IdentityProviderType::Oidc {
                return Err(rejection(400, "Domain ", domain, " uses internal authentication, not OIDC"));
            }
            if p.oidc_issuer_url.is_none() || p.oidc_client_id.is_none() {
                return Err(rejection(500, "OIDC configuration incomplete for domain: ", domain, ""));
            }
            if p.allowed_email_domains.len() > 0 && !contains_str(&p.allowed_email_domains, domain) {
                return Err(rejection(403, "Domain ", domain, " is not allowed by the identity provider"));
            }
            Ok(())
        },
    }
}

// ---------------------------------------------------------------- provider endpoints

/// `s` with every occurrence of `from`, scanning left to right, replaced by
/// `to` (`str::replace`, for a non-empty pattern).
pub open spec fn replace_spec(s: Seq<char>, from: Seq<char>, to: Seq<char>) -> Seq<char>
    decreases s.len(),
{
    if from.len() == 0 {
        s
    } else {
        match first_occurrence(s, from) {
            None => s,
            Some(i) => if 0 <= i && i + from.len() <= s.len() {
                s.take(i) + to + replace_spec(s.skip(i + from.len()), from, to)
            } else {
                s
            },
        }
    }
}

/// Replace every occurrence of the non-empty `from` in `s` by `to`.
pub fn replace_all(s: &str, from: &str, to: &str) -> (r: String)
    requires
        from@.len() > 0,
    ensures
        r@ == replace_spec(s@, from@, to@),
{
    let sv = chars_of(s);
    let fv = chars_of(from);
    let n = sv.len();
    let fl = fv.len();
    let mut out = String::new();
    let mut pos: usize = 0;
    assert(s@.skip(0) =~= s@);
    assert(out@ + replace_spec(s@.skip(0), from@, to@) =~= replace_spec(s@, from@, to@));
    loop
        invariant
            sv@ == s@,
            fv@ == from@,
            n == s@.len(),
            fl == from@.len(),
            fl > 0,
            pos <= n,
            out@ + replace_spec(s@.skip(pos as int), from@, to@) == replace_spec(s@, from@, to@),
        decreases n - pos,
    {
        let ghost rest = s@.skip(pos as int);
        proof {
            lemma_first_occurrence_shift(s@, from@, pos as int, 0);
        }
        match find_from(&sv, pos, &fv) {
            None => {
                let tail = substring(s, pos, n);
                assert(tail@ =~= rest);
                out.append(tail.as_str());
                return out;
            },
            Some(q) => {
                proof {
                    lemma_first_occurrence_bounds(s@, from@, pos as int, q as int);
                    assert(rest.take(q - pos) =~= s@.subrange(pos as int, q as int));
                    assert(rest.skip(q - pos + fl) =~= s@.skip(q + fl));
                }
                let piece = substring(s, pos, q);
                let ghost before = out@;
                out.append(piece.as_str());
                out.append(to);
                assert(out@ =~= before + rest.take(q - pos) + to@);
                pos = q + fl;
            },
        }
    }
}

/// `s` without the run of `c` at its end (`str::trim_end_matches` for a character).
pub open spec fn trim_end_char(s: Seq<char>, c: char) -> Seq<char>
    decreases s.len(),
{
    if s.len() > 0 && s.last() == c {
        trim_end_char(s.drop_last(), c)
    } else {
        s
    }
}

fn trim_end_matches_char(s: &str, c: char) -> (r: String)
    ensures
        r@ == trim_end_char(s@, c),
{
    let n = s.unicode_len();
    let mut k: usize = n;
    assert(s@.take(n as int) =~= s@);
    while k > 0 && s.get_char(k - 1) == c
        invariant
            n == s@.len(),
            k <= n,
            trim_end_char(s@.take(k as int), c) == trim_end_char(s@, c),
        decreases k,
    {
        assert(s@.take(k as int).drop_last() =~= s@.take(k - 1));
        k = k - 1;
    }
    substring(s, 0, k)
}

/// The host that marks a Microsoft Entra issuer.
pub open spec fn entra_marker() -> Seq<char> {
    "login.microsoftonline.com"@
}

/// An endpoint of a provider from its issuer URL: for Entra issuers the
/// `/v2.0` of the issuer becomes `/oauth2/v2.0/<name>`; for others `/<name>`
/// follows the issuer without its trailing slashes.
pub open spec fn provider_endpoint(issuer: Seq<char>, name: Seq<char>) -> Seq<char> {
    if first_occurrence(issuer, entra_marker()) is Some {
        replace_spec(issuer, "/v2.0"@, "/oauth2/v2.0/"@ + name)
    } else {
        trim_end_char(issuer, '/') + "/"@ + name
    }
}

/// Whether `t` occurs in `s` (`str::contains` for a string pattern).
pub(crate) fn contains_text(s: &str, t: &str) -> (r: bool)
    ensures
        r == first_occurrence(s@, t@) is Some,
{
    let sv = chars_of(s);
    let tv = chars_of(t);
    find_from(&sv, 0, &tv).is_some()
}

fn endpoint(issuer_url: &str, name: &str, entra_path: &str) -> (r: String)
    requires
        entra_path@ == "/oauth2/v2.0/"@ + name@,
    ensures
        r@ == provider_endpoint(issuer_url@, name@),
{
    proof {
        reveal_strlit("/v2.0");
        reveal_strlit("/");
    }
    if contains_text(issuer_url, "login.microsoftonline.com") {
        replace_all(issuer_url, "/v2.0", entra_path)
    } else {
        let mut base = trim_end_matches_char(issuer_url, '/');
        base.append("/");
        base.append(name);
        base
    }
}

/// The provider's authorization endpoint.
pub fn get_authorization_endpoint(issuer_url: &str) -> (r: String)
    ensures
        r@ == provider_endpoint(issuer_url@, "authorize"@),
{
    proof {
        reveal_strlit("authorize");
        reveal_strlit("/oauth2/v2.0/authorize");
        reveal_strlit("/oauth2/v2.0/");
        assert("/oauth2/v2.0/authorize"@ =~= "/oauth2/v2.0/"@ + "authorize"@);
    }
    endpoint(issuer_url, "authorize", "/oauth2/v2.0/authorize")
}

/// The provider's token endpoint.
pub fn get_token_endpoint(issuer_url: &str) -> (r: String)
    ensures
        r@ == provider_endpoint(issuer_url@, "token"@),
{
    proof {
        reveal_strlit("token");
        reveal_strlit("/oauth2/v2.0/token");
        reveal_strlit("/oauth2/v2.0/");
        assert("/oauth2/v2.0/token"@ =~= "/oauth2/v2.0/"@ + "token"@);
    }
    endpoint(issuer_url, "token", "/oauth2/v2.0/token")
}

/// The value of an optional string, or the empty string.
pub open spec fn or_empty(o: Option<String>) -> Seq<char> {
    match o {
        Some(s) => s@,
        None => Seq::empty(),
    }
}

/// The public base URL of the platform: the configured one, else the
/// request's host behind `https` (with secure cookies) or `http`.
pub open spec fn external_base_url_spec(configured: Option<String>, secure: bool, host: Seq<char>) -> Seq<char> {
    match configured {
        Some(u) => u@,
        None => (if secure { "https"@ } else { "http"@ }) + "://"@ + host,
    }
}

pub fn get_external_base_url(configured: &Option<String>, cookie_secure: bool, host: &str) -> (r: String)
    ensures
        r@ == external_base_url_spec(*configured, cookie_secure, host@),
{
    match configured {
        Some(u) => u.clone(),
        None => {
            let mut b = if cookie_secure { owned("https") } else { owned("http") };
            b.append("://");
            b.append(host);
            b
        },
    }
}

/// Where the provider sends the user back.
pub fn get_callback_url(configured: &Option<String>, cookie_secure: bool, host: &str) -> (r: String)
    ensures
        r@ == external_base_url_spec(*configured, cookie_secure, host@) + "/auth/oidc/callback"@,
{
    let mut u = get_external_base_url(configured, cookie_secure, host);
    u.append("/auth/oidc/callback");
    u
}

/// The provider's authorization URL for a login with this state, nonce and
/// PKCE challenge.
pub open spec fn authorization_url_spec(idp: IdentityProvider, state: Seq<char>, nonce: Seq<char>, challenge: Seq<char>, callback: Seq<char>) -> Seq<char> {
    provider_endpoint(or_empty(idp.oidc_issuer_url), "authorize"@)
        + "?response_type=code&client_id="@ + enc(or_empty(idp.oidc_client_id))
        + "&redirect_uri="@ + enc(callback)
        + "&scope="@ + enc("openid profile email"@)
        + "&state="@ + enc(state)
        + "&nonce="@ + enc(nonce)
        + "&code_challenge="@ + enc(challenge)
        + "&code_challenge_method=S256"@
}

fn as_str_or_empty(o: &Option<String>) -> (r: &str)
    ensures
        r@ == or_empty(*o),
{
    proof {
        reveal_strlit("");
    }
    match o {
        Some(s) => s.as_str(),
        None => "",
    }
}

pub fn build_authorization_url_from_idp(idp: &IdentityProvider, state: &str, nonce: &str, code_challenge: &str, callback_url: &str) -> (r: String)
    ensures
        r@ == authorization_url_spec(*idp, state@, nonce@, code_challenge@, callback_url@),
{
    let mut url = get_authorization_endpoint(as_str_or_empty(&idp.oidc_issuer_url));
    push_param(&mut url, "?response_type=code&client_id=", as_str_or_empty(&idp.oidc_client_id));
    push_param(&mut url, "&redirect_uri=", callback_url);
    push_param(&mut url, "&scope=", "openid profile email");
    push_param(&mut url, "&state=", state);
    push_param(&mut url, "&nonce=", nonce);
    push_param(&mut url, "&code_challenge=", code_challenge);
    url.append("&code_challenge_method=S256");
    url
}

// ---------------------------------------------------------------- the callback

/// The message a callback is turned away with, if any: the provider's error
/// (its description when given), a missing or empty code, a missing or empty
/// state.
pub open spec fn callback_verdict(p: OidcCallbackParams) -> Option<Seq<char>> {
    match p.error {
        Some(e) => Some(match p.error_description { Some(d) => d@, None => e@ }),
        None => if p.code is None || p.code->0@.len() == 0 {
            Some("No authorization code received"@)
        } else if p.state is None || p.state->0@.len() == 0 {
            Some("No state parameter received"@)
        } else {
            None
        },
    }
}

/// The code and state of an acceptable callback.
pub fn check_callback_params(p: &OidcCallbackParams) -> (r: Result<(String, String), String>)
    ensures
        match callback_verdict(*p) {
            Some(m) => r matches Err(e) && e@ == m,
            None => r matches Ok((code, state)) && Some(code) == p.code && Some(state) == p.state,
        },
{
    if let Some(e) = &p.error {
        return match &p.error_description {
            Some(d) => Err(d.clone()),
            None => Err(e.clone()),
        };
    }
    let code = match &p.code {
        Some(c) => {
            if c.unicode_len() == 0 {
                return Err(owned("No authorization code received"));
            }
            c.clone()
        },
        None => return Err(owned("No authorization code received")),
    };
    let state = match &p.state {
        Some(s) => {
            if s.unicode_len() == 0 {
                return Err(owned("No state parameter received"));
            }
            s.clone()
        },
        None => return Err(owned("No state parameter received")),
    };
    Ok((code, state))
}

/// Where a failed federated login sends the browser.
pub fn error_redirect(message: &str) -> (r: String)
    ensures
        r@ == "/?error="@ + enc(message@),
{
    let mut url = String::new();
    push_param(&mut url, "/?error=", message);
    url
}

/// The domain part of an address the way the callback reads it: the text
/// between its first and second `@`, or nothing.
pub open spec fn second_at_piece(email: Seq<char>) -> Seq<char> {
    let parts = split_spec(email, '@');
    if parts.len() > 1 { parts[1] } else { Seq::empty() }
}

fn second_at_piece_of(email: &str) -> (r: String)
    ensures
        r@ == second_at_piece(email@),
{
    let parts = split(email, '@');
    let ghost pv = parts@.map_values(|x: String| x@);
    assert(pv.len() == parts@.len());
    if parts.len() > 1 {
        assert(pv[1] == parts@[1]@);
        parts[1].clone()
    } else {
        String::new()
    }
}

/// The refusal, if any, of a verified identity for a mapping: the email's
/// domain must be the mapping's, and a tenant the mapping requires must be
/// the token's.
pub open spec fn identity_verdict(email: Seq<char>, tenant_id: Option<Seq<char>>, mapping: EmailDomainMapping) -> Option<Seq<char>> {
    if second_at_piece(email) != mapping.email_domain@ {
        Some("Email domain does not match the expected domain"@)
    } else {
        match mapping.required_oidc_tenant_id {
            None => None,
            Some(t) => match tenant_id {
                Some(x) => if x != t@ { Some("OIDC tenant ID does not match"@) } else { None },
                None => Some("OIDC tenant ID not present in token"@),
            },
        }
    }
}

pub fn check_federated_identity(email: &str, tenant_id: &Option<String>, mapping: &EmailDomainMapping) -> (r: Result<(), String>)
    ensures
        match identity_verdict(email@, opt_view(*tenant_id), *mapping) {
            None => r is Ok,
            Some(m) => r matches Err(e) && e@ == m,
        },
{
    let d = second_at_piece_of(email);
    if !str_eq(d.as_str(), mapping.email_domain.as_str()) {
        return Err(owned("Email domain does not match the expected domain"));
    }
    match &mapping.required_oidc_tenant_id {
        None => Ok(()),
        Some(t) => match tenant_id {
            Some(x) => if !str_eq(x.as_str(), t.as_str()) {
                Err(owned("OIDC tenant ID does not match"))
            } else {
                Ok(())
            },
            None => Err(owned("OIDC tenant ID not present in token")),
        },
    }
}

/// The scope a mapping gives its users.
pub fn user_scope_for(scope: ScopeType) -> (r: UserScope)
    ensures
        scope == ScopeType::Anchor <==> r == UserScope::Anchor,
        scope == ScopeType::Partner <==> r == UserScope::Partner,
        scope == ScopeType::Client <==> r == UserScope::Client,
{
    match scope {
        ScopeType::Anchor => UserScope::Anchor,
        ScopeType::Partner => UserScope::Partner,
        ScopeType::Client => UserScope::Client,
    }
}

/// The clients a login's claims list: every client (`*`) for anchor users,
/// the assigned ones otherwise.
pub fn login_clients(scope: UserScope, assigned: &Vec<String>) -> (r: Vec<String>)
    ensures
        scope == UserScope::Anchor ==> r@.len() == 1 && r@[0]@ == "*"@,
        scope != UserScope::Anchor ==> r@ == assigned@,
{
    match scope {
        UserScope::Anchor => {
            let mut v: Vec<String> = Vec::new();
            v.push(owned("*"));
            v
        },
        _ => crate::text::copy_strings(assigned),
    }
}

/// The `SameSite` policy of the session cookie.
#[derive(Debug, Clone, Copy, PartialEq, Eq, Structural)]
pub enum SameSitePolicy {
    Strict,
    Lax,
    NoRestriction,
}

/// The configured policy, read without regard to case: `strict`, `none`,
/// anything else is `Lax`.
pub fn same_site_policy(setting: &str) -> (r: SameSitePolicy)
    ensures
        lowercase_spec(setting@) == "strict"@ ==> r == SameSitePolicy::Strict,
        lowercase_spec(setting@) == "none"@ ==> r == SameSitePolicy::NoRestriction,
        lowercase_spec(setting@) != "strict"@ && lowercase_spec(setting@) != "none"@ ==> r == SameSitePolicy::Lax,
{
    proof {
        reveal_strlit("strict");
        reveal_strlit("none");
        assert("strict"@[0] != "none"@[0]);
    }
    let l = to_lowercase(setting);
    if str_eq(l.as_str(), "strict") {
        SameSitePolicy::Strict
    } else if str_eq(l.as_str(), "none") {
        SameSitePolicy::NoRestriction
    } else {
        SameSitePolicy::Lax
    }
}

/// Where the browser goes after a federated login: back into the OAuth
/// authorization it interrupted, else to the requested return URL (relative
/// ones under the base URL), else to the dashboard.
pub open spec fn redirect_after_login(base: Seq<char>, s: OidcLoginState) -> Seq<char> {
    match s.oauth_client_id {
        Some(c) => base + "/oauth/authorize?response_type=code&client_id="@ + enc(c@)
            + opt_param("&redirect_uri="@, opt_view(s.oauth_redirect_uri))
            + opt_param("&scope="@, opt_view(s.oauth_scope))
            + opt_param("&state="@, opt_view(s.oauth_state))
            + opt_param("&code_challenge="@, opt_view(s.oauth_code_challenge))
            + opt_param("&code_challenge_method="@, opt_view(s.oauth_code_challenge_method))
            + opt_param("&nonce="@, opt_view(s.oauth_nonce)),
        None => match s.return_url {
            Some(r) => if r@.len() == 0 {
                base + "/dashboard"@
            } else if r@[0] == '/' {
                base + r@
            } else {
                r@
            },
            None => base + "/dashboard"@,
        },
    }
}

pub fn determine_redirect_url(base_url: &str, login_state: &OidcLoginState) -> (r: String)
    ensures
        r@ == redirect_after_login(base_url@, *login_state),
{
    if let Some(client_id) = &login_state.oauth_client_id {
        let mut url = owned(base_url);
        push_param(&mut url, "/oauth/authorize?response_type=code&client_id=", client_id.as_str());
        push_opt_param(&mut url, "&redirect_uri=", &login_state.oauth_redirect_uri);
        push_opt_param(&mut url, "&scope=", &login_state.oauth_scope);
        push_opt_param(&mut url, "&state=", &login_state.oauth_state);
        push_opt_param(&mut url, "&code_challenge=", &login_state.oauth_code_challenge);
        push_opt_param(&mut url, "&code_challenge_method=", &login_state.oauth_code_challenge_method);
        push_opt_param(&mut url, "&nonce=", &login_state.oauth_nonce);
        return url;
    }
    if let Some(ret) = &login_state.return_url {
        let n = ret.unicode_len();
        if n > 0 {
            if ret.get_char(0) == '/' {
                let mut url = owned(base_url);
                url.append(ret.as_str());
                return url;
            }
            return ret.clone();
        }
    }
    let mut url = owned(base_url);
    url.append("/dashboard");
    url
}

// ---------------------------------------------------------------- applications of a login

/// Lexicographic order of character strings by code point (the order of
/// `String`, whose UTF-8 bytes compare the same way).
pub open spec fn lex_lt(a: Seq<char>, b: Seq<char>) -> bool
    decreases a.len(),
{
    if a.len() == 0 {
        b.len() > 0
    } else if b.len() == 0 {
        false
    } else if (a[0] as int) < (b[0] as int) {
        true
    } else if a[0] == b[0] {
        lex_lt(a.drop_first(), b.drop_first())
    } else {
        false
    }
}

pub proof fn lemma_lex_irreflexive(a: Seq<char>)
    ensures
        !lex_lt(a, a),
    decreases a.len(),
{
    if a.len() > 0 {
        lemma_lex_irreflexive(a.drop_first());
    }
}

pub proof fn lemma_lex_transitive(a: Seq<char>, b: Seq<char>, c: Seq<char>)
    requires
        lex_lt(a, b),
        lex_lt(b, c),
    ensures
        lex_lt(a, c),
    decreases a.len(),
{
    if a.len() > 0 && b.len() > 0 && c.len() > 0 {
        if a[0] == b[0] && b[0] == c[0] {
            lemma_lex_transitive(a.drop_first(), b.drop_first(), c.drop_first());
        }
    }
}

pub proof fn lemma_lex_total(a: Seq<char>, b: Seq<char>)
    requires
        a != b,
    ensures
        lex_lt(a, b) || lex_lt(b, a),
    decreases a.len(),
{
    if a.len() == 0 {
        assert(b.len() > 0) by {
            if b.len() == 0 {
                assert(a =~= b);
            }
        }
    } else if b.len() == 0 {
    } else if a[0] == b[0] {
        if a.drop_first() == b.drop_first() {
            assert(a =~= seq![a[0]] + a.drop_first());
            assert(b =~= seq![b[0]] + b.drop_first());
        }
        lemma_lex_total(a.drop_first(), b.drop_first());
    } else {
        assert((a[0] as int) != (b[0] as int));
    }
}

/// Strictly increasing in lexicographic order (sorted, no repeats).
pub open spec fn strictly_sorted(s: Seq<Seq<char>>) -> bool {
    forall|i: int, j: int| 0 <= i < j < s.len() ==> lex_lt(#[trigger] s[i], #[trigger] s[j])
}

/// Whether `a` comes before `b` in lexicographic order.
pub fn lex_less(a: &str, b: &str) -> (r: bool)
    ensures
        r == lex_lt(a@, b@),
{
    let n = a.unicode_len();
    let m = b.unicode_len();
    let mut i: usize = 0;
    assert(a@.skip(0) =~= a@ && b@.skip(0) =~= b@);
    while i < n && i < m && a.get_char(i) == b.get_char(i)
        invariant
            n == a@.len(),
            m == b@.len(),
            i <= n,
            i <= m,
            lex_lt(a@, b@) == lex_lt(a@.skip(i as int), b@.skip(i as int)),
        decreases n - i,
    {
        assert(a@.skip(i as int).drop_first() =~= a@.skip(i + 1));
        assert(b@.skip(i as int).drop_first() =~= b@.skip(i + 1));
        i = i + 1;
    }
    if i == n {
        i < m
    } else if i == m {
        false
    } else {
        (a.get_char(i) as u32) < (b.get_char(i) as u32)
    }
}

/// The application a role belongs to: the text before its first `:`, when
/// that is not empty.
pub open spec fn role_application(role: Seq<char>) -> Option<Seq<char>> {
    match index_of_spec(role, ':') {
        Some(i) => if i > 0 { Some(role.take(i)) } else { None },
        None => None,
    }
}

/// `x` is the application of one of the roles.
pub open spec fn is_role_application(roles: Seq<Seq<char>>, x: Seq<char>) -> bool {
    exists|j: int| 0 <= j < roles.len() && role_application(#[trigger] roles[j]) == Some(x)
}

fn application_of(role: &str) -> (r: Option<String>)
    ensures
        opt_view(r) == role_application(role@),
{
    match index_of(role, ':') {
        Some(i) => if i > 0 { Some(substring(role, 0, i)) } else { None },
        None => None,
    }
}

/// Add `x` to a strictly sorted list unless it is there already.
fn insert_sorted(out: &mut Vec<String>, x: String)
    requires
        strictly_sorted(string_views(old(out)@)),
    ensures
        strictly_sorted(string_views(final(out)@)),
        forall|y: Seq<char>| #[trigger] string_views(final(out)@).contains(y)
            <==> (string_views(old(out)@).contains(y) || y == x@),
{
    let ghost v = string_views(out@);
    let mut p: usize = 0;
    while p < out.len() && lex_less(out[p].as_str(), x.as_str())
        invariant
            v == string_views(out@),
            strictly_sorted(v),
            p <= v.len(),
            forall|k: int| 0 <= k < p ==> lex_lt(#[trigger] v[k], x@),
        decreases v.len() - p,
    {
        p = p + 1;
    }
    if p < out.len() && str_eq(out[p].as_str(), x.as_str()) {
        assert(v[p as int] == x@);
        return;
    }
    proof {
        if p < v.len() {
            assert(!lex_lt(v[p as int], x@));
            assert(v[p as int] != x@);
            lemma_lex_total(v[p as int], x@);
            assert forall|k: int| p <= k < v.len() implies lex_lt(x@, #[trigger] v[k]) by {
                if k > p {
                    lemma_lex_transitive(x@, v[p as int], v[k]);
                }
            }
        }
    }
    let ghost xv = x@;
    out.insert(p, x);
    proof {
        let w = string_views(out@);
        assert(w =~= v.insert(p as int, xv));
        assert forall|i: int, j: int| 0 <= i < j < w.len() implies lex_lt(#[trigger] w[i], #[trigger] w[j]) by {
            if j < p {
            } else if i < p && j == p {
            } else if i < p && j > p {
                assert(w[j] == v[j - 1]);
            } else if i == p {
                assert(w[j] == v[j - 1]);
            } else {
                assert(w[i] == v[i - 1] && w[j] == v[j - 1]);
            }
        }
        assert forall|y: Seq<char>| w.contains(y) <==> (v.contains(y) || y == xv) by {
            if w.contains(y) {
                let k = choose|k: int| 0 <= k < w.len() && w[k] == y;
                if k < p {
                    assert(v[k] == y);
                } else if k > p {
                    assert(v[k - 1] == y);
                }
            }
            if v.contains(y) {
                let k = choose|k: int| 0 <= k < v.len() && v[k] == y;
                if k < p {
                    assert(w[k] == y);
                } else {
                    assert(w[k + 1] == y);
                }
            }
            if y == xv {
                assert(w[p as int] == y);
            }
        }
    }
}

/// The applications of a user's roles (the text before the `:` of each
/// `application:role` code), sorted and without repeats.
pub fn applications_from_roles(roles: &Vec<String>) -> (r: Vec<String>)
    ensures
        strictly_sorted(string_views(r@)),
        forall|x: Seq<char>| #[trigger] string_views(r@).contains(x)
            <==> is_role_application(string_views(roles@), x),
{
    let ghost rv = string_views(roles@);
    let mut out: Vec<String> = Vec::new();
    let mut i: usize = 0;
    while i < roles.len()
        invariant
            rv == string_views(roles@),
            i <= rv.len(),
            strictly_sorted(string_views(out@)),
            forall|x: Seq<char>| #[trigger] string_views(out@).contains(x)
                <==> is_role_application(rv.take(i as int), x),
        decreases rv.len() - i,
    {
        let ghost before = string_views(out@);
        let app = application_of(roles[i].as_str());
        proof {
            assert(rv[i as int] == roles@[i as int]@);
        }
        match app {
            Some(a) => {
                let ghost av = a@;
                insert_sorted(&mut out, a);
                proof {
                    assert forall|x: Seq<char>| string_views(out@).contains(x)
                        <==> is_role_application(rv.take(i + 1), x) by {
                        if is_role_application(rv.take(i + 1), x) {
                            let j = choose|j: int| 0 <= j < i + 1 && role_application(#[trigger] rv.take(i + 1)[j]) == Some(x);
                            if j < i {
                                assert(rv.take(i as int)[j] == rv.take(i + 1)[j]);
                            }
                        }
                        if before.contains(x) {
                            let j = choose|j: int| 0 <= j < i && role_application(#[trigger] rv.take(i as int)[j]) == Some(x);
                            assert(rv.take(i + 1)[j] == rv.take(i as int)[j]);
                        }
                        if x == av {
                            assert(rv.take(i + 1)[i as int] == rv[i as int]);
                        }
                    }
                }
            },
            None => {
                proof {
                    assert forall|x: Seq<char>| string_views(out@).contains(x)
                        <==> is_role_application(rv.take(i + 1), x) by {
                        if is_role_application(rv.take(i + 1), x) {
                            let j = choose|j: int| 0 <= j < i + 1 && role_application(#[trigger] rv.take(i + 1)[j]) == Some(x);
                            if j < i {
                                assert(rv.take(i as int)[j] == rv.take(i + 1)[j]);
                            } else {
                                assert(rv.take(i + 1)[j] == rv[i as int]);
                            }
                        }
                        if before.contains(x) {
                            let j = choose|j: int| 0 <= j < i && role_application(#[trigger] rv.take(i as int)[j]) == Some(x);
                            assert(rv.take(i + 1)[j] == rv.take(i as int)[j]);
                        }
                    }
                }
            },
        }
        i = i + 1;
    }
    assert(rv.take(rv.len() as int) =~= rv);
    out
}

// ---------------------------------------------------------------- logout

/// Which client a logout redirect is checked against: the audience of the
/// `id_token_hint`, which must be given and readable.
pub fn logout_client(id_token_hint: &Option<String>) -> (r: Result<String, String>)
    ensures
        match id_token_hint {
            None => r matches Err(e) && e@ == "id_token_hint is required to verify post_logout_redirect_uri"@,
            Some(h) => match crate::id_token::hint_audience(h@) {
                None => r matches Err(e) && e@ == "id_token_hint is malformed"@,
                Some(a) => r matches Ok(c) && c@ == a,
            },
        },
{
    match id_token_hint {
        None => Err(owned("id_token_hint is required to verify post_logout_redirect_uri")),
        Some(h) => match crate::id_token::extract_aud_from_id_token_hint(h.as_str()) {
            None => Err(owned("id_token_hint is malformed")),
            Some(a) => Ok(a),
        },
    }
}

/// The post-logout redirect: the URI must be registered for the client (as
/// redirect URIs are matched); the client's `state` is appended as a query
/// parameter.
pub open spec fn logout_redirect_spec(uri: Seq<char>, registered: Seq<Seq<char>>, state: Option<Seq<char>>) -> Result<Seq<char>, Seq<char>> {
    if !crate::redirect::redirect_allowed(uri, registered) {
        Err("not in the client's registered post_logout_redirect_uris"@)
    } else {
        match state {
            None => Ok(uri),
            Some(s) => Ok(uri + (if uri.contains('?') { "&"@ } else { "?"@ }) + "state="@ + enc(s)),
        }
    }
}

pub fn post_logout_redirect_url(redirect_uri: &str, registered: &Vec<String>, state: &Option<String>) -> (r: Result<String, String>)
    ensures
        match logout_redirect_spec(redirect_uri@, string_views(registered@), opt_view(*state)) {
            Ok(u) => r matches Ok(x) && x@ == u,
            Err(m) => r matches Err(e) && e@ == m,
        },
{
    if !crate::redirect::matches_redirect_uri(redirect_uri, registered) {
        return Err(owned("not in the client's registered post_logout_redirect_uris"));
    }
    let mut url = owned(redirect_uri);
    if let Some(s) = state {
        if crate::text::contains_char(redirect_uri, '?') {
            url.append("&");
        } else {
            url.append("?");
        }
        push_param(&mut url, "state=", s.as_str());
    }
    Ok(url)
}

/// The description of a refused post-logout redirect.
pub fn logout_rejection_description(reason: &str) -> (r: String)
    ensures
        r@ == "Invalid post_logout_redirect_uri: "@ + reason@,
{
    let mut m = owned("Invalid post_logout_redirect_uri: ");
    m.append(reason);
    m
}

// ---------------------------------------------------------------- interactions

/// The domain of an email submitted to an interaction: the text between its
/// first and second `@`, lower-cased.
pub fn interaction_email_domain(email: &str) -> (r: String)
    ensures
        r@ == lowercase_spec(second_at_piece(email@)),
{
    let d = second_at_piece_of(email);
    to_lowercase(d.as_str())
}

/// An interaction's login must be for the interaction's domain.
pub fn check_interaction_email(email: &str, login_state: &OidcLoginState) -> (r: Result<String, String>)
    ensures
        lowercase_spec(second_at_piece(email@)) == login_state.email_domain@
            ==> (r matches Ok(d) && d@ == login_state.email_domain@),
        lowercase_spec(second_at_piece(email@)) != login_state.email_domain@
            ==> (r matches Err(e) && e@ == "Email domain does not match"@),
{
    let d = interaction_email_domain(email);
    if !str_eq(d.as_str(), login_state.email_domain.as_str()) {
        return Err(owned("Email domain does not match"));
    }
    Ok(d)
}


/// The outcome of looking up the valid login state of an interaction.
#[derive(Debug, Clone, PartialEq, Eq)]
pub enum LoginStateLookup {
    Found(OidcLoginState),
    NotFound,
    /// The store could not be read.
    Failed,
}

/// The answer to an interaction login.
#[derive(Debug, Clone, PartialEq, Eq)]
pub enum InteractionAnswer {
    /// A plain answer.
    Plain(InteractionLoginResponse),
    /// The domain signs in with the platform's own login: the client is sent
    /// to these endpoints and told why.
    InternalAuth { login_url: String, passkey_begin_url: String, error: String },
}

pub open spec fn failed_with(a: InteractionAnswer, e: Seq<char>) -> bool {
    a matches InteractionAnswer::Plain(r) && !r.success && r.redirect_url is None && opt_view(r.error) == Some(e)
}

fn refused(e: &str) -> (r: InteractionAnswer)
    ensures
        failed_with(r, e@),
{
    InteractionAnswer::Plain(InteractionLoginResponse { success: false, redirect_url: None, error: Some(owned(e)) })
}

/// The answer to a login submitted to an interaction, checks taken in order:
/// the interaction's login state must be found (`404`; `500` when it could
/// not be read); the email's domain must be the interaction's (`400`); a
/// domain without a provider mapping signs in internally (`200`); the
/// interaction's provider must be found and use OIDC (`400`); then the
/// client is sent (`200`) to the provider's authorization URL for the
/// login state's state, nonce and the challenge of its verifier.
/// `mapping` is the lookup of the domain's mapping, `idp` that of the login
/// state's provider (`None` when missing or unreadable).
pub fn interaction_login(
    login_state: &LoginStateLookup,
    email: &str,
    mapping: RecordLookup,
    idp: &Option<IdentityProvider>,
    callback_url: &str,
) -> (r: (u16, InteractionAnswer))
    ensures
        match *login_state {
            LoginStateLookup::Failed => r.0 == 500 && failed_with(r.1, "Internal error"@),
            LoginStateLookup::NotFound => r.0 == 404 && failed_with(r.1, "Interaction not found or expired"@),
            LoginStateLookup::Found(ls) => if lowercase_spec(second_at_piece(email@)) != ls.email_domain@ {
                r.0 == 400 && failed_with(r.1, "Email domain does not match"@)
            } else if mapping == RecordLookup::NotFound {
                r.0 == 200 && (r.1 matches InteractionAnswer::InternalAuth { login_url, passkey_begin_url, error }
                    && login_url@ == "/auth/login"@
                    && passkey_begin_url@ == "/auth/webauthn/authenticate/begin"@
                    && error@ == "domain uses internal authentication; complete login via /auth/login or /auth/webauthn/* and revisit /oauth/authorize"@)
            } else if !(idp matches Some(p) && p.provider_type == IdentityProviderType::Oidc) {
                r.0 == 400 && failed_with(r.1, "Identity provider not found or not OIDC type"@)
            } else {
                r.0 == 200 && (r.1 matches InteractionAnswer::Plain(resp) && resp.success && resp.error is None
                    && opt_view(resp.redirect_url) == Some(authorization_url_spec(
                        idp->0,
                        ls.state@,
                        ls.nonce@,
                        base64_spec(sha256_spec(encode_utf8(ls.code_verifier@)), true, false),
                        callback_url@,
                    )))
            },
        },
{
    let ls = match login_state {
        LoginStateLookup::Failed => return (500, refused("Internal error")),
        LoginStateLookup::NotFound => return (404, refused("Interaction not found or expired")),
        LoginStateLookup::Found(ls) => ls,
    };
    match check_interaction_email(email, ls) {
        Ok(_) => {},
        Err(_) => return (400, refused("Email domain does not match")),
    }
    if mapping == RecordLookup::NotFound {
        return (200, InteractionAnswer::InternalAuth {
            login_url: owned("/auth/login"),
            passkey_begin_url: owned("/auth/webauthn/authenticate/begin"),
            error: owned(
                "domain uses internal authentication; complete login via /auth/login or /auth/webauthn/* and revisit /oauth/authorize",
            ),
        });
    }
    let p = match idp {
        Some(p) => if p.provider_type == IdentityProviderType::Oidc {
            p
        } else {
            return (400, refused("Identity provider not found or not OIDC type"));
        },
        None => return (400, refused("Identity provider not found or not OIDC type")),
    };
    let challenge = crate::pkce::generate_code_challenge(ls.code_verifier.as_str());
    let url = build_authorization_url_from_idp(p, ls.state.as_str(), ls.nonce.as_str(), challenge.as_str(), callback_url);
    (200, InteractionAnswer::Plain(InteractionLoginResponse { success: true, redirect_url: Some(url), error: None }))
}


// ---------------------------------------------------------------- code exchange

/// The form posted to the provider's token endpoint.
#[derive(Debug, Clone, PartialEq, Eq)]
pub struct TokenExchangeRequest {
    pub token_endpoint: String,
    /// Form fields, in order.
    pub form: Vec<(String, String)>,
}

/// The form fields of a code exchange: grant type, code, redirect URI,
/// client id, verifier, and the client secret when there is one.
pub open spec fn exchange_form(code: Seq<char>, callback: Seq<char>, client_id: Seq<char>, verifier: Seq<char>, secret: Option<Seq<char>>) -> Seq<(Seq<char>, Seq<char>)> {
    let base = seq![
        ("grant_type"@, "authorization_code"@),
        ("code"@, code),
        ("redirect_uri"@, callback),
        ("client_id"@, client_id),
        ("code_verifier"@, verifier),
    ];
    match secret {
        Some(s) => base.push(("client_secret"@, s)),
        None => base,
    }
}

pub open spec fn form_view(form: Seq<(String, String)>) -> Seq<(Seq<char>, Seq<char>)> {
    form.map_values(|p: (String, String)| (p.0@, p.1@))
}

fn field(name: &str, value: &str) -> (r: (String, String))
    ensures
        r.0@ == name@ && r.1@ == value@,
{
    (owned(name), owned(value))
}

/// What to post to exchange a callback's code; `client_secret` is the
/// provider's client secret as far as it could be read (decrypted, or the
/// stored value when it could not be). The provider must name its issuer
/// and client.
pub fn token_exchange_request(
    idp: &IdentityProvider,
    code: &str,
    code_verifier: &str,
    callback_url: &str,
    client_secret: &Option<String>,
) -> (r: Result<TokenExchangeRequest, String>)
    ensures
        idp.oidc_issuer_url is None ==> (r matches Err(e) && e@ == "Missing issuer URL"@),
        idp.oidc_issuer_url is Some && idp.oidc_client_id is None ==> (r matches Err(e) && e@ == "Missing client ID"@),
        (idp.oidc_issuer_url is Some && idp.oidc_client_id is Some) ==> (r matches Ok(x)
            && x.token_endpoint@ == provider_endpoint(idp.oidc_issuer_url->0@, "token"@)
            && form_view(x.form@) == exchange_form(code@, callback_url@, idp.oidc_client_id->0@, code_verifier@,
                opt_view(*client_secret))),
{
    let issuer = match &idp.oidc_issuer_url {
        Some(i) => i,
        None => return Err(owned("Missing issuer URL")),
    };
    let client_id = match &idp.oidc_client_id {
        Some(c) => c,
        None => return Err(owned("Missing client ID")),
    };
    let token_endpoint = get_token_endpoint(issuer.as_str());
    let mut form: Vec<(String, String)> = Vec::new();
    form.push(field("grant_type", "authorization_code"));
    form.push(field("code", code));
    form.push(field("redirect_uri", callback_url));
    form.push(field("client_id", client_id.as_str()));
    form.push(field("code_verifier", code_verifier));
    if let Some(sec) = client_secret {
        form.push(field("client_secret", sec.as_str()));
    }
    assert(form_view(form@) =~= exchange_form(code@, callback_url@, client_id@, code_verifier@, opt_view(*client_secret)));
    Ok(TokenExchangeRequest { token_endpoint, form })
}

/// The tokens of a provider's token response.
#[derive(Debug, Clone, PartialEq, Eq)]
pub struct TokenExchange {
    pub access_token: String,
    pub id_token: String,
    pub refresh_token: Option<String>,
}

/// Read the tokens of a token response that parsed as JSON: the ID token is
/// required; a missing access token reads as empty.
pub fn token_exchange_tokens(body: &[u8]) -> (r: Result<TokenExchange, String>)
    ensures
        match crate::id_token::claim_text(crate::id_token::json_claim_spec(body@, "id_token"@, None)) {
            None => r matches Err(e) && e@ == "No ID token in response"@,
            Some(idt) => r matches Ok(t) && t.id_token@ == idt
                && t.access_token@ == (match crate::id_token::claim_text(crate::id_token::json_claim_spec(body@, "access_token"@, None)) {
                    Some(a) => a,
                    None => Seq::empty(),
                })
                && opt_view(t.refresh_token) == crate::id_token::claim_text(crate::id_token::json_claim_spec(body@, "refresh_token"@, None)),
        },
{
    let id_token = match crate::id_token::read_claim(body, "id_token", None) {
        crate::id_token::JsonClaim::Text(t) => t,
        _ => return Err(owned("No ID token in response")),
    };
    let access_token = match crate::id_token::read_claim(body, "access_token", None) {
        crate::id_token::JsonClaim::Text(t) => t,
        _ => String::new(),
    };
    let refresh_token = match crate::id_token::read_claim(body, "refresh_token", None) {
        crate::id_token::JsonClaim::Text(t) => Some(t),
        _ => None,
    };
    Ok(TokenExchange { access_token, id_token, refresh_token })
}

} // verus!

//! Federated login through external OpenID Connect providers.

use vstd::prelude::*;

verus! {

/// Domain check request
#[derive(Debug, Clone, PartialEq, Eq)]
pub struct DomainCheckRequest {
    pub email: String,
}

/// Domain check response
#[derive(Debug, Clone, PartialEq, Eq)]
pub struct DomainCheckResponse {
    /// "internal" for password auth, "external" for OIDC
    pub auth_method: String,
    /// URL to redirect to for login (for external: /auth/oidc/login?domain=...)
    pub login_url: Option<String>,
    /// External IDP issuer URL (informational)
    pub idp_issuer: Option<String>,
}

/// OIDC login query parameters
#[derive(Debug, Clone, PartialEq, Eq)]
pub struct OidcLoginParams {
    /// Email domain to authenticate
    pub domain: String,
    /// URL to return to after login
    pub return_url: Option<String>,
    // OAuth flow chaining parameters
    pub oauth_client_id: Option<String>,
    pub oauth_redirect_uri: Option<String>,
    pub oauth_scope: Option<String>,
    pub oauth_state: Option<String>,
    pub oauth_code_challenge: Option<String>,
    pub oauth_code_challenge_method: Option<String>,
    pub oauth_nonce: Option<String>,
}

/// OIDC callback query parameters
#[derive(Debug, Clone, PartialEq, Eq)]
pub struct OidcCallbackParams {
    pub code: Option<String>,
    pub state: Option<String>,
    pub error: Option<String>,
    pub error_description: Option<String>,
}

/// Error response
#[derive(Debug, Clone, PartialEq, Eq)]
pub struct ErrorResponse {
    pub error: String,
}

/// Interaction details response
#[derive(Debug, Clone, PartialEq, Eq)]
pub struct InteractionDetailsResponse {
    /// Interaction UID
    pub uid: String,
    /// The kind of interaction (login or consent)
    pub prompt: String,
    /// Client of the OAuth request that started the interaction
    pub client_id: Option<String>,
    /// Requested scope
    pub scope: Option<String>,
    /// Email domain for this login
    pub email_domain: String,
    /// Whether OIDC federation is required
    pub requires_oidc: bool,
}

/// Interaction login request (POST body)
#[derive(Debug, Clone, PartialEq, Eq)]
pub struct InteractionLoginRequest {
    /// Email address
    pub email: String,
    /// Password (for internal auth)
    pub password: Option<String>,
}

/// Interaction login result
#[derive(Debug, Clone, PartialEq, Eq)]
pub struct InteractionLoginResponse {
    /// Whether login succeeded
    pub success: bool,
    /// Redirect URL to continue the flow
    pub redirect_url: Option<String>,
    /// Error message if login failed
    pub error: Option<String>,
}

/// OIDC Session End query parameters
#[derive(Debug, Clone, PartialEq, Eq)]
pub struct SessionEndParams {
    /// ID token hint (optional, used to identify the user)
    pub id_token_hint: Option<String>,
    /// Post-logout redirect URI
    pub post_logout_redirect_uri: Option<String>,
    /// State to pass back to the client
    pub state: Option<String>,
}

} // verus!

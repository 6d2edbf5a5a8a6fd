//! Request and response records of the authentication-configuration API.

use vstd::prelude::*;

verus! {

/// The RFC 3339 text of an instant given in microseconds since the epoch,
/// as `chrono` writes it (empty for an instant outside chrono's dates).
pub uninterp spec fn rfc3339_text(us: i64) -> Seq<char>;

/// `DateTime::from_timestamp_micros` then `DateTime::to_rfc3339`; the
/// contract names the result, a function of the instant.
#[verifier::external_body]
pub(crate) fn rfc3339_from_micros(us: i64) -> (r: String)
    ensures
        r@ == rfc3339_text(us),
{
    chrono::DateTime::from_timestamp_micros(us).map(|t| t.to_rfc3339()).unwrap_or_default()
}

/// An email domain whose users are anchor users.
#[derive(Debug, Clone, PartialEq, Eq)]
pub struct AnchorDomain {
    pub id: String,
    pub domain: String,
    /// Microseconds since the epoch.
    pub created_at: i64,
}

/// Create anchor domain request
#[derive(Debug, Clone, PartialEq, Eq)]
pub struct CreateAnchorDomainRequest {
    /// Email domain (e.g., "flowcatalyst.tech")
    pub domain: String,
}

/// Anchor domain response DTO
#[derive(Debug, Clone, PartialEq, Eq)]
pub struct AnchorDomainResponse {
    pub id: String,
    pub domain: String,
    /// Number of users with this email domain
    pub user_count: i64,
    pub created_at: String,
}

impl AnchorDomainResponse {
    /// The response for a domain with `user_count` users.
    pub fn from_domain(d: AnchorDomain, user_count: i64) -> (r: Self)
        ensures
            r.id == d.id && r.domain == d.domain && r.user_count == user_count,
            r.created_at@ == rfc3339_text(d.created_at),
    {
        let created_at = rfc3339_from_micros(d.created_at);
        AnchorDomainResponse { id: d.id, domain: d.domain, user_count, created_at }
    }
}

/// Anchor domain list response (wrapped)
#[derive(Debug, Clone, PartialEq, Eq)]
pub struct AnchorDomainListResponse {
    pub domains: Vec<AnchorDomainResponse>,
    pub total: usize,
}

/// Create client auth config request
#[derive(Debug, Clone, PartialEq, Eq)]
pub struct CreateClientAuthConfigRequest {
    /// Email domain this config applies to
    pub email_domain: String,

    /// Config type: ANCHOR, PARTNER, or CLIENT
    pub config_type: Option<String>,

    /// Primary client ID (for CLIENT type)
    pub primary_client_id: Option<String>,

    /// Auth provider: INTERNAL or OIDC
    pub auth_provider: Option<String>,

    /// OIDC issuer URL
    pub oidc_issuer_url: Option<String>,

    /// OIDC client ID
    pub oidc_client_id: Option<String>,
}

/// Update client auth config request
#[derive(Debug, Clone, PartialEq, Eq)]
pub struct UpdateClientAuthConfigRequest {
    /// Primary client ID
    pub primary_client_id: Option<String>,

    /// Auth provider
    pub auth_provider: Option<String>,

    /// OIDC issuer URL
    pub oidc_issuer_url: Option<String>,

    /// OIDC client ID
    pub oidc_client_id: Option<String>,

    /// Additional client IDs
    pub additional_client_ids: Option<Vec<String>>,
}

/// Create internal auth config request
#[derive(Debug, Clone, PartialEq, Eq)]
pub struct CreateInternalAuthConfigRequest {
    /// Email domain
    pub email_domain: String,
    /// Config type: CLIENT or PARTNER
    pub config_type: String,
    /// Primary client ID (required for CLIENT type)
    pub primary_client_id: Option<String>,
}

/// Create OIDC auth config request
#[derive(Debug, Clone, PartialEq, Eq)]
pub struct CreateOidcAuthConfigRequest {
    /// Email domain
    pub email_domain: String,
    /// Config type: CLIENT or PARTNER
    pub config_type: String,
    /// Primary client ID (required for CLIENT type)
    pub primary_client_id: Option<String>,
    /// OIDC issuer URL
    pub oidc_issuer_url: String,
    /// OIDC client ID
    pub oidc_client_id: String,
    /// OIDC client secret reference (optional)
    pub oidc_client_secret_ref: Option<String>,
}

/// Update OIDC config request
#[derive(Debug, Clone, PartialEq, Eq)]
pub struct UpdateOidcConfigRequest {
    /// OIDC issuer URL
    pub oidc_issuer_url: Option<String>,
    /// OIDC client ID
    pub oidc_client_id: Option<String>,
    /// OIDC client secret reference
    pub oidc_client_secret_ref: Option<String>,
}

/// Update client binding request
#[derive(Debug, Clone, PartialEq, Eq)]
pub struct UpdateClientBindingRequest {
    /// Primary client ID
    pub primary_client_id: String,
}

/// Update additional clients request
#[derive(Debug, Clone, PartialEq, Eq)]
pub struct UpdateAdditionalClientsRequest {
    /// Additional client IDs
    pub additional_client_ids: Vec<String>,
}

/// Update granted clients request
#[derive(Debug, Clone, PartialEq, Eq)]
pub struct UpdateGrantedClientsRequest {
    /// Granted client IDs
    pub granted_client_ids: Vec<String>,
}

/// Validate secret request
#[derive(Debug, Clone, PartialEq, Eq)]
pub struct ValidateSecretRequest {
    /// Secret reference to validate
    pub secret_ref: String,
}

/// Validate secret response
#[derive(Debug, Clone, PartialEq, Eq)]
pub struct ValidateSecretResponse {
    /// Whether the secret is valid
    pub valid: bool,
    /// Error message if invalid
    pub error: Option<String>,
}

/// Client auth config response DTO
#[derive(Debug, Clone, PartialEq, Eq)]
pub struct ClientAuthConfigResponse {
    pub id: String,
    pub email_domain: String,
    pub config_type: String,
    pub primary_client_id: Option<String>,
    pub additional_client_ids: Vec<String>,
    /// Granted client IDs (for PARTNER type configs)
    pub granted_client_ids: Vec<String>,
    /// Deprecated - use primaryClientId
    pub client_id: Option<String>,
    pub auth_provider: String,
    pub oidc_issuer_url: Option<String>,
    pub oidc_client_id: Option<String>,
    /// Whether a client secret is configured
    pub has_client_secret: bool,
    /// Whether OIDC is multi-tenant
    pub oidc_multi_tenant: bool,
    /// Issuer pattern for multi-tenant validation
    pub oidc_issuer_pattern: Option<String>,
    pub created_at: String,
    pub updated_at: String,
}

/// Client auth config list response (wrapped)
#[derive(Debug, Clone, PartialEq, Eq)]
pub struct AuthConfigListResponse {
    pub configs: Vec<ClientAuthConfigResponse>,
    pub total: usize,
}

/// Create IDP role mapping request
#[derive(Debug, Clone, PartialEq, Eq)]
pub struct CreateIdpRoleMappingRequest {
    /// IDP type (e.g., "OIDC", "AZURE_AD")
    pub idp_type: String,

    /// Role name from the IDP
    pub idp_role_name: String,

    /// Platform role name to map to
    pub platform_role_name: String,
}

/// IDP role mapping response DTO
#[derive(Debug, Clone, PartialEq, Eq)]
pub struct IdpRoleMappingResponse {
    pub id: String,
    pub idp_type: String,
    pub idp_role_name: String,
    pub platform_role_name: String,
    pub created_at: String,
}

/// IDP role mapping list response (wrapped)
#[derive(Debug, Clone, PartialEq, Eq)]
pub struct IdpRoleMappingListResponse {
    pub mappings: Vec<IdpRoleMappingResponse>,
    pub total: usize,
}

/// Check anchor domain response
#[derive(Debug, Clone, PartialEq, Eq)]
pub struct CheckAnchorDomainResponse {
    /// Whether the domain is an anchor domain
    pub is_anchor_domain: bool,
}

/// Update anchor domain request
#[derive(Debug, Clone, PartialEq, Eq)]
pub struct UpdateAnchorDomainRequest {
    /// New domain value
    pub domain: String,
}

/// Update config type request
#[derive(Debug, Clone, PartialEq, Eq)]
pub struct UpdateConfigTypeRequest {
    /// Config type: ANCHOR, PARTNER, or CLIENT
    pub config_type: String,
}

/// Query parameters for IDP role mappings
#[derive(Debug, Clone, PartialEq, Eq)]
pub struct IdpRoleMappingQuery {
    pub idp_type: Option<String>,
}

} // verus!

//! Request and response records of the identity-provider API.

use vstd::prelude::*;

verus! {

#[derive(Debug, Clone, PartialEq, Eq)]
pub struct CreateIdentityProviderRequest {
    pub code: String,
    pub name: String,
    /// The provider kind (`type` on the wire).
    pub provider_type: String,
    pub oidc_issuer_url: Option<String>,
    pub oidc_client_id: Option<String>,
    pub oidc_client_secret_ref: Option<String>,
    pub oidc_multi_tenant: Option<bool>,
    pub oidc_issuer_pattern: Option<String>,
    pub allowed_email_domains: Option<Vec<String>>,
}

#[derive(Debug, Clone, PartialEq, Eq)]
pub struct UpdateIdentityProviderRequest {
    pub name: Option<String>,
    pub oidc_issuer_url: Option<String>,
    pub oidc_client_id: Option<String>,
    pub oidc_client_secret_ref: Option<String>,
    pub oidc_multi_tenant: Option<bool>,
    pub oidc_issuer_pattern: Option<String>,
    pub allowed_email_domains: Option<Vec<String>>,
}

#[derive(Debug, Clone, PartialEq, Eq)]
pub struct IdentityProviderResponse {
    pub id: String,
    pub code: String,
    pub name: String,
    /// The provider kind (`type` on the wire).
    pub provider_type: String,
    pub oidc_issuer_url: Option<String>,
    pub oidc_client_id: Option<String>,
    pub has_client_secret: bool,
    pub oidc_multi_tenant: bool,
    pub oidc_issuer_pattern: Option<String>,
    pub allowed_email_domains: Vec<String>,
    pub created_at: String,
    pub updated_at: String,
}

#[derive(Debug, Clone, PartialEq, Eq)]
pub struct IdentityProvidersListResponse {
    pub identity_providers: Vec<IdentityProviderResponse>,
    pub total: usize,
}

} // verus!

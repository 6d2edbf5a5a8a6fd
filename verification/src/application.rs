//! Request and response records of the application admin API.

use vstd::prelude::*;
use crate::auth_config::{rfc3339_from_micros, rfc3339_text};
use crate::text::owned;

verus! {

/// Create application request
#[derive(Debug, Clone, PartialEq, Eq)]
pub struct CreateApplicationRequest {
    /// Unique identifier/code (URL-safe)
    pub code: String,

    /// Human-readable name
    pub name: String,

    /// Description
    pub description: Option<String>,

    /// Application type: APPLICATION or INTEGRATION
    pub application_type: Option<String>,

    /// Default base URL
    pub default_base_url: Option<String>,

    /// Icon URL
    pub icon_url: Option<String>,
}

/// Update application request
#[derive(Debug, Clone, PartialEq, Eq)]
pub struct UpdateApplicationRequest {
    /// Human-readable name
    pub name: Option<String>,

    /// Description
    pub description: Option<String>,

    /// Default base URL
    pub default_base_url: Option<String>,

    /// Icon URL
    pub icon_url: Option<String>,
}

/// Application response DTO
#[derive(Debug, Clone, PartialEq, Eq)]
pub struct ApplicationResponse {
    pub id: String,
    pub code: String,
    pub name: String,
    pub description: Option<String>,
    pub application_type: String,
    pub default_base_url: Option<String>,
    pub icon_url: Option<String>,
    pub service_account_id: Option<String>,
    pub active: bool,
    pub created_at: String,
    pub updated_at: String,
    /// True iff this application has a login OAuth client provisioned (used
    /// to gate the "Provision Login Client" button in the UI). Populated by
    /// the detail endpoint only; list responses leave it `None` to avoid an
    /// N+1 lookup across rows.
    pub has_login_client: Option<bool>,
}

/// The kind of an application.
#[derive(Debug, Clone, Copy, PartialEq, Eq, Structural)]
pub enum ApplicationType {
    Application,
    Integration,
}

/// The name of an application kind in responses.
pub open spec fn application_type_text(t: ApplicationType) -> Seq<char> {
    match t {
        ApplicationType::Application => "APPLICATION"@,
        ApplicationType::Integration => "INTEGRATION"@,
    }
}

impl ApplicationType {
    /// The kind's name in upper case, as responses carry it.
    pub fn upper_name(self) -> (r: String)
        ensures
            r@ == application_type_text(self),
    {
        match self {
            ApplicationType::Application => owned("APPLICATION"),
            ApplicationType::Integration => owned("INTEGRATION"),
        }
    }
}

/// A stored application, timestamps in microseconds since the epoch.
#[derive(Debug, Clone, PartialEq, Eq)]
pub struct Application {
    pub id: String,
    pub code: String,
    pub name: String,
    pub description: Option<String>,
    pub application_type: ApplicationType,
    pub default_base_url: Option<String>,
    pub icon_url: Option<String>,
    pub website: Option<String>,
    pub logo: Option<String>,
    pub logo_mime_type: Option<String>,
    pub service_account_id: Option<String>,
    pub active: bool,
    pub created_at: i64,
    pub updated_at: i64,
}

impl ApplicationResponse {
    /// The response for a stored application: its fields as they are, its
    /// kind's name in upper case, the timestamps in RFC 3339, and no word on
    /// a login client (only the detail endpoint fills that in).
    pub fn from_application(a: Application) -> (r: Self)
        ensures
            r.id == a.id && r.code == a.code && r.name == a.name && r.description == a.description,
            r.application_type@ == application_type_text(a.application_type),
            r.default_base_url == a.default_base_url && r.icon_url == a.icon_url,
            r.service_account_id == a.service_account_id && r.active == a.active,
            r.created_at@ == rfc3339_text(a.created_at) && r.updated_at@ == rfc3339_text(a.updated_at),
            r.has_login_client is None,
    {
        let application_type = a.application_type.upper_name();
        let created_at = rfc3339_from_micros(a.created_at);
        let updated_at = rfc3339_from_micros(a.updated_at);
        ApplicationResponse {
            id: a.id,
            code: a.code,
            name: a.name,
            description: a.description,
            application_type,
            default_base_url: a.default_base_url,
            icon_url: a.icon_url,
            service_account_id: a.service_account_id,
            active: a.active,
            created_at,
            updated_at,
            has_login_client: None,
        }
    }
}

/// Service account response DTO
#[derive(Debug, Clone, PartialEq, Eq)]
pub struct ServiceAccountResponse {
    pub id: String,
    pub code: String,
    pub name: String,
    pub description: Option<String>,
    pub active: bool,
    pub application_id: Option<String>,
    pub created_at: String,
}

/// OAuth client credentials returned from a provisioning endpoint.
///
/// The `clientSecret` is only populated for CONFIDENTIAL clients and only at
/// the moment of creation — the platform stores it encrypted and never
/// returns it again. Rotate via `POST /api/oauth-clients/{id}/regenerate-secret`.
#[derive(Debug, Clone, PartialEq, Eq)]
pub struct OAuthClientCredentials {
    /// OAuth client row id (`oac_…`).
    pub id: String,
    /// Public `clientId` used in the OAuth flows.
    pub client_id: String,
    /// Plaintext client secret — only on creation, only for CONFIDENTIAL.
    pub client_secret: Option<String>,
}

/// Wrapper returned from `POST /api/applications/{id}/provision-service-account`.
///
/// Matches the frontend's existing `ServiceAccountCredentials` shape so the
/// page can display the freshly-minted credentials in one modal.
#[derive(Debug, Clone, PartialEq, Eq)]
pub struct ServiceAccountCredentialsResponse {
    /// Principal id of the service account (`sac_…`).
    pub principal_id: String,
    /// Service account display name (used in the credentials dialog).
    pub name: String,
    /// OAuth client minted alongside the service account, with the only
    /// chance to read the plaintext secret.
    pub oauth_client: OAuthClientCredentials,
}

/// Wrapper response from `POST /api/applications/{id}/provision-service-account`.
#[derive(Debug, Clone, PartialEq, Eq)]
pub struct ProvisionServiceAccountResponse {
    pub message: String,
    pub service_account: ServiceAccountCredentialsResponse,
}

/// Request body for `POST /api/applications/{id}/provision-login-client`.
#[derive(Debug, Clone, PartialEq, Eq)]
pub struct ProvisionLoginClientRequest {
    /// `"PUBLIC"` (default, PKCE-only) or `"CONFIDENTIAL"` (has a client secret).
    /// PUBLIC is the right choice for SPAs and native apps; CONFIDENTIAL is for
    /// server-rendered apps that can keep a secret.
    pub client_type: Option<String>,
    /// One or more URLs the application redirects to after login. At least one is required.
    pub redirect_uris: Vec<String>,
    /// Origins permitted by the browser for CORS preflight on the auth endpoints.
    /// Optional; defaults to the redirect URI origins.
    pub allowed_origins: Vec<String>,
}

/// Response from `POST /api/applications/{id}/provision-login-client`.
#[derive(Debug, Clone, PartialEq, Eq)]
pub struct ProvisionLoginClientResponse {
    pub message: String,
    pub login_client: LoginClientCredentialsResponse,
}

/// Login-client credentials returned at provision time. `clientSecret` is
/// populated only for CONFIDENTIAL clients.
#[derive(Debug, Clone, PartialEq, Eq)]
pub struct LoginClientCredentialsResponse {
    pub client_type: String,
    pub oauth_client: OAuthClientCredentials,
    pub redirect_uris: Vec<String>,
}

/// Application role response DTO
#[derive(Debug, Clone, PartialEq, Eq)]
pub struct ApplicationRoleResponse {
    pub id: String,
    pub code: String,
    pub display_name: String,
    pub description: Option<String>,
    pub application_code: String,
    pub permissions: Vec<String>,
    pub source: String,
    pub client_managed: bool,
}

/// Applications list response (wrapped)
#[derive(Debug, Clone, PartialEq, Eq)]
pub struct ApplicationListResponse {
    pub applications: Vec<ApplicationResponse>,
    pub total: usize,
}


/// Query parameters for applications list (paging is read separately).
#[derive(Debug, Clone, PartialEq, Eq)]
pub struct ApplicationsQuery {
    /// Filter by active status
    pub active: Option<bool>,
}

} // verus!

//! Provisioning the credentials of an application: its service account with a
//! `client_credentials` client, and its login client for user sign-in.

use vstd::prelude::*;
use crate::application::{
    LoginClientCredentialsResponse, OAuthClientCredentials, ProvisionLoginClientRequest, ProvisionLoginClientResponse,
    ProvisionServiceAccountResponse, ServiceAccountCredentialsResponse,
};
use crate::oauth_clients::{CreateOAuthClientCommand, OAuthClient, OAuthClientType};
use crate::text::{copy_strings, owned, str_eq, string_views};

verus! {

/// What provisioning reads of an application.
#[derive(Debug, Clone, PartialEq, Eq)]
pub struct ApplicationRecord {
    pub id: String,
    pub code: String,
    pub name: String,
    pub service_account_id: Option<String>,
}

/// Why provisioning is refused.
#[derive(Debug, Clone, PartialEq, Eq)]
pub enum ProvisionRefusal {
    /// The request is malformed (`400`).
    Validation(String),
    /// The credentials exist already (`409`).
    Conflict(String),
}

/// The service account to create for an application.
#[derive(Debug, Clone, PartialEq, Eq)]
pub struct ServiceAccountDraft {
    pub code: String,
    pub name: String,
    pub description: String,
}

/// An application gets one service account: `app:<code>`, named after it.
pub fn plan_service_account(app: &ApplicationRecord) -> (r: Result<ServiceAccountDraft, ProvisionRefusal>)
    ensures
        app.service_account_id is Some ==> (r matches Err(ProvisionRefusal::Conflict(m))
            && m@ == "Application already has a service account provisioned"@),
        app.service_account_id is None ==> (r matches Ok(d)
            && d.code@ == "app:"@ + app.code@
            && d.name@ == app.name@ + " Service Account"@
            && d.description@ == "Service account for application: "@ + app.name@),
{
    if app.service_account_id.is_some() {
        return Err(ProvisionRefusal::Conflict(owned("Application already has a service account provisioned")));
    }
    let mut code = owned("app:");
    code.append(app.code.as_str());
    let mut name = app.name.clone();
    name.append(" Service Account");
    let mut description = owned("Service account for application: ");
    description.append(app.name.as_str());
    Ok(ServiceAccountDraft { code, name, description })
}

fn one(s: String) -> (r: Vec<String>)
    ensures
        r@ == seq![s],
{
    let mut v: Vec<String> = Vec::new();
    v.push(s);
    v
}

/// The confidential `client_credentials` client that lets consumers act as
/// the application's service account `sa_id`; `secret_ref` is the encrypted
/// secret.
pub fn service_account_client_command(
    app: &ApplicationRecord,
    oauth_client_id: String,
    client_id: String,
    secret_ref: &str,
    sa_id: String,
    principal_id: String,
) -> (r: CreateOAuthClientCommand)
    ensures
        r.oauth_client_id == oauth_client_id && r.client_id == client_id,
        r.client_name@ == app.name@ + " Service Account Client"@,
        r.client_type@ == "CONFIDENTIAL"@,
        r.client_secret_ref matches Some(s) && s@ == "encrypted:"@ + secret_ref@,
        r.redirect_uris@.len() == 0 && r.post_logout_redirect_uris@.len() == 0,
        string_views(r.grant_types@) == seq!["client_credentials"@],
        r.default_scopes@.len() == 0 && r.allowed_origins@.len() == 0,
        !r.pkce_required,
        r.application_ids@ == seq![app.id],
        r.service_account_principal_id == Some(sa_id),
        r.created_by == Some(principal_id),
{
    let mut client_name = app.name.clone();
    client_name.append(" Service Account Client");
    let mut secret = owned("encrypted:");
    secret.append(secret_ref);
    let grants = one(owned("client_credentials"));
    assert(string_views(grants@) =~= seq!["client_credentials"@]);
    CreateOAuthClientCommand {
        oauth_client_id,
        client_id,
        client_name,
        client_type: owned(OAuthClientType::Confidential.as_str()),
        client_secret_ref: Some(secret),
        redirect_uris: Vec::new(),
        post_logout_redirect_uris: Vec::new(),
        grant_types: grants,
        default_scopes: Vec::new(),
        pkce_required: false,
        application_ids: one(app.id.clone()),
        allowed_origins: Vec::new(),
        service_account_principal_id: Some(sa_id),
        created_by: Some(principal_id),
    }
}

/// The kind of login client asked for: confidential only when asked for by
/// that exact name, public otherwise.
pub fn login_client_type(requested: &Option<String>) -> (r: OAuthClientType)
    ensures
        (requested matches Some(t) && t@ == "CONFIDENTIAL"@) <==> r == OAuthClientType::Confidential,
{
    match requested {
        Some(t) => if str_eq(t.as_str(), "CONFIDENTIAL") {
            OAuthClientType::Confidential
        } else {
            OAuthClientType::Public
        },
        None => OAuthClientType::Public,
    }
}

/// A login client request needs a redirect URI; it gives the client type.
pub fn check_login_client_request(req: &ProvisionLoginClientRequest) -> (r: Result<OAuthClientType, ProvisionRefusal>)
    ensures
        req.redirect_uris@.len() == 0 ==> (r matches Err(ProvisionRefusal::Validation(m))
            && m@ == "At least one redirect URI is required"@),
        req.redirect_uris@.len() > 0 ==> (r matches Ok(t)
            && ((req.client_type matches Some(c) && c@ == "CONFIDENTIAL"@) <==> t == OAuthClientType::Confidential)),
{
    if req.redirect_uris.len() == 0 {
        return Err(ProvisionRefusal::Validation(owned("At least one redirect URI is required")));
    }
    Ok(login_client_type(&req.client_type))
}

/// One login client per application.
pub fn check_no_login_client(existing: &Vec<OAuthClient>) -> (r: Result<(), ProvisionRefusal>)
    ensures
        (exists|i: int| 0 <= i < existing@.len() && crate::oauth_clients::is_login_client(#[trigger] existing@[i]))
            ==> (r matches Err(ProvisionRefusal::Conflict(m)) && m@ == "Application already has a login OAuth client provisioned"@),
        !(exists|i: int| 0 <= i < existing@.len() && crate::oauth_clients::is_login_client(#[trigger] existing@[i]))
            ==> r is Ok,
{
    if crate::oauth_clients::app_has_login_client(existing) {
        return Err(ProvisionRefusal::Conflict(owned("Application already has a login OAuth client provisioned")));
    }
    Ok(())
}

/// The `authorization_code` client for an application's user login, named
/// `<app> Login`, with the OIDC scopes; public clients must use PKCE;
/// `secret_ref` is the encrypted secret of a confidential client.
pub fn login_client_command(
    app: &ApplicationRecord,
    req: &ProvisionLoginClientRequest,
    client_type: OAuthClientType,
    oauth_client_id: String,
    client_id: String,
    secret_ref: &Option<String>,
    principal_id: String,
) -> (r: CreateOAuthClientCommand)
    ensures
        r.oauth_client_id == oauth_client_id && r.client_id == client_id,
        r.client_name@ == app.name@ + " Login"@,
        client_type == OAuthClientType::Public ==> r.client_type@ == "PUBLIC"@,
        client_type == OAuthClientType::Confidential ==> r.client_type@ == "CONFIDENTIAL"@,
        match secret_ref {
            Some(s) => r.client_secret_ref matches Some(x) && x@ == "encrypted:"@ + s@,
            None => r.client_secret_ref is None,
        },
        r.redirect_uris@ == req.redirect_uris@,
        r.post_logout_redirect_uris@.len() == 0,
        string_views(r.grant_types@) == seq!["authorization_code"@],
        string_views(r.default_scopes@) == seq!["openid"@, "profile"@, "email"@],
        r.pkce_required == (client_type == OAuthClientType::Public),
        r.application_ids@ == seq![app.id],
        r.allowed_origins@ == req.allowed_origins@,
        r.service_account_principal_id is None,
        r.created_by == Some(principal_id),
{
    let mut client_name = app.name.clone();
    client_name.append(" Login");
    let secret = match secret_ref {
        Some(s) => {
            let mut x = owned("encrypted:");
            x.append(s.as_str());
            Some(x)
        },
        None => None,
    };
    let grants = one(owned("authorization_code"));
    assert(string_views(grants@) =~= seq!["authorization_code"@]);
    let mut scopes: Vec<String> = Vec::new();
    scopes.push(owned("openid"));
    scopes.push(owned("profile"));
    scopes.push(owned("email"));
    assert(string_views(scopes@) =~= seq!["openid"@, "profile"@, "email"@]);
    CreateOAuthClientCommand {
        oauth_client_id,
        client_id,
        client_name,
        client_type: owned(client_type.as_str()),
        client_secret_ref: secret,
        redirect_uris: copy_strings(&req.redirect_uris),
        post_logout_redirect_uris: Vec::new(),
        grant_types: grants,
        default_scopes: scopes,
        pkce_required: client_type == OAuthClientType::Public,
        application_ids: one(app.id.clone()),
        allowed_origins: copy_strings(&req.allowed_origins),
        service_account_principal_id: None,
        created_by: Some(principal_id),
    }
}

/// The ids of the active clients among a service account's clients, which
/// deactivating the application deactivates with it.
pub fn active_client_ids(clients: &Vec<OAuthClient>) -> (r: Vec<String>)
    ensures
        r@ == active_ids(clients@),
{
    let mut out: Vec<String> = Vec::new();
    let mut i: usize = 0;
    while i < clients.len()
        invariant
            i <= clients@.len(),
            out@ == active_ids(clients@.take(i as int)),
        decreases clients@.len() - i,
    {
        assert(clients@.take(i + 1).drop_last() =~= clients@.take(i as int));
        if clients[i].active {
            out.push(clients[i].id.clone());
        }
        i = i + 1;
    }
    assert(clients@.take(clients@.len() as int) =~= clients@);
    out
}

/// The ids of the active clients, in order.
pub open spec fn active_ids(clients: Seq<OAuthClient>) -> Seq<String>
    decreases clients.len(),
{
    if clients.len() == 0 {
        Seq::empty()
    } else {
        let rest = active_ids(clients.drop_last());
        if clients.last().active { rest.push(clients.last().id) } else { rest }
    }
}

/// The answer to a successful service-account provisioning: status `201`,
/// the service account's principal id and name, and the minted client's row
/// id, public id and plaintext secret (the only time it is shown).
pub fn service_account_provisioned(
    principal_id: String,
    name: String,
    oauth_row_id: String,
    client_id: String,
    client_secret: String,
) -> (r: (u16, ProvisionServiceAccountResponse))
    ensures
        r.0 == 201,
        r.1.message@ == "Service account provisioned"@,
        r.1.service_account.principal_id == principal_id,
        r.1.service_account.name == name,
        r.1.service_account.oauth_client.id == oauth_row_id,
        r.1.service_account.oauth_client.client_id == client_id,
        r.1.service_account.oauth_client.client_secret == Some(client_secret),
{
    (201, ProvisionServiceAccountResponse {
        message: owned("Service account provisioned"),
        service_account: ServiceAccountCredentialsResponse {
            principal_id,
            name,
            oauth_client: OAuthClientCredentials { id: oauth_row_id, client_id, client_secret: Some(client_secret) },
        },
    })
}

/// The answer to a successful login-client provisioning: status `201`, the
/// client's type by name, its row id and public id, its plaintext secret
/// when it is confidential (shown only now), and its redirect URIs.
pub fn login_client_provisioned(
    client_type: OAuthClientType,
    oauth_row_id: String,
    client_id: String,
    client_secret: Option<String>,
    redirect_uris: Vec<String>,
) -> (r: (u16, ProvisionLoginClientResponse))
    ensures
        r.0 == 201,
        r.1.message@ == "Login client provisioned"@,
        r.1.login_client.client_type@ == (if client_type == OAuthClientType::Confidential {
            "CONFIDENTIAL"@
        } else {
            "PUBLIC"@
        }),
        r.1.login_client.oauth_client.id == oauth_row_id,
        r.1.login_client.oauth_client.client_id == client_id,
        r.1.login_client.oauth_client.client_secret == client_secret,
        r.1.login_client.redirect_uris == redirect_uris,
{
    let kind_text = match client_type {
        OAuthClientType::Confidential => owned("CONFIDENTIAL"),
        OAuthClientType::Public => owned("PUBLIC"),
    };
    (201, ProvisionLoginClientResponse {
        message: owned("Login client provisioned"),
        login_client: LoginClientCredentialsResponse {
            client_type: kind_text,
            oauth_client: OAuthClientCredentials { id: oauth_row_id, client_id, client_secret },
            redirect_uris,
        },
    })
}

} // verus!

//! OAuth client administration: request records and the create / update commands.

use vstd::prelude::*;
use crate::errors::{fails_with, UseCaseError};
use crate::text::{all_ws, is_blank, owned, str_eq, to_uppercase, uppercase_spec};

verus! {

/// Create OAuth client request
#[derive(Debug, Clone, PartialEq, Eq)]
pub struct CreateOAuthClientRequest {
    /// OAuth client_id (public identifier). Auto-generated if not provided.
    pub client_id: Option<String>,

    /// Human-readable name
    pub client_name: String,

    /// Client type (PUBLIC or CONFIDENTIAL)
    pub client_type: Option<String>,

    /// Allowed redirect URIs
    pub redirect_uris: Vec<String>,

    /// Allowed post-logout redirect URIs (OIDC RP-Initiated Logout)
    pub post_logout_redirect_uris: Vec<String>,

    /// Allowed grant types
    pub grant_types: Vec<String>,

    /// Whether PKCE is required
    pub pkce_required: Option<bool>,

    /// Application IDs this client can access
    pub application_ids: Vec<String>,
}

/// Update OAuth client request
#[derive(Debug, Clone, PartialEq, Eq)]
pub struct UpdateOAuthClientRequest {
    /// Human-readable name
    pub client_name: Option<String>,

    /// Allowed redirect URIs
    pub redirect_uris: Option<Vec<String>>,

    /// Allowed post-logout redirect URIs (OIDC RP-Initiated Logout)
    pub post_logout_redirect_uris: Option<Vec<String>>,

    /// Allowed grant types
    pub grant_types: Option<Vec<String>>,

    /// Whether PKCE is required
    pub pkce_required: Option<bool>,

    /// Application IDs this client can access
    pub application_ids: Option<Vec<String>>,

    /// Allowed CORS origins
    pub allowed_origins: Option<Vec<String>>,

    /// Whether client is active
    pub active: Option<bool>,
}

/// OAuth client response DTO
#[derive(Debug, Clone, PartialEq, Eq)]
pub struct OAuthClientResponse {
    pub id: String,
    pub client_id: String,
    pub client_name: String,
    pub client_type: String,
    pub redirect_uris: Vec<String>,
    pub post_logout_redirect_uris: Vec<String>,
    pub grant_types: Vec<String>,
    pub default_scopes: Vec<String>,
    pub pkce_required: bool,
    pub application_ids: Vec<String>,
    pub allowed_origins: Vec<String>,
    pub service_account_principal_id: Option<String>,
    pub active: bool,
    pub created_at: String,
    pub updated_at: String,
    pub created_by: Option<String>,
}

/// Wrapper response from `POST /api/oauth-clients`. Includes the freshly
/// generated `client_secret` exactly once for confidential clients — it is
/// never retrievable afterwards.
#[derive(Debug, Clone, PartialEq, Eq)]
pub struct CreateOAuthClientResponse {
    pub client: OAuthClientResponse,
    /// Plaintext client secret. Only present on creation of CONFIDENTIAL
    /// clients. Capture this on the first response — the platform stores
    /// only the encrypted form and cannot return it again.
    pub client_secret: Option<String>,
}

/// List response wrapper for `GET /api/oauth-clients`.
#[derive(Debug, Clone, PartialEq, Eq)]
pub struct OAuthClientListResponse {
    pub clients: Vec<OAuthClientResponse>,
}

/// Regenerate secret response
#[derive(Debug, Clone, PartialEq, Eq)]
pub struct RegenerateSecretResponse {
    /// The new plaintext client secret (shown once)
    pub client_secret: String,
}

#[derive(Debug, Clone, PartialEq, Eq)]
pub struct CreateOAuthClientCommand {
    pub oauth_client_id: String,
    pub client_id: String,
    pub client_name: String,
    pub client_type: String,
    pub client_secret_ref: Option<String>,
    pub redirect_uris: Vec<String>,
    pub post_logout_redirect_uris: Vec<String>,
    pub grant_types: Vec<String>,
    pub default_scopes: Vec<String>,
    pub pkce_required: bool,
    pub application_ids: Vec<String>,
    pub allowed_origins: Vec<String>,
    pub service_account_principal_id: Option<String>,
    pub created_by: Option<String>,
}

#[derive(Debug, Clone, PartialEq, Eq)]
pub struct UpdateOAuthClientCommand {
    pub oauth_client_id: String,
    pub client_name: Option<String>,
    pub redirect_uris: Option<Vec<String>>,
    pub post_logout_redirect_uris: Option<Vec<String>>,
    pub grant_types: Option<Vec<String>>,
    pub pkce_required: Option<bool>,
    pub application_ids: Option<Vec<String>>,
    pub allowed_origins: Option<Vec<String>>,
    pub active: Option<bool>,
}


/// Whether a client can keep a secret.
#[derive(Debug, Clone, Copy, PartialEq, Eq, Structural)]
pub enum OAuthClientType {
    /// Browser or native apps: no secret, PKCE.
    Public,
    /// Server-side apps holding a client secret.
    Confidential,
}

impl OAuthClientType {
    pub fn as_str(&self) -> (r: &'static str)
        ensures
            *self == OAuthClientType::Public ==> r@ == "PUBLIC"@,
            *self == OAuthClientType::Confidential ==> r@ == "CONFIDENTIAL"@,
    {
        match self {
            OAuthClientType::Public => "PUBLIC",
            OAuthClientType::Confidential => "CONFIDENTIAL",
        }
    }
}

/// A client type read case-insensitively: `CONFIDENTIAL` in any case is
/// confidential, anything else public.
pub open spec fn client_type_of(s: Seq<char>) -> OAuthClientType {
    if uppercase_spec(s) == "CONFIDENTIAL"@ {
        OAuthClientType::Confidential
    } else {
        OAuthClientType::Public
    }
}

pub fn parse_client_type(s: &str) -> (r: OAuthClientType)
    ensures
        r == client_type_of(s@),
{
    let up = to_uppercase(s);
    if str_eq(up.as_str(), "CONFIDENTIAL") {
        OAuthClientType::Confidential
    } else {
        OAuthClientType::Public
    }
}

/// A registered OAuth client as the authorization server reads it.
#[derive(Debug, Clone, PartialEq, Eq)]
pub struct OAuthClient {
    /// Row id.
    pub id: String,
    /// Public `client_id` used in the flows.
    pub client_id: String,
    pub client_name: String,
    pub client_type: OAuthClientType,
    /// Encrypted secret of a confidential client.
    pub client_secret_ref: Option<String>,
    pub redirect_uris: Vec<String>,
    pub post_logout_redirect_uris: Vec<String>,
    /// Grant type names, such as `authorization_code`.
    pub grant_types: Vec<String>,
    pub default_scopes: Vec<String>,
    pub pkce_required: bool,
    pub application_ids: Vec<String>,
    pub allowed_origins: Vec<String>,
    pub service_account_principal_id: Option<String>,
    pub active: bool,
}

/// A login client: holds the `authorization_code` grant and is not tied to a
/// service account.
pub open spec fn is_login_client(c: OAuthClient) -> bool {
    c.service_account_principal_id is None && c.grant_types@.map_values(|g: String| g@).contains("authorization_code"@)
}

/// Whether any of an application's clients is a login client.
pub fn app_has_login_client(clients: &Vec<OAuthClient>) -> (r: bool)
    ensures
        r == exists|i: int| 0 <= i < clients@.len() && is_login_client(#[trigger] clients@[i]),
{
    let mut i: usize = 0;
    while i < clients.len()
        invariant
            i <= clients@.len(),
            forall|j: int| 0 <= j < i ==> !is_login_client(#[trigger] clients@[j]),
        decreases clients@.len() - i,
    {
        let c = &clients[i];
        if c.service_account_principal_id.is_none() {
            let ghost gv = c.grant_types@.map_values(|g: String| g@);
            let mut k: usize = 0;
            while k < c.grant_types.len()
                invariant
                    i < clients@.len(),
                    *c == clients@[i as int],
                    c.service_account_principal_id is None,
                    k <= c.grant_types@.len(),
                    gv == c.grant_types@.map_values(|g: String| g@),
                    forall|j: int| 0 <= j < k ==> gv[j] != "authorization_code"@,
                decreases c.grant_types@.len() - k,
            {
                if str_eq(c.grant_types[k].as_str(), "authorization_code") {
                    assert(gv[k as int] == "authorization_code"@);
                    assert(is_login_client(clients@[i as int]));
                    return true;
                }
                k = k + 1;
            }
        }
        i = i + 1;
    }
    false
}

/// Check a create command: row id, public id and name must not be blank.
pub fn validate_create_oauth_client(cmd: &CreateOAuthClientCommand) -> (r: Result<(), UseCaseError>)
    ensures
        all_ws(cmd.oauth_client_id@) ==> fails_with(r, "OAUTH_CLIENT_ID_REQUIRED"@, "OAuth client id is required"@),
        !all_ws(cmd.oauth_client_id@) && all_ws(cmd.client_id@) ==> fails_with(r, "CLIENT_ID_REQUIRED"@, "Client id is required"@),
        !all_ws(cmd.oauth_client_id@) && !all_ws(cmd.client_id@) && all_ws(cmd.client_name@) ==> fails_with(r, "CLIENT_NAME_REQUIRED"@, "Client name is required"@),
        r is Ok <==> !all_ws(cmd.oauth_client_id@) && !all_ws(cmd.client_id@) && !all_ws(cmd.client_name@),
{
    if is_blank(cmd.oauth_client_id.as_str()) {
        return Err(UseCaseError::validation("OAUTH_CLIENT_ID_REQUIRED", "OAuth client id is required"));
    }
    if is_blank(cmd.client_id.as_str()) {
        return Err(UseCaseError::validation("CLIENT_ID_REQUIRED", "Client id is required"));
    }
    if is_blank(cmd.client_name.as_str()) {
        return Err(UseCaseError::validation("CLIENT_NAME_REQUIRED", "Client name is required"));
    }
    Ok(())
}

/// Check an update command: the client id must not be blank.
pub fn validate_update_oauth_client(cmd: &UpdateOAuthClientCommand) -> (r: Result<(), UseCaseError>)
    ensures
        all_ws(cmd.oauth_client_id@) ==> fails_with(r, "OAUTH_CLIENT_ID_REQUIRED"@, "OAuth client id is required"@),
        r is Ok <==> !all_ws(cmd.oauth_client_id@),
{
    if is_blank(cmd.oauth_client_id.as_str()) {
        return Err(UseCaseError::validation("OAUTH_CLIENT_ID_REQUIRED", "OAuth client id is required"));
    }
    Ok(())
}

/// What a create request settles before the client is stored.
#[derive(Debug, Clone, PartialEq, Eq)]
pub struct OAuthClientCreationPlan {
    /// The requested public id, or the generated one.
    pub client_id: String,
    /// The requested type text, `PUBLIC` when absent.
    pub client_type: String,
    pub parsed_client_type: OAuthClientType,
    /// The requested grants, `authorization_code` when none are given.
    pub grant_types: Vec<String>,
    /// The requested flag, or `true` exactly for public clients.
    pub pkce_required: bool,
    /// Whether a secret must be minted (confidential clients).
    pub needs_secret: bool,
}

/// Settle the defaults of a create request; `generated_client_id` is used
/// when the request names no client id.
pub fn plan_oauth_client_creation(req: &CreateOAuthClientRequest, generated_client_id: String) -> (r: OAuthClientCreationPlan)
    ensures
        r.client_id@ == (match req.client_id { Some(c) => c@, None => generated_client_id@ }),
        r.client_type@ == (match req.client_type { Some(t) => t@, None => "PUBLIC"@ }),
        r.parsed_client_type == client_type_of(r.client_type@),
        req.grant_types@.len() == 0 ==> r.grant_types@.map_values(|g: String| g@) == seq!["authorization_code"@],
        req.grant_types@.len() > 0 ==> r.grant_types@ == req.grant_types@,
        r.pkce_required == (match req.pkce_required { Some(b) => b, None => r.parsed_client_type == OAuthClientType::Public }),
        r.needs_secret == (r.parsed_client_type == OAuthClientType::Confidential),
{
    let client_id = match &req.client_id {
        Some(c) => c.clone(),
        None => generated_client_id,
    };
    let client_type = match &req.client_type {
        Some(t) => t.clone(),
        None => owned("PUBLIC"),
    };
    let parsed = parse_client_type(client_type.as_str());
    let grant_types = if req.grant_types.len() == 0 {
        let mut g: Vec<String> = Vec::new();
        g.push(owned("authorization_code"));
        assert(g@.map_values(|x: String| x@) =~= seq!["authorization_code"@]);
        g
    } else {
        req.grant_types.clone()
    };
    let pkce_required = match req.pkce_required {
        Some(b) => b,
        None => parsed == OAuthClientType::Public,
    };
    OAuthClientCreationPlan {
        client_id,
        client_type,
        parsed_client_type: parsed,
        grant_types,
        pkce_required,
        needs_secret: parsed == OAuthClientType::Confidential,
    }
}


/// The grant types the platform knows (those its token endpoint serves).
pub open spec fn known_grant(g: Seq<char>) -> bool {
    g == "authorization_code"@ || g == "client_credentials"@ || g == "refresh_token"@
}

/// The known grant types among `grants`, in order; unknown names are dropped.
pub open spec fn known_grants(grants: Seq<Seq<char>>) -> Seq<Seq<char>>
    decreases grants.len(),
{
    if grants.len() == 0 {
        Seq::empty()
    } else {
        let rest = known_grants(grants.drop_last());
        if known_grant(grants.last()) { rest.push(grants.last()) } else { rest }
    }
}

pub fn keep_known_grants(grants: &Vec<String>) -> (r: Vec<String>)
    ensures
        crate::text::string_views(r@) == known_grants(crate::text::string_views(grants@)),
{
    let ghost gv = crate::text::string_views(grants@);
    let mut out: Vec<String> = Vec::new();
    let mut i: usize = 0;
    while i < grants.len()
        invariant
            gv == crate::text::string_views(grants@),
            i <= gv.len(),
            crate::text::string_views(out@) == known_grants(gv.take(i as int)),
        decreases gv.len() - i,
    {
        assert(gv.take(i + 1).drop_last() =~= gv.take(i as int));
        assert(gv.take(i + 1).last() == grants@[i as int]@);
        let g = grants[i].as_str();
        let ghost before = crate::text::string_views(out@);
        if str_eq(g, "authorization_code") || str_eq(g, "client_credentials") || str_eq(g, "refresh_token") {
            out.push(grants[i].clone());
            assert(crate::text::string_views(out@) =~= before.push(gv[i as int]));
        }
        i = i + 1;
    }
    assert(gv.take(gv.len() as int) =~= gv);
    out
}

/// The refusal of an update or create for a client that is not stored.
pub fn oauth_client_not_found(oauth_client_id: &str) -> (r: UseCaseError)
    ensures
        r.kind == crate::errors::ErrorKind::NotFound,
        r.code@ == "OAUTH_CLIENT_NOT_FOUND"@,
        r.message@ == "OAuth client '"@ + oauth_client_id@ + "' not found"@,
{
    let mut m = owned("OAuth client '");
    m.append(oauth_client_id);
    m.append("' not found");
    UseCaseError { kind: crate::errors::ErrorKind::NotFound, code: owned("OAUTH_CLIENT_NOT_FOUND"), message: m }
}

/// The refusal of a create whose public client id is taken.
pub fn oauth_client_exists(client_id: &str) -> (r: UseCaseError)
    ensures
        r.kind == crate::errors::ErrorKind::BusinessRule,
        r.code@ == "OAUTH_CLIENT_EXISTS"@,
        r.message@ == "OAuth client with clientId '"@ + client_id@ + "' already exists"@,
{
    let mut m = owned("OAuth client with clientId '");
    m.append(client_id);
    m.append("' already exists");
    UseCaseError { kind: crate::errors::ErrorKind::BusinessRule, code: owned("OAUTH_CLIENT_EXISTS"), message: m }
}

/// Apply an update command: every field it gives replaces the client's
/// (grant types keep only the known ones); the others stay.
pub fn apply_oauth_client_update(client: &mut OAuthClient, cmd: &UpdateOAuthClientCommand)
    ensures
        final(client).id == old(client).id && final(client).client_id == old(client).client_id,
        final(client).client_type == old(client).client_type,
        final(client).client_secret_ref == old(client).client_secret_ref,
        final(client).default_scopes@ == old(client).default_scopes@,
        final(client).service_account_principal_id == old(client).service_account_principal_id,
        final(client).client_name == (match cmd.client_name { Some(n) => n, None => old(client).client_name }),
        final(client).redirect_uris@ == (match cmd.redirect_uris { Some(u) => u@, None => old(client).redirect_uris@ }),
        final(client).post_logout_redirect_uris@ == (match cmd.post_logout_redirect_uris {
            Some(u) => u@,
            None => old(client).post_logout_redirect_uris@,
        }),
        crate::text::string_views(final(client).grant_types@) == (match cmd.grant_types {
            Some(g) => known_grants(crate::text::string_views(g@)),
            None => crate::text::string_views(old(client).grant_types@),
        }),
        final(client).pkce_required == (match cmd.pkce_required { Some(b) => b, None => old(client).pkce_required }),
        final(client).application_ids@ == (match cmd.application_ids { Some(a) => a@, None => old(client).application_ids@ }),
        final(client).allowed_origins@ == (match cmd.allowed_origins { Some(a) => a@, None => old(client).allowed_origins@ }),
        final(client).active == (match cmd.active { Some(b) => b, None => old(client).active }),
{
    if let Some(name) = &cmd.client_name {
        client.client_name = name.clone();
    }
    if let Some(uris) = &cmd.redirect_uris {
        client.redirect_uris = crate::text::copy_strings(uris);
    }
    if let Some(uris) = &cmd.post_logout_redirect_uris {
        client.post_logout_redirect_uris = crate::text::copy_strings(uris);
    }
    if let Some(grants) = &cmd.grant_types {
        client.grant_types = keep_known_grants(grants);
    }
    if let Some(pkce) = cmd.pkce_required {
        client.pkce_required = pkce;
    }
    if let Some(apps) = &cmd.application_ids {
        client.application_ids = crate::text::copy_strings(apps);
    }
    if let Some(origins) = &cmd.allowed_origins {
        client.allowed_origins = crate::text::copy_strings(origins);
    }
    if let Some(active) = cmd.active {
        client.active = active;
    }
}


/// A row of a table that lists one value of a client (a redirect URI, a
/// grant type, an application id, an allowed origin).
#[derive(Debug, Clone, PartialEq, Eq)]
pub struct ClientValueRow {
    pub oauth_client_id: String,
    pub value: String,
}

/// The values of the rows for client `id`, in row order.
pub open spec fn values_for(rows: Seq<ClientValueRow>, id: Seq<char>) -> Seq<Seq<char>>
    decreases rows.len(),
{
    if rows.len() == 0 {
        Seq::empty()
    } else {
        let rest = values_for(rows.drop_last(), id);
        if rows.last().oauth_client_id@ == id { rest.push(rows.last().value@) } else { rest }
    }
}

pub fn client_values(rows: &Vec<ClientValueRow>, id: &str) -> (r: Vec<String>)
    ensures
        crate::text::string_views(r@) == values_for(rows@, id@),
{
    let mut out: Vec<String> = Vec::new();
    let mut i: usize = 0;
    while i < rows.len()
        invariant
            i <= rows@.len(),
            crate::text::string_views(out@) == values_for(rows@.take(i as int), id@),
        decreases rows@.len() - i,
    {
        assert(rows@.take(i + 1).drop_last() =~= rows@.take(i as int));
        let ghost before = crate::text::string_views(out@);
        if str_eq(rows[i].oauth_client_id.as_str(), id) {
            out.push(rows[i].value.clone());
            assert(crate::text::string_views(out@) =~= before.push(rows@[i as int].value@));
        }
        i = i + 1;
    }
    assert(rows@.take(rows@.len() as int) =~= rows@);
    out
}

/// No earlier client has the same id (the first of equal ids takes the rows).
pub open spec fn first_of_id(clients: Seq<OAuthClient>, i: int) -> bool {
    forall|j: int| 0 <= j < i ==> (#[trigger] clients[j]).id@ != clients[i].id@
}

/// A client's list after loading: the loaded values when the client is the
/// first with its id and has some, else what it had.
pub open spec fn loaded(first: bool, values: Seq<Seq<char>>, had: Seq<Seq<char>>) -> Seq<Seq<char>> {
    if first && values.len() > 0 { values } else { had }
}

/// The lists of a client with the rows of the tables that hold them.
pub struct ClientValueTables {
    pub redirect_uris: Vec<ClientValueRow>,
    pub post_logout_redirect_uris: Vec<ClientValueRow>,
    pub grant_types: Vec<ClientValueRow>,
    pub application_ids: Vec<ClientValueRow>,
    pub allowed_origins: Vec<ClientValueRow>,
}

fn is_first_of_id(clients: &Vec<OAuthClient>, i: usize) -> (r: bool)
    requires
        i < clients@.len(),
    ensures
        r == first_of_id(clients@, i as int),
{
    let mut j: usize = 0;
    while j < i
        invariant
            i < clients@.len(),
            j <= i,
            forall|k: int| 0 <= k < j ==> (#[trigger] clients@[k]).id@ != clients@[i as int].id@,
        decreases i - j,
    {
        if str_eq(clients[j].id.as_str(), clients[i].id.as_str()) {
            return false;
        }
        j = j + 1;
    }
    true
}

fn load_list(first: bool, values: Vec<String>, had: Vec<String>) -> (r: Vec<String>)
    ensures
        crate::text::string_views(r@) == loaded(first, crate::text::string_views(values@), crate::text::string_views(had@)),
{
    if first && values.len() > 0 { values } else { had }
}

/// Fill the lists of loaded clients from their tables: each client (the
/// first with its id) gets the values of its rows, in row order, where it
/// has some; grant types keep only the known ones.
pub fn hydrate_clients(clients: &mut Vec<OAuthClient>, tables: &ClientValueTables)
    ensures
        final(clients)@.len() == old(clients)@.len(),
        forall|i: int| 0 <= i < old(clients)@.len() ==> {
            let before = old(clients)@[i];
            let after = #[trigger] final(clients)@[i];
            let first = first_of_id(old(clients)@, i);
            &&& after.id == before.id && after.client_id == before.client_id
            &&& after.client_name == before.client_name && after.client_type == before.client_type
            &&& after.client_secret_ref == before.client_secret_ref && after.pkce_required == before.pkce_required
            &&& after.service_account_principal_id == before.service_account_principal_id
            &&& after.active == before.active
            &&& after.default_scopes@ == before.default_scopes@
            &&& crate::text::string_views(after.redirect_uris@) == loaded(first,
                values_for(tables.redirect_uris@, before.id@), crate::text::string_views(before.redirect_uris@))
            &&& crate::text::string_views(after.post_logout_redirect_uris@) == loaded(first,
                values_for(tables.post_logout_redirect_uris@, before.id@),
                crate::text::string_views(before.post_logout_redirect_uris@))
            &&& crate::text::string_views(after.grant_types@) == loaded(first,
                known_grants(values_for(tables.grant_types@, before.id@)), crate::text::string_views(before.grant_types@))
            &&& crate::text::string_views(after.application_ids@) == loaded(first,
                values_for(tables.application_ids@, before.id@), crate::text::string_views(before.application_ids@))
            &&& crate::text::string_views(after.allowed_origins@) == loaded(first,
                values_for(tables.allowed_origins@, before.id@), crate::text::string_views(before.allowed_origins@))
        },
{
    let ghost start = clients@;
    let n = clients.len();
    let mut out: Vec<OAuthClient> = Vec::new();
    let mut i: usize = 0;
    while i < n
        invariant
            n == start.len(),
            clients@ == start,
            i <= n,
            out@.len() == i,
            forall|k: int| 0 <= k < i ==> {
                let before = start[k];
                let after = #[trigger] out@[k];
                let first = first_of_id(start, k);
                &&& after.id == before.id && after.client_id == before.client_id
                &&& after.client_name == before.client_name && after.client_type == before.client_type
                &&& after.client_secret_ref == before.client_secret_ref && after.pkce_required == before.pkce_required
                &&& after.service_account_principal_id == before.service_account_principal_id
                &&& after.active == before.active
                &&& after.default_scopes@ == before.default_scopes@
                &&& crate::text::string_views(after.redirect_uris@) == loaded(first,
                    values_for(tables.redirect_uris@, before.id@), crate::text::string_views(before.redirect_uris@))
                &&& crate::text::string_views(after.post_logout_redirect_uris@) == loaded(first,
                    values_for(tables.post_logout_redirect_uris@, before.id@),
                    crate::text::string_views(before.post_logout_redirect_uris@))
                &&& crate::text::string_views(after.grant_types@) == loaded(first,
                    known_grants(values_for(tables.grant_types@, before.id@)), crate::text::string_views(before.grant_types@))
                &&& crate::text::string_views(after.application_ids@) == loaded(first,
                    values_for(tables.application_ids@, before.id@), crate::text::string_views(before.application_ids@))
                &&& crate::text::string_views(after.allowed_origins@) == loaded(first,
                    values_for(tables.allowed_origins@, before.id@), crate::text::string_views(before.allowed_origins@))
            },
        decreases n - i,
    {
        let first = is_first_of_id(clients, i);
        let c = &clients[i];
        let id = c.id.as_str();
        let uris = load_list(first, client_values(&tables.redirect_uris, id), crate::text::copy_strings(&c.redirect_uris));
        let post = load_list(first, client_values(&tables.post_logout_redirect_uris, id),
            crate::text::copy_strings(&c.post_logout_redirect_uris));
        let grants = load_list(first, keep_known_grants(&client_values(&tables.grant_types, id)),
            crate::text::copy_strings(&c.grant_types));
        let apps = load_list(first, client_values(&tables.application_ids, id), crate::text::copy_strings(&c.application_ids));
        let origins = load_list(first, client_values(&tables.allowed_origins, id), crate::text::copy_strings(&c.allowed_origins));
        out.push(OAuthClient {
            id: c.id.clone(),
            client_id: c.client_id.clone(),
            client_name: c.client_name.clone(),
            client_type: c.client_type,
            client_secret_ref: crate::text::copy_opt(&c.client_secret_ref),
            redirect_uris: uris,
            post_logout_redirect_uris: post,
            grant_types: grants,
            default_scopes: crate::text::copy_strings(&c.default_scopes),
            pkce_required: c.pkce_required,
            application_ids: apps,
            allowed_origins: origins,
            service_account_principal_id: crate::text::copy_opt(&c.service_account_principal_id),
            active: c.active,
        });
        i = i + 1;
    }
    *clients = out;
}


/// Query parameters for the OAuth client list (paging is read separately).
#[derive(Debug, Clone, PartialEq, Eq)]
pub struct OAuthClientsQuery {
    /// Filter by active status
    pub active: Option<bool>,
}

} // verus!

//! Request and response records of the client (tenant) admin API.

use vstd::prelude::*;
use crate::access::{can_access_client, may_access, AccessScope};
use crate::text::{copy_opt, owned, str_eq};

verus! {

/// Create client request
#[derive(Debug, Clone, PartialEq, Eq)]
pub struct CreateClientRequest {
    /// Unique identifier/slug (URL-safe)
    pub identifier: String,

    /// Human-readable name
    pub name: String,
}

/// Update client request
#[derive(Debug, Clone, PartialEq, Eq)]
pub struct UpdateClientRequest {
    /// Human-readable name
    pub name: Option<String>,
}

/// Status change request (for suspend/deactivate)
#[derive(Debug, Clone, PartialEq, Eq)]
pub struct StatusChangeRequest {
    /// Reason for the status change
    pub reason: String,
}

/// Status change response
#[derive(Debug, Clone, PartialEq, Eq)]
pub struct StatusChangeResponse {
    pub message: String,
}

/// Client response DTO
#[derive(Debug, Clone, PartialEq, Eq)]
pub struct ClientResponse {
    pub id: String,
    pub name: String,
    pub identifier: String,
    pub status: String,
    pub status_reason: Option<String>,
    pub status_changed_at: Option<String>,
    pub created_at: String,
    pub updated_at: String,
}

/// Client list response
#[derive(Debug, Clone, PartialEq, Eq)]
pub struct ClientListResponse {
    pub clients: Vec<ClientResponse>,
    pub total: usize,
}

/// Search query parameters
#[derive(Debug, Clone, PartialEq, Eq)]
pub struct SearchQuery {
    /// Search term (matches name or identifier)
    pub q: Option<String>,
    /// Search term alternative
    pub query: Option<String>,
}

/// Add note request
#[derive(Debug, Clone, PartialEq, Eq)]
pub struct AddNoteRequest {
    /// Category of the note
    pub category: String,
    /// Note content
    pub text: String,
}

/// Add note response
#[derive(Debug, Clone, PartialEq, Eq)]
pub struct AddNoteResponse {
    pub message: String,
}

/// Client application config response
#[derive(Debug, Clone, PartialEq, Eq)]
pub struct ClientApplicationResponse {
    /// Application ID
    pub id: String,
    /// Application code
    pub code: String,
    /// Application display name
    pub name: String,
    /// Application description
    pub description: Option<String>,
    /// Application icon URL
    pub icon_url: Option<String>,
    /// Whether the application itself is active globally
    pub active: bool,
    /// Whether this application is enabled for this specific client
    pub enabled_for_client: bool,
}

/// Client applications list response
#[derive(Debug, Clone, PartialEq, Eq)]
pub struct ClientApplicationsResponse {
    pub applications: Vec<ClientApplicationResponse>,
    pub total: usize,
}

/// Update client applications request
#[derive(Debug, Clone, PartialEq, Eq)]
pub struct UpdateClientApplicationsRequest {
    /// List of application IDs to enable
    pub enabled_application_ids: Vec<String>,
}


/// What the client's application list shows of an application.
#[derive(Debug, Clone, PartialEq, Eq)]
pub struct ApplicationSummary {
    pub id: String,
    pub code: String,
    pub name: String,
    pub description: Option<String>,
    pub icon_url: Option<String>,
    pub active: bool,
}

/// A client's setting for one application.
#[derive(Debug, Clone, PartialEq, Eq)]
pub struct ClientApplicationConfig {
    pub application_id: String,
    pub enabled: bool,
}

/// Whether some enabled setting names the application.
pub open spec fn enabled_for(configs: Seq<ClientApplicationConfig>, app_id: Seq<char>) -> bool {
    exists|i: int| 0 <= i < configs.len() && (#[trigger] configs[i]).enabled && configs[i].application_id@ == app_id
}

fn is_enabled_for(configs: &Vec<ClientApplicationConfig>, app_id: &str) -> (r: bool)
    ensures
        r == enabled_for(configs@, app_id@),
{
    let mut i: usize = 0;
    while i < configs.len()
        invariant
            i <= configs@.len(),
            forall|j: int| 0 <= j < i ==> !((#[trigger] configs@[j]).enabled && configs@[j].application_id@ == app_id@),
        decreases configs@.len() - i,
    {
        if configs[i].enabled && str_eq(configs[i].application_id.as_str(), app_id) {
            return true;
        }
        i = i + 1;
    }
    false
}

/// Every application, in order, marked enabled when one of the client's
/// settings enables it; without settings none is enabled.
pub fn client_applications(apps: &Vec<ApplicationSummary>, configs: &Option<Vec<ClientApplicationConfig>>) -> (r: ClientApplicationsResponse)
    ensures
        r.total == apps@.len(),
        r.applications@.len() == apps@.len(),
        forall|i: int| 0 <= i < apps@.len() ==> {
            let a = #[trigger] r.applications@[i];
            &&& a.id == apps@[i].id && a.code == apps@[i].code && a.name == apps@[i].name
            &&& a.description == apps@[i].description && a.icon_url == apps@[i].icon_url
            &&& a.active == apps@[i].active
            &&& a.enabled_for_client == (match configs { Some(c) => enabled_for(c@, apps@[i].id@), None => false })
        },
{
    let mut out: Vec<ClientApplicationResponse> = Vec::new();
    let mut i: usize = 0;
    while i < apps.len()
        invariant
            i <= apps@.len(),
            out@.len() == i,
            forall|k: int| 0 <= k < i ==> {
                let a = #[trigger] out@[k];
                &&& a.id == apps@[k].id && a.code == apps@[k].code && a.name == apps@[k].name
                &&& a.description == apps@[k].description && a.icon_url == apps@[k].icon_url
                &&& a.active == apps@[k].active
                &&& a.enabled_for_client == (match configs { Some(c) => enabled_for(c@, apps@[k].id@), None => false })
            },
        decreases apps@.len() - i,
    {
        let app = &apps[i];
        let enabled = match configs {
            Some(c) => is_enabled_for(c, app.id.as_str()),
            None => false,
        };
        out.push(ClientApplicationResponse {
            id: app.id.clone(),
            code: app.code.clone(),
            name: app.name.clone(),
            description: copy_opt(&app.description),
            icon_url: copy_opt(&app.icon_url),
            active: app.active,
            enabled_for_client: enabled,
        });
        i = i + 1;
    }
    let total = out.len();
    ClientApplicationsResponse { applications: out, total }
}

/// The search term of a client search: `q`, else `query`, else nothing.
pub fn search_term(query: &SearchQuery) -> (r: String)
    ensures
        r@ == (match query.q { Some(q) => q@, None => match query.query { Some(q) => q@, None => Seq::empty() } }),
{
    match &query.q {
        Some(q) => q.clone(),
        None => match &query.query {
            Some(q) => q.clone(),
            None => String::new(),
        },
    }
}

/// Anchor users may look at every client, others at the clients they may use.
pub fn check_client_visible(scope: &AccessScope, client_id: &str) -> (r: Result<(), String>)
    ensures
        (scope.anchor || may_access(*scope, client_id@)) ==> r is Ok,
        !(scope.anchor || may_access(*scope, client_id@)) ==> (r matches Err(m) && m@ == "No access to this client"@),
{
    if !scope.anchor && !can_access_client(scope, client_id) {
        return Err(owned("No access to this client"));
    }
    Ok(())
}

/// The clients a caller may see, in order, with their count.
pub open spec fn visible_clients(scope: AccessScope, clients: Seq<ClientResponse>) -> Seq<ClientResponse>
    decreases clients.len(),
{
    if clients.len() == 0 {
        Seq::empty()
    } else {
        let rest = visible_clients(scope, clients.drop_last());
        if scope.anchor || may_access(scope, clients.last().id@) { rest.push(clients.last()) } else { rest }
    }
}

fn copy_client_response(c: &ClientResponse) -> (r: ClientResponse)
    ensures
        r == *c,
{
    ClientResponse {
        id: c.id.clone(),
        name: c.name.clone(),
        identifier: c.identifier.clone(),
        status: c.status.clone(),
        status_reason: copy_opt(&c.status_reason),
        status_changed_at: copy_opt(&c.status_changed_at),
        created_at: c.created_at.clone(),
        updated_at: c.updated_at.clone(),
    }
}

pub fn client_list(scope: &AccessScope, clients: Vec<ClientResponse>) -> (r: ClientListResponse)
    ensures
        r.clients@ == visible_clients(*scope, clients@),
        r.total == r.clients@.len(),
{
    let mut out: Vec<ClientResponse> = Vec::new();
    let mut i: usize = 0;
    while i < clients.len()
        invariant
            i <= clients@.len(),
            out@ == visible_clients(*scope, clients@.take(i as int)),
        decreases clients@.len() - i,
    {
        assert(clients@.take(i + 1).drop_last() =~= clients@.take(i as int));
        if scope.anchor || can_access_client(scope, clients[i].id.as_str()) {
            out.push(copy_client_response(&clients[i]));
        }
        i = i + 1;
    }
    assert(clients@.take(clients@.len() as int) =~= clients@);
    let total = out.len();
    ClientListResponse { clients: out, total }
}


/// Query parameters for the client list (paging is read separately).
#[derive(Debug, Clone, PartialEq, Eq)]
pub struct ClientsQuery {
    /// Filter by status
    pub status: Option<String>,
}

} // verus!

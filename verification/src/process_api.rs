//! Request and response records of the process API.

use vstd::prelude::*;
use crate::auth_config::{rfc3339_from_micros, rfc3339_text};
use crate::process::{source_name, status_name, Process};
use crate::text::owned;

verus! {

#[derive(Debug, Clone, PartialEq, Eq)]
pub struct CreateProcessRequest {
    /// Process code: {application}:{subdomain}:{process-name}
    pub code: String,
    pub name: String,
    pub description: Option<String>,
    /// Diagram body (typically Mermaid source).
    pub body: String,
    /// Defaults to `mermaid` if unset.
    pub diagram_type: Option<String>,
    pub tags: Vec<String>,
}

#[derive(Debug, Clone, PartialEq, Eq)]
pub struct UpdateProcessRequest {
    pub name: Option<String>,
    pub description: Option<String>,
    pub body: Option<String>,
    pub diagram_type: Option<String>,
    pub tags: Option<Vec<String>>,
}

#[derive(Debug, Clone, PartialEq, Eq)]
pub struct ProcessResponse {
    pub id: String,
    pub code: String,
    pub name: String,
    pub description: Option<String>,
    pub status: String,
    pub source: String,
    pub application: String,
    pub subdomain: String,
    pub process_name: String,
    pub body: String,
    pub diagram_type: String,
    pub tags: Vec<String>,
    pub created_at: String,
    pub updated_at: String,
}

#[derive(Debug, Clone, PartialEq, Eq)]
pub struct ProcessListResponse {
    pub items: Vec<ProcessResponse>,
}


impl ProcessResponse {
    /// The response for a stored process.
    pub fn from_process(p: Process) -> (r: Self)
        ensures
            r.id == p.id && r.code == p.code && r.name == p.name && r.description == p.description,
            r.status@ == status_name(p.status) && r.source@ == source_name(p.source),
            r.application == p.application && r.subdomain == p.subdomain && r.process_name == p.process_name,
            r.body == p.body && r.diagram_type == p.diagram_type && r.tags == p.tags,
            r.created_at@ == rfc3339_text(p.created_at) && r.updated_at@ == rfc3339_text(p.updated_at),
    {
        let status = owned(p.status.as_str());
        let source = owned(p.source.as_str());
        let created_at = rfc3339_from_micros(p.created_at);
        let updated_at = rfc3339_from_micros(p.updated_at);
        ProcessResponse {
            id: p.id,
            code: p.code,
            name: p.name,
            description: p.description,
            status,
            source,
            application: p.application,
            subdomain: p.subdomain,
            process_name: p.process_name,
            body: p.body,
            diagram_type: p.diagram_type,
            tags: p.tags,
            created_at,
            updated_at,
        }
    }
}

/// The status filter of a process list: the one asked for, or `CURRENT`
/// when the request names no filter at all.
pub fn process_status_filter(
    application: &Option<String>,
    subdomain: &Option<String>,
    status: &Option<String>,
    search: &Option<String>,
) -> (r: Option<String>)
    ensures
        (application is None && subdomain is None && status is None && search is None)
            ==> (r matches Some(x) && x@ == "CURRENT"@),
        !(application is None && subdomain is None && status is None && search is None) ==> r == *status,
{
    if application.is_none() && subdomain.is_none() && status.is_none() && search.is_none() {
        Some(owned("CURRENT"))
    } else {
        crate::text::copy_opt(status)
    }
}


/// Query parameters for the process list (paging is read separately).
#[derive(Debug, Clone, PartialEq, Eq)]
pub struct ProcessesQuery {
    pub application: Option<String>,
    pub subdomain: Option<String>,
    pub status: Option<String>,
    pub search: Option<String>,
}

} // verus!

//! Request and response records of the audit-log API.

use vstd::prelude::*;

verus! {

/// The page size of an audit-log list when none is asked for.
pub fn default_page_size() -> (r: i32)
    ensures
        r == 50,
{
    50
}

/// Audit log response DTO
#[derive(Debug, Clone, PartialEq, Eq)]
pub struct AuditLogResponse {
    pub id: String,
    pub operation: String,
    pub entity_type: String,
    pub entity_id: Option<String>,
    pub principal_id: Option<String>,
    pub principal_name: Option<String>,
    pub application_id: Option<String>,
    pub client_id: Option<String>,
    pub performed_at: String,
}

/// Audit log detail response (includes operation JSON)
#[derive(Debug, Clone, PartialEq, Eq)]
pub struct AuditLogDetailResponse {
    pub id: String,
    pub operation: String,
    pub entity_type: String,
    pub entity_id: Option<String>,
    pub operation_json: Option<String>,
    pub principal_id: Option<String>,
    pub principal_name: Option<String>,
    pub application_id: Option<String>,
    pub client_id: Option<String>,
    pub performed_at: String,
}

/// Cursor-paginated audit logs response. `aud_logs` grows unbounded, so we
/// keyset-paginate on `(performed_at, id) DESC` and never count.
#[derive(Debug, Clone, PartialEq, Eq)]
pub struct AuditLogListResponse {
    pub audit_logs: Vec<AuditLogResponse>,
    pub has_more: bool,
    pub next_cursor: Option<String>,
}

/// Entity types response
#[derive(Debug, Clone, PartialEq, Eq)]
pub struct EntityTypesResponse {
    pub entity_types: Vec<String>,
}

/// Operations response
#[derive(Debug, Clone, PartialEq, Eq)]
pub struct OperationsResponse {
    pub operations: Vec<String>,
}

/// Application IDs response
#[derive(Debug, Clone, PartialEq, Eq)]
pub struct ApplicationIdsResponse {
    pub application_ids: Vec<String>,
}

/// Client IDs response
#[derive(Debug, Clone, PartialEq, Eq)]
pub struct ClientIdsResponse {
    pub client_ids: Vec<String>,
}

/// Entity audit logs response
#[derive(Debug, Clone, PartialEq, Eq)]
pub struct EntityAuditLogsResponse {
    pub audit_logs: Vec<AuditLogResponse>,
    pub total: i64,
    pub entity_type: String,
    pub entity_id: String,
}

/// Query parameters for audit logs. Cursor-paginated.
#[derive(Debug, Clone, PartialEq, Eq)]
pub struct AuditLogsQuery {
    /// Opaque cursor returned by a previous page's `nextCursor`. Omit for
    /// the first page.
    pub after: Option<String>,

    /// Page size (default 50, capped at 200).
    pub page_size: i32,

    /// Filter by entity type
    pub entity_type: Option<String>,

    /// Filter by entity ID
    pub entity_id: Option<String>,

    /// Filter by operation 
    pub operation: Option<String>,

    /// Filter by principal ID
    pub principal_id: Option<String>,
}


/// The number of audit entries a page holds: the requested size between 1
/// and 200.
pub fn audit_page_size(requested: i32) -> (r: usize)
    ensures
        r == (if requested < 1 { 1 } else if requested > 200 { 200 } else { requested as int }),
{
    if requested < 1 {
        1
    } else if requested > 200 {
        200
    } else {
        requested as usize
    }
}

/// Cut a fetch of one more than a page down to the page; whether more
/// entries follow.
pub fn take_page<T>(items: &mut Vec<T>, size: usize) -> (has_more: bool)
    ensures
        has_more == (old(items)@.len() > size),
        has_more ==> final(items)@ == old(items)@.take(size as int),
        !has_more ==> final(items)@ == old(items)@,
{
    let has_more = items.len() > size;
    if has_more {
        items.truncate(size);
    }
    has_more
}

} // verus!

//! Events: request records, list filters and client attribution.

use vstd::prelude::*;

verus! {

/// Context data for event filtering/searching
#[derive(Debug, Clone, PartialEq, Eq)]
pub struct ContextDataDto {
    pub key: String,
    pub value: String,
}

/// Event read projection response
#[derive(Debug, Clone, PartialEq, Eq)]
pub struct EventReadResponse {
    pub id: String,
    pub event_type: String,
    pub source: String,
    pub subject: Option<String>,
    pub time: String,
    pub application: Option<String>,
    pub subdomain: Option<String>,
    pub aggregate: Option<String>,
    pub event_name: Option<String>,
    pub message_group: Option<String>,
    pub correlation_id: Option<String>,
    pub client_id: Option<String>,
    pub client_name: Option<String>,
    pub created_at: String,
}

/// Query parameters for events list.
///
/// `msg_events_read` is an append-only firehose ingesting at high rates,
/// so this endpoint returns the most recent N rows only — no pagination.
/// Sort order is fixed to most-recent-first (`time DESC, id DESC`); if you
/// need to scan back further, narrow the filters or build a separate
/// report.
#[derive(Debug, Clone, PartialEq, Eq)]
pub struct EventsQuery {
    /// Result size. Default 50, capped at 1000.
    pub size: Option<u32>,

    /// Filter by client IDs (comma-separated)
    pub client_ids: Option<String>,

    /// Filter by event types (comma-separated)
    pub types: Option<String>,

    /// Filter by application codes (comma-separated)
    pub applications: Option<String>,

    /// Filter by subdomains (comma-separated)
    pub subdomains: Option<String>,

    /// Filter by aggregates (comma-separated)
    pub aggregates: Option<String>,

    /// Filter by correlation ID
    pub correlation_id: Option<String>,

    /// Free-text search across type, source, subject
    pub source: Option<String>,
}

/// Event summary for list endpoints (no payload data)
#[derive(Debug, Clone, PartialEq, Eq)]
pub struct EventSummaryResponse {
    pub id: String,
    pub spec_version: String,
    pub event_type: String,
    pub source: String,
    pub subject: Option<String>,
    pub time: String,
    pub message_group: Option<String>,
    pub correlation_id: Option<String>,
    pub client_id: Option<String>,
    pub created_at: String,
}

/// Paginated response
#[derive(Debug, Clone, PartialEq, Eq)]
pub struct PaginatedEventsResponse {
    pub items: Vec<EventSummaryResponse>,
    pub page: u32,
    pub size: u32,
}

/// Query for raw events list — `?size=` only.
#[derive(Debug, Clone, PartialEq, Eq)]
pub struct RawEventsQuery {
    /// Result size. Default 50, capped at 1000.
    pub size: Option<u32>,
}

} // verus!

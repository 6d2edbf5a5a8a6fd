//! Dispatch jobs: request records, list filters and creation defaults.

use vstd::prelude::*;
use std::collections::HashMap;

verus! {

/// Dispatch job response DTO
#[derive(Debug, Clone, PartialEq, Eq)]
pub struct DispatchJobResponse {
    pub id: String,
    pub external_id: Option<String>,
    pub source: Option<String>,
    pub kind: String,
    pub code: String,
    pub subject: Option<String>,
    pub event_id: Option<String>,
    pub correlation_id: Option<String>,
    pub target_url: String,
    pub protocol: String,
    pub client_id: Option<String>,
    pub subscription_id: Option<String>,
    pub service_account_id: Option<String>,
    pub dispatch_pool_id: Option<String>,
    pub message_group: Option<String>,
    pub mode: String,
    pub sequence: i32,
    pub status: String,
    pub attempt_count: u32,
    pub max_retries: u32,
    pub last_error: Option<String>,
    pub timeout_seconds: u32,
    pub retry_strategy: String,
    pub created_at: String,
    pub updated_at: String,
    pub scheduled_for: Option<String>,
    pub expires_at: Option<String>,
    pub completed_at: Option<String>,
    pub last_attempt_at: Option<String>,
    pub duration_millis: Option<i64>,
    pub idempotency_key: Option<String>,
    pub is_completed: bool,
    pub is_terminal: bool,
}

/// Dispatch job read projection response
#[derive(Debug, Clone, PartialEq, Eq)]
pub struct DispatchJobReadResponse {
    pub id: String,
    pub external_id: Option<String>,
    pub source: Option<String>,
    pub kind: String,
    pub code: String,
    pub subject: Option<String>,
    pub event_id: Option<String>,
    pub correlation_id: Option<String>,
    pub target_url: String,
    pub protocol: String,
    pub client_id: Option<String>,
    pub subscription_id: Option<String>,
    pub service_account_id: Option<String>,
    pub dispatch_pool_id: Option<String>,
    pub message_group: Option<String>,
    pub mode: String,
    pub sequence: i32,
    pub status: String,
    pub attempt_count: u32,
    pub max_retries: u32,
    pub last_error: Option<String>,
    pub timeout_seconds: u32,
    pub retry_strategy: String,
    pub created_at: String,
    pub updated_at: String,
    pub scheduled_for: Option<String>,
    pub expires_at: Option<String>,
    pub completed_at: Option<String>,
    pub last_attempt_at: Option<String>,
    pub duration_millis: Option<i64>,
    pub idempotency_key: Option<String>,
    pub is_completed: bool,
    pub is_terminal: bool,
    pub projected_at: Option<String>,
    pub application: Option<String>,
    pub subdomain: Option<String>,
    pub aggregate: Option<String>,
}

/// Query parameters for dispatch jobs list.
///
/// `msg_dispatch_jobs_read` is an append-only firehose, so this endpoint
/// returns the most recent N rows only — no pagination. Sort order is
/// fixed to most-recent-first (`created_at DESC, id DESC`); narrow filters
/// or look up by id if you need older rows.
#[derive(Debug, Clone, PartialEq, Eq)]
pub struct DispatchJobsQuery {
    /// Result size. Default 50, capped at 1000.
    pub size: Option<u32>,

    /// Filter by event ID
    pub event_id: Option<String>,

    /// Filter by correlation ID
    pub correlation_id: Option<String>,

    /// Filter by subscription ID
    pub subscription_id: Option<String>,

    /// Filter by client IDs (comma-separated)
    pub client_ids: Option<String>,

    /// Filter by statuses (comma-separated)
    pub statuses: Option<String>,

    /// Filter by application codes (comma-separated)
    pub applications: Option<String>,

    /// Filter by subdomains (comma-separated)
    pub subdomains: Option<String>,

    /// Filter by aggregates (comma-separated)
    pub aggregates: Option<String>,

    /// Filter by codes (comma-separated)
    pub codes: Option<String>,

    /// Free-text search across code, subject, source
    pub source: Option<String>,
}

/// Request to create a new dispatch job
#[derive(Debug, Clone, PartialEq, Eq)]
pub struct CreateDispatchJobRequest {
    /// Source system/application
    pub source: Option<String>,

    /// The kind of dispatch job (EVENT or TASK)
    pub kind: Option<String>,

    /// The event type or task code
    pub code: String,

    /// CloudEvents-style subject/aggregate reference
    pub subject: Option<String>,

    /// Source event ID (required for EVENT kind)
    pub event_id: Option<String>,

    /// Correlation ID for distributed tracing
    pub correlation_id: Option<String>,

    /// Target URL for webhook delivery
    pub target_url: String,

    /// Payload to deliver (JSON string)
    pub payload: String,

    /// Content type of payload
    pub payload_content_type: Option<String>,

    /// If true, send raw payload only
    pub data_only: bool,

    /// Service account for authentication
    pub service_account_id: String,

    /// Client ID
    pub client_id: Option<String>,

    /// Subscription ID that created this job
    pub subscription_id: Option<String>,

    /// Dispatch mode for ordering
    pub mode: Option<String>,

    /// Rate limiting pool ID
    pub dispatch_pool_id: Option<String>,

    /// Message group for FIFO ordering
    pub message_group: Option<String>,

    /// Sequence number within message group
    pub sequence: Option<i32>,

    /// Timeout in seconds for HTTP call
    pub timeout_seconds: Option<u32>,

    /// Maximum retry attempts
    pub max_retries: Option<u32>,

    /// Retry strategy
    pub retry_strategy: Option<String>,

    /// Idempotency key for deduplication
    pub idempotency_key: Option<String>,

    /// External reference ID
    pub external_id: Option<String>,

    /// Custom metadata
    pub metadata: HashMap<String, String>,
}

/// Response for create dispatch job
#[derive(Debug, Clone, PartialEq, Eq)]
pub struct CreateDispatchJobResponse {
    pub job: DispatchJobResponse,
}

/// Batch create dispatch jobs request
#[derive(Debug, Clone, PartialEq, Eq)]
pub struct BatchCreateDispatchJobsRequest {
    pub jobs: Vec<CreateDispatchJobRequest>,
}

/// Batch create dispatch jobs response
#[derive(Debug, Clone, PartialEq, Eq)]
pub struct BatchCreateDispatchJobsResponse {
    pub jobs: Vec<DispatchJobResponse>,
    pub count: usize,
}

/// Dispatch attempt response DTO
#[derive(Debug, Clone, PartialEq, Eq)]
pub struct DispatchAttemptResponse {
    pub attempt_number: u32,
    pub attempted_at: String,
    pub completed_at: Option<String>,
    pub duration_millis: Option<i64>,
    pub response_code: Option<u16>,
    pub response_body: Option<String>,
    pub success: bool,
    pub error_message: Option<String>,
    pub error_type: Option<String>,
}

/// A filter option with value and label
#[derive(Debug, Clone, PartialEq, Eq)]
pub struct FilterOption {
    pub value: String,
    pub label: String,
}

impl FilterOption {
    /// An option whose label is its value.
    pub fn from_value(v: String) -> (r: Self)
        ensures
            r.value == v && r.label == v,
    {
        FilterOption { label: v.clone(), value: v }
    }
}

/// Filter options for dispatch jobs dropdowns — cascading filter support.
#[derive(Debug, Clone, PartialEq, Eq)]
pub struct DispatchJobFilterOptionsResponse {
    pub clients: Vec<FilterOption>,
    pub applications: Vec<FilterOption>,
    pub subdomains: Vec<FilterOption>,
    pub aggregates: Vec<FilterOption>,
    pub codes: Vec<FilterOption>,
    pub statuses: Vec<FilterOption>,
}

/// Paginated dispatch jobs response
#[derive(Debug, Clone, PartialEq, Eq)]
pub struct PaginatedDispatchJobsResponse {
    pub items: Vec<DispatchJobResponse>,
    pub page: u32,
    pub size: u32,
}

/// Query for raw dispatch jobs list — `?size=` only.
#[derive(Debug, Clone, PartialEq, Eq)]
pub struct RawDispatchJobsQuery {
    /// Result size. Default 50, capped at 1000.
    pub size: Option<u32>,
}

} // verus!

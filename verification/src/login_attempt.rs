//! Request and response records of the login-attempt API.

use vstd::prelude::*;

verus! {

#[derive(Debug, Clone, PartialEq, Eq)]
pub struct LoginAttemptsQuery {
    pub attempt_type: Option<String>,
    pub outcome: Option<String>,
    pub identifier: Option<String>,
    pub principal_id: Option<String>,
    pub date_from: Option<String>,
    pub date_to: Option<String>,
    /// Opaque cursor returned by a previous page's `nextCursor`. Omit for
    /// the first page.
    pub after: Option<String>,
    pub page_size: Option<u64>,
}

#[derive(Debug, Clone, PartialEq, Eq)]
pub struct LoginAttemptResponse {
    pub id: String,
    pub attempt_type: String,
    pub outcome: String,
    pub failure_reason: Option<String>,
    pub identifier: Option<String>,
    pub principal_id: Option<String>,
    pub ip_address: Option<String>,
    pub user_agent: Option<String>,
    pub attempted_at: String,
}

/// Cursor-paginated login attempts response. `iam_login_attempts` grows
/// unbounded so we never count.
#[derive(Debug, Clone, PartialEq, Eq)]
pub struct LoginAttemptsListResponse {
    pub items: Vec<LoginAttemptResponse>,
    pub has_more: bool,
    pub next_cursor: Option<String>,
}

} // verus!

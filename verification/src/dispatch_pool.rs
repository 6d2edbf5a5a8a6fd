//! Request and response records of the dispatch-pool API.

use vstd::prelude::*;
use crate::text::{str_eq, to_uppercase, uppercase_spec};

verus! {

/// Create dispatch pool request
#[derive(Debug, Clone, PartialEq, Eq)]
pub struct CreateDispatchPoolRequest {
    /// Unique code (URL-safe)
    pub code: String,

    /// Human-readable name
    pub name: String,

    /// Description
    pub description: Option<String>,

    /// Client ID (null for anchor-level)
    pub client_id: Option<String>,

    /// Rate limit (messages per minute)
    pub rate_limit: Option<u32>,

    /// Max concurrent dispatches
    pub concurrency: Option<u32>,
}

/// Update dispatch pool request
#[derive(Debug, Clone, PartialEq, Eq)]
pub struct UpdateDispatchPoolRequest {
    /// Human-readable name
    pub name: Option<String>,

    /// Description
    pub description: Option<String>,

    /// Rate limit (messages per minute)
    pub rate_limit: Option<u32>,

    /// Max concurrent dispatches
    pub concurrency: Option<u32>,
}

/// Dispatch pool response DTO
#[derive(Debug, Clone, PartialEq, Eq)]
pub struct DispatchPoolResponse {
    pub id: String,
    pub code: String,
    pub name: String,
    pub description: Option<String>,
    pub client_id: Option<String>,
    pub status: String,
    pub rate_limit: Option<u32>,
    pub concurrency: Option<u32>,
    pub created_at: String,
    pub updated_at: String,
}

/// Dispatch pools list response
#[derive(Debug, Clone, PartialEq, Eq)]
pub struct DispatchPoolListResponse {
    pub pools: Vec<DispatchPoolResponse>,
    pub total: u32,
}


/// Whether a pool dispatches.
#[derive(Debug, Clone, Copy, PartialEq, Eq, Structural)]
pub enum DispatchPoolStatus {
    Active,
    Archived,
}

/// A status filter, read without regard to case.
pub fn parse_status(s: &str) -> (r: Option<DispatchPoolStatus>)
    ensures
        uppercase_spec(s@) == "ACTIVE"@ ==> r == Some(DispatchPoolStatus::Active),
        uppercase_spec(s@) == "ARCHIVED"@ ==> r == Some(DispatchPoolStatus::Archived),
        uppercase_spec(s@) != "ACTIVE"@ && uppercase_spec(s@) != "ARCHIVED"@ ==> r is None,
{
    proof {
        reveal_strlit("ACTIVE");
        reveal_strlit("ARCHIVED");
        assert("ACTIVE"@[1] != "ARCHIVED"@[1]);
    }
    let u = to_uppercase(s);
    if str_eq(u.as_str(), "ACTIVE") {
        Some(DispatchPoolStatus::Active)
    } else if str_eq(u.as_str(), "ARCHIVED") {
        Some(DispatchPoolStatus::Archived)
    } else {
        None
    }
}

/// Who may create a pool: anchor users for any pool; others only for a
/// client they may use, which they must name.
pub fn check_pool_creation(scope: &crate::access::AccessScope, client_id: &Option<String>) -> (r: Result<(), String>)
    ensures
        scope.anchor ==> r is Ok,
        !scope.anchor ==> match client_id {
            None => r matches Err(m) && m@ == "Client ID required for non-anchor users"@,
            Some(c) => if crate::access::may_access(*scope, c@) { r is Ok } else {
                r matches Err(m) && m@ == "No access to this client"@
            },
        },
{
    if !scope.anchor {
        match client_id {
            Some(c) => {
                if !crate::access::can_access_client(scope, c.as_str()) {
                    return Err(crate::text::owned("No access to this client"));
                }
            },
            None => return Err(crate::text::owned("Client ID required for non-anchor users")),
        }
    }
    Ok(())
}


/// Whether a pool appears in a list: it has the filtered status, if one is
/// asked for, and anchor users see every pool while others see pools
/// without a client and those of clients they may use.
pub open spec fn pool_listed(scope: crate::access::AccessScope, status: DispatchPoolStatus, client_id: Option<Seq<char>>, filter: Option<DispatchPoolStatus>) -> bool {
    &&& (filter matches Some(f) ==> status == f)
    &&& (scope.anchor || match client_id { Some(c) => crate::access::may_access(scope, c), None => true })
}

pub fn is_pool_listed(scope: &crate::access::AccessScope, status: DispatchPoolStatus, client_id: &Option<String>, filter: Option<DispatchPoolStatus>) -> (r: bool)
    ensures
        r == pool_listed(*scope, status, crate::text::opt_view(*client_id), filter),
{
    if let Some(f) = filter {
        if status != f {
            return false;
        }
    }
    if scope.anchor {
        return true;
    }
    match client_id {
        Some(c) => crate::access::can_access_client(scope, c.as_str()),
        None => true,
    }
}


/// Query parameters for the dispatch pool list (paging is read separately).
#[derive(Debug, Clone, PartialEq, Eq)]
pub struct DispatchPoolsQuery {
    /// Filter by client ID
    pub client_id: Option<String>,
    /// Filter by status
    pub status: Option<String>,
}

} // verus!

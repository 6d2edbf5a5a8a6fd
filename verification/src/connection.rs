//! Request and response records of the connection API.

use vstd::prelude::*;

verus! {

#[derive(Debug, Clone, PartialEq, Eq)]
pub struct CreateConnectionRequest {
    pub code: String,
    pub name: String,
    pub description: Option<String>,
    pub external_id: Option<String>,
    pub service_account_id: String,
    pub client_id: Option<String>,
}

#[derive(Debug, Clone, PartialEq, Eq)]
pub struct UpdateConnectionRequest {
    pub name: Option<String>,
    pub description: Option<String>,
    pub external_id: Option<String>,
    pub status: Option<String>,
}

#[derive(Debug, Clone, PartialEq, Eq)]
pub struct ConnectionResponse {
    pub id: String,
    pub code: String,
    pub name: String,
    pub description: Option<String>,
    pub external_id: Option<String>,
    pub status: String,
    pub service_account_id: String,
    pub client_id: Option<String>,
    pub client_identifier: Option<String>,
    pub created_at: String,
    pub updated_at: String,
}

#[derive(Debug, Clone, PartialEq, Eq)]
pub struct ConnectionsListResponse {
    pub connections: Vec<ConnectionResponse>,
    pub total: usize,
}

#[derive(Debug, Clone, PartialEq, Eq)]
pub struct ConnectionsQuery {
    pub client_id: Option<String>,
    pub status: Option<String>,
    pub service_account_id: Option<String>,
}

} // verus!

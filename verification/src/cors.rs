//! Request and response records of the CORS-origin API.

use vstd::prelude::*;

verus! {

#[derive(Debug, Clone, PartialEq, Eq)]
pub struct CreateCorsOriginRequest {
    pub origin: String,
    pub description: Option<String>,
}

#[derive(Debug, Clone, PartialEq, Eq)]
pub struct CorsOriginResponse {
    pub id: String,
    pub origin: String,
    pub description: Option<String>,
    pub created_by: Option<String>,
    pub created_at: String,
    pub updated_at: String,
}

#[derive(Debug, Clone, PartialEq, Eq)]
pub struct CorsOriginsListResponse {
    pub cors_origins: Vec<CorsOriginResponse>,
    pub total: usize,
}

#[derive(Debug, Clone, PartialEq, Eq)]
pub struct AllowedOriginsResponse {
    pub origins: Vec<String>,
}

} // verus!

//! Request and response records of the platform-configuration API.

use vstd::prelude::*;
use std::collections::HashMap;
use crate::auth_config::{rfc3339_from_micros, rfc3339_text};

verus! {

#[derive(Debug, Clone, PartialEq, Eq)]
pub struct ConfigQuery {
    pub scope: Option<String>,
    pub client_id: Option<String>,
}

#[derive(Debug, Clone, PartialEq, Eq)]
pub struct SetConfigRequest {
    pub value: String,
    pub value_type: Option<String>,
    pub description: Option<String>,
}

#[derive(Debug, Clone, PartialEq, Eq)]
pub struct ConfigResponse {
    pub id: String,
    pub application_code: String,
    pub section: String,
    pub property: String,
    pub scope: String,
    pub client_id: Option<String>,
    pub value_type: String,
    pub value: String,
    pub description: Option<String>,
    pub created_at: String,
    pub updated_at: String,
}

/// A stored configuration property as the API reads it: its scope and value
/// type by name, its value as the stored record shows it (masked when
/// secret), and its timestamps in microseconds since the epoch.
#[derive(Debug, Clone, PartialEq, Eq)]
pub struct PlatformConfig {
    pub id: String,
    pub application_code: String,
    pub section: String,
    pub property: String,
    pub scope: String,
    pub client_id: Option<String>,
    pub value_type: String,
    pub masked_value: String,
    pub description: Option<String>,
    pub created_at: i64,
    pub updated_at: i64,
}

impl ConfigResponse {
    /// The response for a stored property: its fields as they are, the
    /// masked value, and the timestamps in RFC 3339.
    pub fn from_config(c: PlatformConfig) -> (r: Self)
        ensures
            r.id == c.id && r.application_code == c.application_code && r.section == c.section,
            r.property == c.property && r.scope == c.scope && r.client_id == c.client_id,
            r.value_type == c.value_type && r.value == c.masked_value && r.description == c.description,
            r.created_at@ == rfc3339_text(c.created_at) && r.updated_at@ == rfc3339_text(c.updated_at),
    {
        let created_at = rfc3339_from_micros(c.created_at);
        let updated_at = rfc3339_from_micros(c.updated_at);
        ConfigResponse {
            id: c.id,
            application_code: c.application_code,
            section: c.section,
            property: c.property,
            scope: c.scope,
            client_id: c.client_id,
            value_type: c.value_type,
            value: c.masked_value,
            description: c.description,
            created_at,
            updated_at,
        }
    }
}

#[derive(Debug, Clone, PartialEq, Eq)]
pub struct ConfigListResponse {
    pub items: Vec<ConfigResponse>,
}

#[derive(Debug, Clone, PartialEq, Eq)]
pub struct ConfigSectionResponse {
    pub application_code: String,
    pub section: String,
    pub scope: String,
    pub client_id: Option<String>,
    pub values: HashMap<String, String>,
}

#[derive(Debug, Clone, PartialEq, Eq)]
pub struct ConfigValueResponse {
    pub application_code: String,
    pub section: String,
    pub property: String,
    pub scope: String,
    pub client_id: Option<String>,
    pub value: String,
}

} // verus!

//! FlowCatalyst platform core: the decisions behind the OAuth2 / OIDC
//! endpoints, redirect-URI matching, PKCE, process and dispatch-job rules,
//! and the request / response records of the admin API.

pub mod text;
pub mod errors;
pub mod encoding;
pub mod pkce;
pub mod process;
pub mod redirect;
pub mod application;
pub mod openapi_spec;
pub mod audit;
pub mod auth_config;
pub mod oauth;
pub mod oauth_clients;
pub mod oidc;
pub mod federation;
pub mod id_token;
pub mod provisioning;
pub mod access;
pub mod laws;
pub mod client;
pub mod connection;
pub mod cors;
pub mod dispatch_job;
pub mod dispatch_pool;
pub mod event;
pub mod event_type;
pub mod identity_provider;
pub mod login_attempt;
pub mod platform_config;
pub mod process_api;

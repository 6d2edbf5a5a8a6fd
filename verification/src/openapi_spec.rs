//! Syncing an application's OpenAPI document.

use vstd::prelude::*;
use crate::errors::{fails_with, UseCaseError};
use crate::id_token::{claim_text, json_claim_spec};
use crate::text::{all_ws, is_blank, opt_view, str_eq};

verus! {

#[derive(Debug, Clone, PartialEq, Eq)]
pub struct SyncOpenApiSpecResult {
    pub application_code: String,
    pub spec_id: String,
    pub version: String,
    pub status: String,
    pub archived_prior_version: Option<String>,
    pub has_breaking: bool,
    pub unchanged: bool,
    pub change_notes_text: Option<String>,
}


/// Whether the bytes are a JSON object, as `serde_json` parses them.
pub uninterp spec fn json_object_spec(doc: Seq<u8>) -> bool;

/// `serde_json::from_slice` then `Value::is_object`.
#[verifier::external_body]
fn json_is_object(doc: &[u8]) -> (r: bool)
    ensures
        r == json_object_spec(doc@),
{
    serde_json::from_slice::<serde_json::Value>(doc).map(|v| v.is_object()).unwrap_or(false)
}

/// The refusal, if any, of a sync command: application id and code must not
/// be blank, and the document must be a JSON object with an `openapi` or
/// `swagger` member.
pub open spec fn sync_spec_verdict(application_id: Seq<char>, application_code: Seq<char>, doc: Seq<u8>) -> Option<(Seq<char>, Seq<char>)> {
    if all_ws(application_id) {
        Some(("APPLICATION_ID_REQUIRED"@, "Application id is required"@))
    } else if all_ws(application_code) {
        Some(("APPLICATION_CODE_REQUIRED"@, "Application code is required"@))
    } else if !json_object_spec(doc) {
        Some(("INVALID_OPENAPI_SPEC"@, "OpenAPI spec must be a JSON object"@))
    } else if json_claim_spec(doc, "openapi"@, None) is Absent && json_claim_spec(doc, "swagger"@, None) is Absent {
        Some(("INVALID_OPENAPI_SPEC"@, "Spec is missing the top-level `openapi` (or `swagger`) field"@))
    } else {
        None
    }
}

/// Validate a sync command; `doc` is the JSON text of the OpenAPI document.
pub fn validate_sync_openapi_spec(application_id: &str, application_code: &str, doc: &[u8]) -> (r: Result<(), UseCaseError>)
    ensures
        match sync_spec_verdict(application_id@, application_code@, doc@) {
            None => r is Ok,
            Some((code, message)) => fails_with(r, code, message),
        },
{
    if is_blank(application_id) {
        return Err(UseCaseError::validation("APPLICATION_ID_REQUIRED", "Application id is required"));
    }
    if is_blank(application_code) {
        return Err(UseCaseError::validation("APPLICATION_CODE_REQUIRED", "Application code is required"));
    }
    if !json_is_object(doc) {
        return Err(UseCaseError::validation("INVALID_OPENAPI_SPEC", "OpenAPI spec must be a JSON object"));
    }
    let has_openapi = !matches!(crate::id_token::read_claim(doc, "openapi", None), crate::id_token::JsonClaim::Absent);
    let has_swagger = !matches!(crate::id_token::read_claim(doc, "swagger", None), crate::id_token::JsonClaim::Absent);
    if !has_openapi && !has_swagger {
        return Err(UseCaseError::validation(
            "INVALID_OPENAPI_SPEC",
            "Spec is missing the top-level `openapi` (or `swagger`) field",
        ));
    }
    Ok(())
}

/// An instant given in milliseconds since the epoch as `YYYYMMDDHHMMSS`,
/// as `chrono` formats it (empty for an instant outside chrono's dates).
pub uninterp spec fn compact_timestamp_text(ms: i64) -> Seq<char>;

/// `DateTime::from_timestamp_millis` then `format("%Y%m%d%H%M%S")`; the
/// contract names the result, a function of the instant.
#[verifier::external_body]
fn compact_timestamp(ms: i64) -> (r: String)
    ensures
        r@ == compact_timestamp_text(ms),
{
    chrono::DateTime::from_timestamp_millis(ms).map(|t| t.format("%Y%m%d%H%M%S").to_string()).unwrap_or_default()
}

/// The version a synced document is filed under: its non-blank
/// `info.version`, else the sync time.
pub open spec fn version_candidate(doc: Seq<u8>, synced_at: i64) -> Seq<char> {
    match claim_text(json_claim_spec(doc, "info"@, Some("version"@))) {
        Some(v) => if all_ws(v) { compact_timestamp_text(synced_at) } else { v },
        None => compact_timestamp_text(synced_at),
    }
}

pub fn extract_version(doc: &[u8], synced_at: i64) -> (r: String)
    ensures
        r@ == version_candidate(doc@, synced_at),
{
    match crate::id_token::read_claim(doc, "info", Some("version")) {
        crate::id_token::JsonClaim::Text(v) => if is_blank(v.as_str()) { compact_timestamp(synced_at) } else { v },
        _ => compact_timestamp(synced_at),
    }
}

/// A version already used by the application gets the sync time appended.
pub fn disambiguate_version(candidate: String, taken: bool, synced_at: i64) -> (r: String)
    ensures
        !taken ==> r == candidate,
        taken ==> r@ == candidate@ + "+"@ + compact_timestamp_text(synced_at),
{
    if !taken {
        return candidate;
    }
    let mut v = candidate;
    v.append("+");
    let t = compact_timestamp(synced_at);
    v.append(t.as_str());
    v
}

/// What a sync does with the current document.
#[derive(Debug, Clone, Copy, PartialEq, Eq, Structural)]
pub enum OpenApiSyncStep {
    /// The document is the current one, byte for byte: nothing changes.
    Unchanged,
    /// Store the document as current, archiving the prior one if there is one.
    Replace { archive_prior: bool },
}

/// The sync step for a current document with hash `prior_hash` (if any)
/// and a new document with hash `new_hash`.
pub open spec fn sync_step_spec(prior_hash: Option<Seq<char>>, new_hash: Seq<char>) -> OpenApiSyncStep {
    if prior_hash == Some(new_hash) {
        OpenApiSyncStep::Unchanged
    } else {
        OpenApiSyncStep::Replace { archive_prior: prior_hash is Some }
    }
}

/// The hash of the current document once a step has run: unchanged, or the
/// new document's after a replacement.
pub open spec fn current_hash_after(prior_hash: Option<Seq<char>>, new_hash: Seq<char>, step: OpenApiSyncStep) -> Option<Seq<char>> {
    match step {
        OpenApiSyncStep::Unchanged => prior_hash,
        OpenApiSyncStep::Replace { .. } => Some(new_hash),
    }
}

/// Decide the sync step from the current document's hash (if any) and the
/// new document's hash.
pub fn openapi_sync_step(prior_hash: &Option<String>, new_hash: &str) -> (r: OpenApiSyncStep)
    ensures
        r == sync_step_spec(opt_view(*prior_hash), new_hash@),
{
    match prior_hash {
        Some(h) => if str_eq(h.as_str(), new_hash) {
            OpenApiSyncStep::Unchanged
        } else {
            OpenApiSyncStep::Replace { archive_prior: true }
        },
        None => OpenApiSyncStep::Replace { archive_prior: false },
    }
}

} // verus!

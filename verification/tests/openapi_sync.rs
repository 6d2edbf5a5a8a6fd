use fc_platform::openapi_spec::{
    disambiguate_version, extract_version, openapi_sync_step, validate_sync_openapi_spec, OpenApiSyncStep,
};

const NOW_MS: i64 = 947_638_923_004;

#[test]
fn extract_version_reads_info_version() {
    let spec = br#"{"info": {"version": "2.3.4"}}"#;
    assert_eq!(extract_version(spec, NOW_MS), "2.3.4");
}

#[test]
fn extract_version_falls_back_to_timestamp() {
    let spec = br#"{"info": {}}"#;
    let v = extract_version(spec, NOW_MS);
    assert_eq!(v.len(), 14); // YYYYMMDDHHMMSS
    assert_eq!(v, "20000112010203");
    assert_eq!(extract_version(br#"{"info": {"version": "  "}}"#, NOW_MS), "20000112010203");
}

#[test]
fn sync_validation() {
    let ok = br#"{"openapi": "3.1.0", "info": {}}"#;
    assert!(validate_sync_openapi_spec("app_X", "platform", ok).is_ok());
    assert!(validate_sync_openapi_spec("app_X", "platform", br#"{"swagger": "2.0"}"#).is_ok());
    let e = validate_sync_openapi_spec(" ", "platform", ok).unwrap_err();
    assert_eq!(e.code, "APPLICATION_ID_REQUIRED");
    let e = validate_sync_openapi_spec("app_X", "", ok).unwrap_err();
    assert_eq!(e.code, "APPLICATION_CODE_REQUIRED");
    let e = validate_sync_openapi_spec("app_X", "platform", br#""not-an-object""#).unwrap_err();
    assert_eq!(e.message, "OpenAPI spec must be a JSON object");
    let e = validate_sync_openapi_spec("app_X", "platform", br#"{"info": {}}"#).unwrap_err();
    assert_eq!(e.message, "Spec is missing the top-level `openapi` (or `swagger`) field");
}

#[test]
fn versions_and_steps() {
    assert_eq!(disambiguate_version("1.0".to_string(), false, NOW_MS), "1.0");
    assert_eq!(disambiguate_version("1.0".to_string(), true, NOW_MS), "1.0+20000112010203");
    assert_eq!(openapi_sync_step(&Some("h1".to_string()), "h1"), OpenApiSyncStep::Unchanged);
    assert_eq!(openapi_sync_step(&Some("h1".to_string()), "h2"), OpenApiSyncStep::Replace { archive_prior: true });
    assert_eq!(openapi_sync_step(&None, "h2"), OpenApiSyncStep::Replace { archive_prior: false });
}

#[test]
fn a_second_sync_of_the_same_document_is_unchanged() {
    // first sync: no current document, so the new one is stored
    let first = openapi_sync_step(&None, "h1");
    assert_eq!(first, OpenApiSyncStep::Replace { archive_prior: false });
    // the stored document is now current; the same document again changes nothing
    assert_eq!(openapi_sync_step(&Some("h1".to_string()), "h1"), OpenApiSyncStep::Unchanged);
    // and after a replacement of an older document too
    assert_eq!(openapi_sync_step(&Some("h0".to_string()), "h1"), OpenApiSyncStep::Replace { archive_prior: true });
    assert_eq!(openapi_sync_step(&Some("h1".to_string()), "h1"), OpenApiSyncStep::Unchanged);
}

use fc_platform::application::{Application, ApplicationResponse, ApplicationType};
use fc_platform::platform_config::{ConfigResponse, PlatformConfig};

fn s(x: &str) -> String {
    x.to_string()
}

const NOW_US: i64 = 1_700_000_000_000_000;

fn make_test_application() -> Application {
    Application {
        id: s("app_ABCDEFGHIJKLM"),
        application_type: ApplicationType::Application,
        code: s("my-app"),
        name: s("My Application"),
        description: Some(s("A test application")),
        icon_url: Some(s("https://example.com/icon.png")),
        website: None,
        logo: None,
        logo_mime_type: None,
        default_base_url: Some(s("https://api.example.com")),
        service_account_id: Some(s("sac_SERVICEID12345")),
        active: true,
        created_at: NOW_US,
        updated_at: NOW_US,
    }
}

#[test]
fn test_application_response_serialization() {
    let response = ApplicationResponse::from_application(make_test_application());
    assert_eq!(response.id, "app_ABCDEFGHIJKLM");
    assert_eq!(response.code, "my-app");
    assert_eq!(response.name, "My Application");
    assert_eq!(response.description, Some(s("A test application")));
    assert_eq!(response.application_type, "APPLICATION");
    assert_eq!(response.default_base_url, Some(s("https://api.example.com")));
    assert_eq!(response.icon_url, Some(s("https://example.com/icon.png")));
    assert_eq!(response.service_account_id, Some(s("sac_SERVICEID12345")));
    assert!(response.active);
    assert_eq!(response.created_at, "2023-11-14T22:13:20+00:00");
    assert_eq!(response.updated_at, "2023-11-14T22:13:20+00:00");
    assert_eq!(response.has_login_client, None);
}

#[test]
fn test_application_response_integration_type() {
    let mut app = make_test_application();
    app.application_type = ApplicationType::Integration;
    let response = ApplicationResponse::from_application(app);
    assert_eq!(response.application_type, "INTEGRATION");
}

#[test]
fn test_application_response_null_optionals() {
    let app = Application {
        id: s("app_MINIMALAPPTEST"),
        application_type: ApplicationType::Application,
        code: s("minimal"),
        name: s("Minimal"),
        description: None,
        icon_url: None,
        website: None,
        logo: None,
        logo_mime_type: None,
        default_base_url: None,
        service_account_id: None,
        active: false,
        created_at: NOW_US,
        updated_at: NOW_US,
    };
    let response = ApplicationResponse::from_application(app);
    assert!(response.description.is_none());
    assert!(response.default_base_url.is_none());
    assert!(response.icon_url.is_none());
    assert!(response.service_account_id.is_none());
    assert!(!response.active);
}

#[test]
fn config_response_keeps_fields_and_masks_the_value() {
    let c = PlatformConfig {
        id: s("pcf_1"),
        application_code: s("platform"),
        section: s("smtp"),
        property: s("password"),
        scope: s("GLOBAL"),
        client_id: None,
        value_type: s("SECRET"),
        masked_value: s("********"),
        description: Some(s("SMTP password")),
        created_at: 0,
        updated_at: NOW_US,
    };
    let r = ConfigResponse::from_config(c);
    assert_eq!(r.id, "pcf_1");
    assert_eq!(r.application_code, "platform");
    assert_eq!(r.section, "smtp");
    assert_eq!(r.property, "password");
    assert_eq!(r.scope, "GLOBAL");
    assert_eq!(r.client_id, None);
    assert_eq!(r.value_type, "SECRET");
    assert_eq!(r.value, "********");
    assert_eq!(r.description, Some(s("SMTP password")));
    assert_eq!(r.created_at, "1970-01-01T00:00:00+00:00");
    assert_eq!(r.updated_at, "2023-11-14T22:13:20+00:00");
}

#[test]
fn response_times_keep_their_microseconds() {
    let mut app = make_test_application();
    app.created_at = 1_700_000_000_123_456;
    app.updated_at = 1_700_000_000_500_000;
    let r = ApplicationResponse::from_application(app);
    assert_eq!(r.created_at, "2023-11-14T22:13:20.123456+00:00");
    assert_eq!(r.updated_at, "2023-11-14T22:13:20.500+00:00");
}

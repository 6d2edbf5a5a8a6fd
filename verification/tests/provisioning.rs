use fc_platform::application::ProvisionLoginClientRequest;
use fc_platform::oauth_clients::{OAuthClient, OAuthClientType};
use fc_platform::provisioning::{
    active_client_ids, check_login_client_request, check_no_login_client, login_client_command, login_client_type,
    plan_service_account, service_account_client_command, ApplicationRecord, ProvisionRefusal,
    login_client_provisioned, service_account_provisioned,
};

fn s(x: &str) -> String {
    x.to_string()
}

fn app() -> ApplicationRecord {
    ApplicationRecord { id: s("app_1"), code: s("orders"), name: s("Orders"), service_account_id: None }
}

fn oauth_client(id: &str, grant: &str, sa: Option<&str>, active: bool) -> OAuthClient {
    OAuthClient {
        id: s(id),
        client_id: s("pub"),
        client_name: s("n"),
        client_type: OAuthClientType::Public,
        client_secret_ref: None,
        redirect_uris: vec![],
        post_logout_redirect_uris: vec![],
        grant_types: vec![s(grant)],
        default_scopes: vec![],
        pkce_required: true,
        application_ids: vec![],
        allowed_origins: vec![],
        service_account_principal_id: sa.map(s),
        active,
    }
}

#[test]
fn service_account_plan() {
    let d = plan_service_account(&app()).unwrap();
    assert_eq!(d.code, "app:orders");
    assert_eq!(d.name, "Orders Service Account");
    assert_eq!(d.description, "Service account for application: Orders");
    let mut a = app();
    a.service_account_id = Some(s("sac_1"));
    assert_eq!(
        plan_service_account(&a).unwrap_err(),
        ProvisionRefusal::Conflict(s("Application already has a service account provisioned"))
    );
}

#[test]
fn service_account_client() {
    let c = service_account_client_command(&app(), s("oac_1"), s("pub_1"), "XYZ", s("sac_1"), s("prn_1"));
    assert_eq!(c.client_name, "Orders Service Account Client");
    assert_eq!(c.client_type, "CONFIDENTIAL");
    assert_eq!(c.client_secret_ref.unwrap(), "encrypted:XYZ");
    assert_eq!(c.grant_types, vec![s("client_credentials")]);
    assert_eq!(c.application_ids, vec![s("app_1")]);
    assert_eq!(c.service_account_principal_id.unwrap(), "sac_1");
    assert!(!c.pkce_required);
}

#[test]
fn login_client() {
    assert_eq!(login_client_type(&Some(s("CONFIDENTIAL"))), OAuthClientType::Confidential);
    assert_eq!(login_client_type(&Some(s("confidential"))), OAuthClientType::Public);
    assert_eq!(login_client_type(&None), OAuthClientType::Public);
    let req = ProvisionLoginClientRequest {
        client_type: None,
        redirect_uris: vec![s("https://app/cb")],
        allowed_origins: vec![s("https://app")],
    };
    assert_eq!(check_login_client_request(&req).unwrap(), OAuthClientType::Public);
    let empty = ProvisionLoginClientRequest { client_type: None, redirect_uris: vec![], allowed_origins: vec![] };
    assert_eq!(
        check_login_client_request(&empty).unwrap_err(),
        ProvisionRefusal::Validation(s("At least one redirect URI is required"))
    );
    let c = login_client_command(&app(), &req, OAuthClientType::Public, s("oac_2"), s("pub_2"), &None, s("prn_1"));
    assert_eq!(c.client_name, "Orders Login");
    assert_eq!(c.client_type, "PUBLIC");
    assert!(c.pkce_required);
    assert_eq!(c.client_secret_ref, None);
    assert_eq!(c.default_scopes, vec![s("openid"), s("profile"), s("email")]);
    assert_eq!(c.grant_types, vec![s("authorization_code")]);
    assert_eq!(c.redirect_uris, vec![s("https://app/cb")]);
    let c = login_client_command(
        &app(),
        &req,
        OAuthClientType::Confidential,
        s("oac_2"),
        s("pub_2"),
        &Some(s("K")),
        s("prn_1"),
    );
    assert_eq!(c.client_secret_ref.unwrap(), "encrypted:K");
    assert!(!c.pkce_required);
}

#[test]
fn one_login_client_per_application() {
    let sa_client = oauth_client("oac_1", "authorization_code", Some("sac_1"), true);
    let m2m = oauth_client("oac_2", "client_credentials", None, true);
    assert!(check_no_login_client(&vec![sa_client.clone(), m2m.clone()]).is_ok());
    let login = oauth_client("oac_3", "authorization_code", None, true);
    assert_eq!(
        check_no_login_client(&vec![m2m, login]).unwrap_err(),
        ProvisionRefusal::Conflict(s("Application already has a login OAuth client provisioned"))
    );
}

#[test]
fn active_clients_of_a_service_account() {
    let clients = vec![
        oauth_client("a", "x", None, true),
        oauth_client("b", "x", None, false),
        oauth_client("c", "x", None, true),
    ];
    assert_eq!(active_client_ids(&clients), vec![s("a"), s("c")]);
}

#[test]
fn provisioning_answers_created() {
    let (status, r) =
        service_account_provisioned(s("sac_1"), s("App Service Account"), s("oac_1"), s("pub_1"), s("secret"));
    assert_eq!(status, 201);
    assert_eq!(r.message, "Service account provisioned");
    assert_eq!(r.service_account.principal_id, "sac_1");
    assert_eq!(r.service_account.name, "App Service Account");
    assert_eq!(r.service_account.oauth_client.id, "oac_1");
    assert_eq!(r.service_account.oauth_client.client_id, "pub_1");
    assert_eq!(r.service_account.oauth_client.client_secret, Some(s("secret")));
    let (status, r) = login_client_provisioned(
        OAuthClientType::Public,
        s("oac_2"),
        s("pub_2"),
        None,
        vec![s("https://app/cb")],
    );
    assert_eq!(status, 201);
    assert_eq!(r.message, "Login client provisioned");
    assert_eq!(r.login_client.client_type, "PUBLIC");
    assert_eq!(r.login_client.oauth_client.client_secret, None);
    assert_eq!(r.login_client.redirect_uris, vec![s("https://app/cb")]);
    let (_, r) = login_client_provisioned(OAuthClientType::Confidential, s("oac_3"), s("pub_3"), Some(s("x")), vec![]);
    assert_eq!(r.login_client.client_type, "CONFIDENTIAL");
}

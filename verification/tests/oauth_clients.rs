use fc_platform::errors::ErrorKind;
use fc_platform::oauth_clients::{
    app_has_login_client, apply_oauth_client_update, keep_known_grants, oauth_client_exists, oauth_client_not_found,
    parse_client_type, plan_oauth_client_creation, hydrate_clients, ClientValueRow, ClientValueTables, validate_create_oauth_client, validate_update_oauth_client,
    CreateOAuthClientCommand, CreateOAuthClientRequest, OAuthClient, OAuthClientType, UpdateOAuthClientCommand,
};

fn s(x: &str) -> String {
    x.to_string()
}

fn client() -> OAuthClient {
    OAuthClient {
        id: s("oac_1"),
        client_id: s("pub_1"),
        client_name: s("Old"),
        client_type: OAuthClientType::Public,
        client_secret_ref: None,
        redirect_uris: vec![s("https://a/cb")],
        post_logout_redirect_uris: vec![],
        grant_types: vec![s("authorization_code")],
        default_scopes: vec![s("openid")],
        pkce_required: true,
        application_ids: vec![],
        allowed_origins: vec![],
        service_account_principal_id: None,
        active: true,
    }
}

fn update() -> UpdateOAuthClientCommand {
    UpdateOAuthClientCommand {
        oauth_client_id: s("oac_1"),
        client_name: None,
        redirect_uris: None,
        post_logout_redirect_uris: None,
        grant_types: None,
        pkce_required: None,
        application_ids: None,
        allowed_origins: None,
        active: None,
    }
}

#[test]
fn updates_replace_given_fields_only() {
    let mut c = client();
    apply_oauth_client_update(&mut c, &update());
    assert_eq!(c, client());
    let mut cmd = update();
    cmd.client_name = Some(s("New"));
    cmd.grant_types = Some(vec![s("client_credentials"), s("implicit"), s("refresh_token")]);
    cmd.active = Some(false);
    apply_oauth_client_update(&mut c, &cmd);
    assert_eq!(c.client_name, "New");
    assert_eq!(c.grant_types, vec![s("client_credentials"), s("refresh_token")]);
    assert!(!c.active);
    assert_eq!(c.redirect_uris, vec![s("https://a/cb")]);
    assert_eq!(keep_known_grants(&vec![s("password")]), Vec::<String>::new());
}

#[test]
fn command_checks() {
    let cmd = CreateOAuthClientCommand {
        oauth_client_id: s("oac_1"),
        client_id: s(""),
        client_name: s("n"),
        client_type: s("PUBLIC"),
        client_secret_ref: None,
        redirect_uris: vec![],
        post_logout_redirect_uris: vec![],
        grant_types: vec![],
        default_scopes: vec![],
        pkce_required: true,
        application_ids: vec![],
        allowed_origins: vec![],
        service_account_principal_id: None,
        created_by: None,
    };
    assert_eq!(validate_create_oauth_client(&cmd).unwrap_err().code, "CLIENT_ID_REQUIRED");
    let mut u = update();
    u.oauth_client_id = s(" ");
    assert_eq!(validate_update_oauth_client(&u).unwrap_err().code, "OAUTH_CLIENT_ID_REQUIRED");
    let e = oauth_client_not_found("oac_9");
    assert_eq!(e.kind, ErrorKind::NotFound);
    assert_eq!(e.message, "OAuth client 'oac_9' not found");
    let e = oauth_client_exists("pub_1");
    assert_eq!(e.kind, ErrorKind::BusinessRule);
    assert_eq!(e.message, "OAuth client with clientId 'pub_1' already exists");
}

#[test]
fn creation_defaults() {
    let req = CreateOAuthClientRequest {
        client_id: None,
        client_name: s("App"),
        client_type: None,
        redirect_uris: vec![],
        post_logout_redirect_uris: vec![],
        grant_types: vec![],
        pkce_required: None,
        application_ids: vec![],
    };
    let plan = plan_oauth_client_creation(&req, s("gen_1"));
    assert_eq!(plan.client_id, "gen_1");
    assert_eq!(plan.client_type, "PUBLIC");
    assert_eq!(plan.grant_types, vec![s("authorization_code")]);
    assert!(plan.pkce_required);
    assert!(!plan.needs_secret);
    assert_eq!(parse_client_type("confidential"), OAuthClientType::Confidential);
    assert!(!app_has_login_client(&vec![]));
    assert!(app_has_login_client(&vec![client()]));
}

fn row(id: &str, v: &str) -> ClientValueRow {
    ClientValueRow { oauth_client_id: s(id), value: s(v) }
}

#[test]
fn loading_client_lists() {
    let mut other = client();
    other.id = s("oac_2");
    let mut clients = vec![client(), other];
    let tables = ClientValueTables {
        redirect_uris: vec![row("oac_2", "https://b/cb"), row("oac_1", "https://a/1"), row("oac_1", "https://a/2")],
        post_logout_redirect_uris: vec![],
        grant_types: vec![row("oac_1", "implicit"), row("oac_1", "refresh_token")],
        application_ids: vec![row("oac_9", "app_9")],
        allowed_origins: vec![row("oac_2", "https://b")],
    };
    hydrate_clients(&mut clients, &tables);
    assert_eq!(clients[0].redirect_uris, vec![s("https://a/1"), s("https://a/2")]);
    assert_eq!(clients[0].grant_types, vec![s("refresh_token")]);
    assert_eq!(clients[0].allowed_origins, Vec::<String>::new());
    assert_eq!(clients[1].redirect_uris, vec![s("https://b/cb")]);
    assert_eq!(clients[1].allowed_origins, vec![s("https://b")]);
    assert_eq!(clients[1].grant_types, vec![s("authorization_code")]);
    let mut twins = vec![client(), client()];
    hydrate_clients(&mut twins, &tables);
    assert_eq!(twins[0].redirect_uris.len(), 2);
    assert_eq!(twins[1].redirect_uris, vec![s("https://a/cb")]);
}

use fc_platform::access::AccessScope;
use fc_platform::audit::{audit_page_size, take_page};
use fc_platform::client::{
    check_client_visible, client_applications, client_list, search_term, ApplicationSummary,
    ClientApplicationConfig, ClientResponse, SearchQuery,
};
use fc_platform::dispatch_pool::{is_pool_listed, DispatchPoolStatus};
use fc_platform::event_type::{decimal_text, event_type_status_filter, event_type_visible, next_schema_version};
use fc_platform::process::Process;
use fc_platform::process_api::{process_status_filter, ProcessResponse};

fn s(x: &str) -> String {
    x.to_string()
}

fn scope(clients: &[&str]) -> AccessScope {
    AccessScope { anchor: false, accessible_clients: clients.iter().map(|c| s(c)).collect() }
}

fn app(id: &str) -> ApplicationSummary {
    ApplicationSummary {
        id: s(id),
        code: s("code"),
        name: s("Name"),
        description: None,
        icon_url: Some(s("https://icon")),
        active: true,
    }
}

fn client(id: &str) -> ClientResponse {
    ClientResponse {
        id: s(id),
        name: s("Acme"),
        identifier: s("acme"),
        status: s("ACTIVE"),
        status_reason: None,
        status_changed_at: None,
        created_at: s("t"),
        updated_at: s("t"),
    }
}

#[test]
fn applications_of_a_client() {
    let apps = vec![app("a1"), app("a2"), app("a3")];
    let configs = vec![
        ClientApplicationConfig { application_id: s("a1"), enabled: true },
        ClientApplicationConfig { application_id: s("a2"), enabled: false },
    ];
    let r = client_applications(&apps, &Some(configs));
    assert_eq!(r.total, 3);
    let flags: Vec<bool> = r.applications.iter().map(|a| a.enabled_for_client).collect();
    assert_eq!(flags, vec![true, false, false]);
    assert_eq!(r.applications[0].icon_url.as_deref(), Some("https://icon"));
    let r = client_applications(&apps, &None);
    assert!(r.applications.iter().all(|a| !a.enabled_for_client));
}

#[test]
fn client_searches_and_visibility() {
    assert_eq!(search_term(&SearchQuery { q: Some(s("a")), query: Some(s("b")) }), "a");
    assert_eq!(search_term(&SearchQuery { q: None, query: Some(s("b")) }), "b");
    assert_eq!(search_term(&SearchQuery { q: None, query: None }), "");
    assert!(check_client_visible(&scope(&["clt_1"]), "clt_1").is_ok());
    assert_eq!(check_client_visible(&scope(&["clt_1"]), "clt_2").unwrap_err(), "No access to this client");
    let anchor = AccessScope { anchor: true, accessible_clients: vec![] };
    assert!(check_client_visible(&anchor, "clt_2").is_ok());
    let list = client_list(&scope(&["clt_2"]), vec![client("clt_1"), client("clt_2")]);
    assert_eq!(list.total, 1);
    assert_eq!(list.clients[0].id, "clt_2");
    assert_eq!(client_list(&anchor, vec![client("clt_1"), client("clt_2")]).total, 2);
}

#[test]
fn default_status_filters() {
    assert_eq!(process_status_filter(&None, &None, &None, &None), Some(s("CURRENT")));
    assert_eq!(process_status_filter(&Some(s("orders")), &None, &None, &None), None);
    assert_eq!(process_status_filter(&None, &None, &Some(s("ARCHIVED")), &None), Some(s("ARCHIVED")));
    assert_eq!(event_type_status_filter(&None, &None, &None, &None, &None), Some(s("CURRENT")));
    assert_eq!(event_type_status_filter(&None, &Some(s("clt")), &None, &None, &None), None);
    assert!(event_type_visible(&scope(&[]), &None));
    assert!(!event_type_visible(&scope(&[]), &Some(s("clt_1"))));
    assert!(event_type_visible(&scope(&["clt_1"]), &Some(s("clt_1"))));
}

#[test]
fn schema_versions() {
    assert_eq!(next_schema_version(0), "1.0");
    assert_eq!(next_schema_version(9), "10.0");
    assert_eq!(decimal_text(0), "0");
    assert_eq!(decimal_text(1234567890), "1234567890");
    assert_eq!(decimal_text(u64::MAX), u64::MAX.to_string());
}

#[test]
fn process_responses() {
    let p = Process::new(s("a:b:c"), s("N"), s("prc_1"), 947_638_923_004_000).unwrap();
    let r = ProcessResponse::from_process(p);
    assert_eq!(r.status, "CURRENT");
    assert_eq!(r.source, "UI");
    assert_eq!(r.created_at, "2000-01-12T01:02:03.004+00:00");
    assert_eq!(r.application, "a");
}

#[test]
fn audit_pages() {
    assert_eq!(audit_page_size(0), 1);
    assert_eq!(audit_page_size(50), 50);
    assert_eq!(audit_page_size(500), 200);
    let mut v = vec![1, 2, 3];
    assert!(take_page(&mut v, 2));
    assert_eq!(v, vec![1, 2]);
    let mut v = vec![1, 2];
    assert!(!take_page(&mut v, 2));
    assert_eq!(v, vec![1, 2]);
}

#[test]
fn pool_lists() {
    let sc = scope(&["clt_1"]);
    assert!(is_pool_listed(&sc, DispatchPoolStatus::Active, &None, None));
    assert!(is_pool_listed(&sc, DispatchPoolStatus::Active, &Some(s("clt_1")), Some(DispatchPoolStatus::Active)));
    assert!(!is_pool_listed(&sc, DispatchPoolStatus::Archived, &Some(s("clt_1")), Some(DispatchPoolStatus::Active)));
    assert!(!is_pool_listed(&sc, DispatchPoolStatus::Active, &Some(s("clt_2")), None));
}

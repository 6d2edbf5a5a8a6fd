use fc_platform::access::{
    can_access_client, check_batch_size, check_client_access, client_filter, dispatch_kind, dispatch_mode,
    event_client, is_record_visible, page_size, retry_strategy, split_csv, validate_statuses, AccessScope,
    ClientFilter, DispatchKind, DispatchMode, RetryStrategy,
};
use fc_platform::access::{batch_jobs_answer, admit_event, batch_event_counts, batch_job_drafts, dispatch_job_draft, event_answer, EventAdmission};
use fc_platform::audit::default_page_size;
use fc_platform::auth_config::{AnchorDomain, AnchorDomainResponse};
use fc_platform::dispatch_job::FilterOption;
use fc_platform::dispatch_pool::{check_pool_creation, parse_status, DispatchPoolStatus};

fn s(x: &str) -> String {
    x.to_string()
}

fn client_scope(clients: &[&str]) -> AccessScope {
    AccessScope { anchor: false, accessible_clients: clients.iter().map(|c| s(c)).collect() }
}

fn anchor() -> AccessScope {
    AccessScope { anchor: true, accessible_clients: vec![] }
}

#[test]
fn client_access() {
    let sc = client_scope(&["clt_1", "clt_2"]);
    assert!(can_access_client(&sc, "clt_2"));
    assert!(!can_access_client(&sc, "clt_3"));
    assert!(can_access_client(&client_scope(&["*"]), "clt_3"));
    assert!(can_access_client(&anchor(), "clt_3"));
    assert!(is_record_visible(&anchor(), &None));
    assert!(!is_record_visible(&sc, &None));
    assert!(is_record_visible(&sc, &Some(s("clt_1"))));
    assert!(check_client_access(&sc, &None).is_ok());
    assert_eq!(check_client_access(&sc, &Some(s("clt_9"))).unwrap_err(), "No access to client: clt_9");
}

#[test]
fn event_client_defaults_to_first_accessible() {
    let sc = client_scope(&["clt_1", "clt_2"]);
    assert_eq!(event_client(&sc, &None), Some(s("clt_1")));
    assert_eq!(event_client(&sc, &Some(s("clt_5"))), Some(s("clt_5")));
    assert_eq!(event_client(&anchor(), &None), None);
    assert_eq!(event_client(&client_scope(&[]), &None), None);
}

#[test]
fn csv_filters() {
    assert_eq!(split_csv(&Some(s(" a, ,b ,,c"))), vec![s("a"), s("b"), s("c")]);
    assert!(split_csv(&None).is_empty());
    assert!(split_csv(&Some(s(""))).is_empty());
}

#[test]
fn list_client_filters() {
    let sc = client_scope(&["clt_1", "*", "clt_2"]);
    assert_eq!(client_filter(&sc, vec![]).unwrap(), ClientFilter::Clients(vec![s("clt_1"), s("clt_2")]));
    assert_eq!(client_filter(&client_scope(&["*"]), vec![]).unwrap(), ClientFilter::Nothing);
    assert_eq!(client_filter(&anchor(), vec![]).unwrap(), ClientFilter::Clients(vec![]));
    let narrow = client_scope(&["clt_1"]);
    assert_eq!(client_filter(&narrow, vec![s("clt_1")]).unwrap(), ClientFilter::Clients(vec![s("clt_1")]));
    assert_eq!(
        client_filter(&narrow, vec![s("clt_1"), s("clt_7"), s("clt_8")]).unwrap_err(),
        "No access to client: clt_7"
    );
}

#[test]
fn sizes_and_batches() {
    assert_eq!(page_size(None), 50);
    assert_eq!(page_size(Some(0)), 1);
    assert_eq!(page_size(Some(5000)), 1000);
    assert_eq!(page_size(Some(20)), 20);
    assert_eq!(default_page_size(), 50);
    assert_eq!(check_batch_size(0, "event", "events").unwrap_err(), "Request body must contain at least one event");
    assert_eq!(
        check_batch_size(0, "dispatch job", "dispatch jobs").unwrap_err(),
        "Request body must contain at least one dispatch job"
    );
    assert_eq!(check_batch_size(101, "event", "events").unwrap_err(), "Batch size cannot exceed 100 events");
    assert_eq!(
        check_batch_size(101, "dispatch job", "dispatch jobs").unwrap_err(),
        "Batch size cannot exceed 100 dispatch jobs"
    );
    assert!(check_batch_size(100, "event", "events").is_ok());
    assert!(check_batch_size(1, "event", "events").is_ok());
}

#[test]
fn job_statuses_and_options() {
    assert!(validate_statuses(&vec![s("pending"), s("COMPLETED"), s("Expired")]).is_ok());
    assert_eq!(validate_statuses(&vec![s("queued"), s("done"), s("nope")]).unwrap_err(), "Invalid status: done");
    assert_eq!(dispatch_kind(&Some(s("TASK"))), DispatchKind::Task);
    assert_eq!(dispatch_kind(&Some(s("task"))), DispatchKind::Event);
    assert_eq!(dispatch_kind(&None), DispatchKind::Event);
    assert_eq!(dispatch_mode(&Some(s("NEXT_ON_ERROR"))), DispatchMode::NextOnError);
    assert_eq!(dispatch_mode(&Some(s("BLOCK_ON_ERROR"))), DispatchMode::BlockOnError);
    assert_eq!(dispatch_mode(&Some(s("other"))), DispatchMode::Immediate);
    assert_eq!(retry_strategy(&Some(s("IMMEDIATE"))), RetryStrategy::Immediate);
    assert_eq!(retry_strategy(&Some(s("FIXED_DELAY"))), RetryStrategy::FixedDelay);
    assert_eq!(retry_strategy(&None), RetryStrategy::ExponentialBackoff);
}

#[test]
fn filter_options_pools_and_domains() {
    let o = FilterOption::from_value(s("orders"));
    assert_eq!(o.value, "orders");
    assert_eq!(o.label, "orders");
    assert_eq!(parse_status("active"), Some(DispatchPoolStatus::Active));
    assert_eq!(parse_status("Archived"), Some(DispatchPoolStatus::Archived));
    assert_eq!(parse_status("paused"), None);
    assert!(check_pool_creation(&anchor(), &None).is_ok());
    let sc = client_scope(&["clt_1"]);
    assert!(check_pool_creation(&sc, &Some(s("clt_1"))).is_ok());
    assert_eq!(check_pool_creation(&sc, &Some(s("clt_2"))).unwrap_err(), "No access to this client");
    assert_eq!(check_pool_creation(&sc, &None).unwrap_err(), "Client ID required for non-anchor users");
    let d = AnchorDomain { id: s("anc_1"), domain: s("flowcatalyst.tech"), created_at: 947_638_923_004_567 };
    let r = AnchorDomainResponse::from_domain(d, 7);
    assert_eq!(r.id, "anc_1");
    assert_eq!(r.domain, "flowcatalyst.tech");
    assert_eq!(r.user_count, 7);
    assert_eq!(r.created_at, "2000-01-12T01:02:03.004567+00:00");
}

fn job_request() -> fc_platform::dispatch_job::CreateDispatchJobRequest {
    fc_platform::dispatch_job::CreateDispatchJobRequest {
        source: None,
        kind: None,
        code: s("orders.created"),
        subject: Some(s("order/42")),
        event_id: Some(s("evt_1")),
        correlation_id: None,
        target_url: s("https://hooks.example.com/in"),
        payload: s("{\"id\":42}"),
        payload_content_type: None,
        data_only: true,
        service_account_id: s("sac_1"),
        client_id: Some(s("clt_1")),
        subscription_id: None,
        mode: Some(s("BLOCK_ON_ERROR")),
        dispatch_pool_id: Some(s("dpl_1")),
        message_group: Some(s("order-42")),
        sequence: Some(3),
        timeout_seconds: None,
        max_retries: Some(5),
        retry_strategy: Some(s("FIXED_DELAY")),
        idempotency_key: None,
        external_id: None,
        metadata: std::collections::HashMap::new(),
    }
}

#[test]
fn dispatch_job_draft_reads_the_request() {
    let (status, d) = dispatch_job_draft(&client_scope(&["clt_1"]), &job_request()).unwrap();
    assert_eq!(status, 201);
    assert!(d.metadata.is_empty());
    assert_eq!(d.kind, DispatchKind::Event);
    assert_eq!(d.event_id, Some(s("evt_1")));
    assert_eq!(d.source, "");
    assert_eq!(d.code, "orders.created");
    assert_eq!(d.subject, Some(s("order/42")));
    assert_eq!(d.client_id, Some(s("clt_1")));
    assert_eq!(d.dispatch_pool_id, Some(s("dpl_1")));
    assert_eq!(d.message_group, Some(s("order-42")));
    assert_eq!(d.sequence, Some(3));
    assert_eq!(d.max_retries, Some(5));
    assert_eq!(d.timeout_seconds, None);
    assert_eq!(d.service_account_id, "sac_1");
    assert_eq!(d.mode, DispatchMode::BlockOnError);
    assert_eq!(d.retry_strategy, Some(RetryStrategy::FixedDelay));
    assert!(d.data_only);

    let mut task = job_request();
    task.kind = Some(s("TASK"));
    task.source = Some(s("billing"));
    task.mode = None;
    task.retry_strategy = None;
    task.metadata.insert(s("tenant"), s("acme"));
    let (_, d) = dispatch_job_draft(&anchor(), &task).unwrap();
    assert_eq!(d.metadata.get("tenant"), Some(&s("acme")));
    assert_eq!(d.metadata.len(), 1);
    assert_eq!(d.kind, DispatchKind::Task);
    assert_eq!(d.event_id, None);
    assert_eq!(d.source, "billing");
    assert_eq!(d.mode, DispatchMode::Immediate);
    assert_eq!(d.retry_strategy, Some(RetryStrategy::ExponentialBackoff));

    let mut no_event = job_request();
    no_event.event_id = None;
    assert_eq!(dispatch_job_draft(&anchor(), &no_event).unwrap().1.event_id, Some(s("")));

    assert_eq!(
        dispatch_job_draft(&client_scope(&["clt_2"]), &job_request()).unwrap_err(),
        "No access to client: clt_1"
    );
}

#[test]
fn batch_jobs_leave_per_job_options_to_defaults() {
    let mut second = job_request();
    second.metadata.insert(s("k"), s("v"));
    second.client_id = None;
    second.kind = Some(s("TASK"));
    let v = batch_job_drafts(&client_scope(&["clt_1"]), &vec![job_request(), second]).unwrap();
    assert_eq!(v.len(), 2);
    assert_eq!(v[0].kind, DispatchKind::Event);
    assert_eq!(v[0].sequence, None);
    assert_eq!(v[0].retry_strategy, None);
    assert_eq!(v[0].mode, DispatchMode::BlockOnError);
    assert_eq!(v[0].max_retries, Some(5));
    assert_eq!(v[1].kind, DispatchKind::Task);
    assert_eq!(v[1].event_id, None);
    assert!(v[1].metadata.is_empty());
    let (status, answer) = batch_jobs_answer(vec![]);
    assert_eq!(status, 201);
    assert_eq!(answer.count, 0);

    assert_eq!(
        batch_job_drafts(&anchor(), &vec![]).unwrap_err(),
        "Request body must contain at least one dispatch job"
    );
    let many: Vec<_> = (0..101).map(|_| job_request()).collect();
    assert_eq!(batch_job_drafts(&anchor(), &many).unwrap_err(), "Batch size cannot exceed 100 dispatch jobs");
    let mut foreign = job_request();
    foreign.client_id = Some(s("clt_9"));
    assert_eq!(
        batch_job_drafts(&client_scope(&["clt_1"]), &vec![job_request(), foreign]).unwrap_err(),
        "No access to client: clt_9"
    );
}

#[test]
fn duplicate_events_are_answered_not_stored() {
    let sc = client_scope(&["clt_1", "clt_2"]);
    assert_eq!(admit_event(&sc, &Some(s("clt_9")), true), Ok(EventAdmission::Duplicate));
    assert_eq!(event_answer(&EventAdmission::Duplicate), (200, true, 0));
    let a = admit_event(&sc, &None, false).unwrap();
    assert_eq!(a, EventAdmission::Create { client_id: Some(s("clt_1")) });
    assert_eq!(event_answer(&a), (201, false, 0));
    assert_eq!(admit_event(&anchor(), &None, false), Ok(EventAdmission::Create { client_id: None }));
    assert_eq!(admit_event(&sc, &Some(s("clt_9")), false).unwrap_err(), "No access to client: clt_9");
    let all = vec![
        EventAdmission::Duplicate,
        EventAdmission::Create { client_id: None },
        EventAdmission::Duplicate,
    ];
    assert_eq!(batch_event_counts(&all), (201, 3, 2, 0));
    assert_eq!(batch_event_counts(&vec![]), (201, 0, 0, 0));
}

#[test]
fn a_second_create_with_the_same_deduplication_id_is_a_duplicate() {
    let sc = client_scope(&["clt_1"]);
    let mut stored: Vec<String> = vec![];
    let dedup = s("dd-1");
    let first = admit_event(&sc, &None, stored.contains(&dedup)).unwrap();
    assert_eq!(event_answer(&first), (201, false, 0));
    stored.push(dedup.clone());
    let second = admit_event(&sc, &None, stored.contains(&dedup)).unwrap();
    assert_eq!(second, EventAdmission::Duplicate);
    assert_eq!(event_answer(&second), (200, true, 0));
}

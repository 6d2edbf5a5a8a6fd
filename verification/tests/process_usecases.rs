use fc_platform::errors::ErrorKind;
use fc_platform::process::{
    archive_process, copy_process, create_process, strings_eq, sync_process_action, unlisted_process_ids,
    update_process, validate_archive_process, validate_create_process, validate_sync_processes,
    validate_update_process, ArchiveProcessCommand, CreateProcessCommand, Process, ProcessSource, ProcessStatus,
    SyncAction, SyncProcessInput, SyncProcessesCommand, UpdateProcessCommand,
};
use fc_platform::process::{sync_counts, SyncCounts};

fn s(x: &str) -> String {
    x.to_string()
}

fn create_cmd(code: &str, name: &str) -> CreateProcessCommand {
    CreateProcessCommand {
        code: s(code),
        name: s(name),
        description: Some(s("d")),
        body: s("graph TD; A-->B"),
        diagram_type: None,
        tags: vec![s("t1")],
    }
}

fn process(code: &str, source: ProcessSource) -> Process {
    let mut p = Process::new(s(code), s("Name"), s(&format!("id-{}", code)), 100).unwrap();
    p.source = source;
    p
}

#[test]
fn create_validation_order() {
    assert!(validate_create_process(&create_cmd("a:b:c", "N")).is_ok());
    let e = validate_create_process(&create_cmd(" ", "N")).unwrap_err();
    assert_eq!((e.code.as_str(), e.message.as_str()), ("CODE_REQUIRED", "Process code is required"));
    let e = validate_create_process(&create_cmd("a:b:c", "")).unwrap_err();
    assert_eq!(e.code, "NAME_REQUIRED");
    let e = validate_create_process(&create_cmd("a:b", "N")).unwrap_err();
    assert_eq!(e.message, "Process code must follow format: application:subdomain:process-name");
    let e = validate_create_process(&create_cmd("a: :c", "N")).unwrap_err();
    assert_eq!(e.message, "Process code part 'subdomain' cannot be empty");
    let e = validate_create_process(&create_cmd("a:b:", "N")).unwrap_err();
    assert_eq!(e.message, "Process code part 'process-name' cannot be empty");
    assert_eq!(e.kind, ErrorKind::Validation);
}

#[test]
fn create_builds_the_process() {
    let e = create_process(&create_cmd("a:b:c", "N"), true, s("p1"), 5, s("prn")).unwrap_err();
    assert_eq!(e.kind, ErrorKind::BusinessRule);
    assert_eq!(e.code, "CODE_EXISTS");
    assert_eq!(e.message, "Process with code 'a:b:c' already exists");
    let mut cmd = create_cmd("a:b:c", "N");
    cmd.diagram_type = Some(s("plantuml"));
    let p = create_process(&cmd, false, s("p1"), 5, s("prn")).unwrap();
    assert_eq!(p.id, "p1");
    assert_eq!(p.diagram_type, "plantuml");
    assert_eq!(p.tags, vec![s("t1")]);
    assert_eq!(p.created_by.unwrap(), "prn");
    assert_eq!(p.description.unwrap(), "d");
    let mut cmd = create_cmd("a:b:c", "N");
    cmd.diagram_type = Some(s("  "));
    assert_eq!(create_process(&cmd, false, s("p1"), 5, s("prn")).unwrap().diagram_type, "mermaid");
}

#[test]
fn archiving() {
    assert_eq!(
        validate_archive_process(&ArchiveProcessCommand { process_id: s(" ") }).unwrap_err().code,
        "PROCESS_ID_REQUIRED"
    );
    let mut p = process("a:b:c", ProcessSource::Ui);
    assert!(archive_process(&mut p, 200).is_ok());
    assert_eq!(p.status, ProcessStatus::Archived);
    assert_eq!(p.updated_at, 200);
    let e = archive_process(&mut p, 300).unwrap_err();
    assert_eq!(e.code, "ALREADY_ARCHIVED");
    assert_eq!(p.updated_at, 200);
}

fn update_cmd() -> UpdateProcessCommand {
    UpdateProcessCommand { process_id: s("p"), name: None, description: None, body: None, diagram_type: None, tags: None }
}

#[test]
fn updating() {
    assert_eq!(validate_update_process(&update_cmd()).unwrap_err().code, "NO_UPDATES");
    let mut cmd = update_cmd();
    cmd.process_id = s("");
    assert_eq!(validate_update_process(&cmd).unwrap_err().code, "PROCESS_ID_REQUIRED");
    let mut p = process("a:b:c", ProcessSource::Ui);
    let mut cmd = update_cmd();
    cmd.name = Some(s("  Name  "));
    assert_eq!(update_process(&mut p, &cmd, 300).unwrap_err().code, "NO_CHANGES");
    assert_eq!(p.updated_at, 100);
    cmd.name = Some(s(" New "));
    cmd.tags = Some(vec![s("x")]);
    let changes = update_process(&mut p, &cmd, 300).unwrap();
    assert_eq!(p.name, "New");
    assert_eq!(p.tags, vec![s("x")]);
    assert_eq!(p.updated_at, 300);
    assert_eq!(changes.name.unwrap(), "New");
    assert_eq!(changes.tags.unwrap(), vec![s("x")]);
    assert_eq!(changes.body_changed, None);
    let mut archived = process("a:b:c", ProcessSource::Ui);
    archived.status = ProcessStatus::Archived;
    assert_eq!(update_process(&mut archived, &cmd, 300).unwrap_err().code, "CANNOT_UPDATE_ARCHIVED");
}

fn input(code: &str) -> SyncProcessInput {
    SyncProcessInput {
        code: s(code),
        name: s("Synced"),
        description: None,
        body: s("b"),
        diagram_type: Some(s("bpmn")),
        tags: vec![],
    }
}

#[test]
fn syncing() {
    assert_eq!(
        validate_sync_processes(&SyncProcessesCommand { application_code: s(""), processes: vec![], remove_unlisted: false })
            .unwrap_err()
            .code,
        "APPLICATION_CODE_REQUIRED"
    );
    let existing = vec![process("a:b:ui", ProcessSource::Ui), process("a:b:api", ProcessSource::Api)];
    match sync_process_action(&existing, &input("a:b:api"), s("new"), 500) {
        SyncAction::Update(p) => {
            assert_eq!(p.id, "id-a:b:api");
            assert_eq!(p.name, "Synced");
            assert_eq!(p.diagram_type, "bpmn");
            assert_eq!(p.updated_at, 500);
            assert_eq!(p.created_at, 100);
        }
        other => panic!("unexpected {:?}", other),
    }
    assert_eq!(sync_process_action(&existing, &input("a:b:ui"), s("new"), 500), SyncAction::Keep);
    match sync_process_action(&existing, &input("a:b:new"), s("new"), 500) {
        SyncAction::Create(p) => {
            assert_eq!(p.id, "new");
            assert_eq!(p.source, ProcessSource::Api);
            assert_eq!(p.created_at, 500);
        }
        other => panic!("unexpected {:?}", other),
    }
    match sync_process_action(&existing, &input("bad"), s("new"), 500) {
        SyncAction::Invalid(e) => assert_eq!(e.code, "INVALID_PROCESS_CODE"),
        other => panic!("unexpected {:?}", other),
    }
    let existing = vec![
        process("a:b:ui", ProcessSource::Ui),
        process("a:b:api", ProcessSource::Api),
        process("a:b:code", ProcessSource::Code),
        process("a:b:kept", ProcessSource::Api),
    ];
    assert_eq!(
        unlisted_process_ids(&existing, &vec![s("a:b:kept")]),
        vec![s("id-a:b:api"), s("id-a:b:code")]
    );
}

#[test]
fn helpers() {
    assert!(strings_eq(&vec![s("a")], &vec![s("a")]));
    assert!(!strings_eq(&vec![s("a")], &vec![s("a"), s("b")]));
    let p = process("a:b:c", ProcessSource::Code);
    assert_eq!(copy_process(&p), p);
}

#[test]
fn sync_counts_tally_created_updated_and_deleted() {
    let existing = vec![process("a:b:ui", ProcessSource::Ui), process("a:b:api", ProcessSource::Api)];
    let actions = vec![
        sync_process_action(&existing, &input("a:b:api"), s("n1"), 500),
        sync_process_action(&existing, &input("a:b:ui"), s("n2"), 500),
        sync_process_action(&existing, &input("a:b:new"), s("n3"), 500),
        sync_process_action(&existing, &input("a:b:other"), s("n4"), 500),
    ];
    assert_eq!(
        sync_counts(&actions, &vec![s("id-x")]),
        SyncCounts { created: 2, updated: 1, deleted: 1 }
    );
    assert_eq!(sync_counts(&vec![], &vec![]), SyncCounts { created: 0, updated: 0, deleted: 0 });
}

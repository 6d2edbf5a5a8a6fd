//! Processes: free-form workflow documentation keyed by a three-part code.

use vstd::prelude::*;
use crate::errors::{breaks_rule, fails_with, UseCaseError, ErrorKind};
use crate::text::{all_ws, copy_opt, opt_view, copy_strings, is_blank, owned, split, split_spec, str_eq, trim, trim_spec};

verus! {

/// Lifecycle status of a process.
#[derive(Debug, Clone, Copy, PartialEq, Eq, Structural)]
pub enum ProcessStatus {
    Current,
    Archived,
}

/// Where a process definition came from.
#[derive(Debug, Clone, Copy, PartialEq, Eq, Structural)]
pub enum ProcessSource {
    Code,
    Api,
    Ui,
}

#[derive(Debug, Clone, PartialEq, Eq)]
pub struct ArchiveProcessCommand {
    pub process_id: String,
}

#[derive(Debug, Clone, PartialEq, Eq)]
pub struct CreateProcessCommand {
    /// Process code: {application}:{subdomain}:{process-name}
    pub code: String,
    pub name: String,
    pub description: Option<String>,
    /// Diagram body (typically Mermaid source).
    pub body: String,
    /// Defaults to `mermaid` if unset.
    pub diagram_type: Option<String>,
    pub tags: Vec<String>,
}

#[derive(Debug, Clone, PartialEq, Eq)]
pub struct SyncProcessInput {
    pub code: String,
    pub name: String,
    pub description: Option<String>,
    /// Diagram body (typically Mermaid source).
    pub body: String,
    pub diagram_type: Option<String>,
    pub tags: Vec<String>,
}

#[derive(Debug, Clone, PartialEq, Eq)]
pub struct SyncProcessesCommand {
    pub application_code: String,
    pub processes: Vec<SyncProcessInput>,
    pub remove_unlisted: bool,
}

#[derive(Debug, Clone, PartialEq, Eq)]
pub struct UpdateProcessCommand {
    pub process_id: String,
    pub name: Option<String>,
    pub description: Option<String>,
    pub body: Option<String>,
    pub diagram_type: Option<String>,
    pub tags: Option<Vec<String>>,
}

/// The wire name of a status.
pub open spec fn status_name(s: ProcessStatus) -> Seq<char> {
    match s {
        ProcessStatus::Current => "CURRENT"@,
        ProcessStatus::Archived => "ARCHIVED"@,
    }
}

/// Parsing a status name: anything but `ARCHIVED` reads as `Current`.
pub open spec fn parse_status_name(s: Seq<char>) -> ProcessStatus {
    if s == "ARCHIVED"@ {
        ProcessStatus::Archived
    } else {
        ProcessStatus::Current
    }
}

/// The wire name of a source.
pub open spec fn source_name(s: ProcessSource) -> Seq<char> {
    match s {
        ProcessSource::Code => "CODE"@,
        ProcessSource::Api => "API"@,
        ProcessSource::Ui => "UI"@,
    }
}

/// Parsing a source name: anything unknown reads as `Ui`.
pub open spec fn parse_source_name(s: Seq<char>) -> ProcessSource {
    if s == "CODE"@ {
        ProcessSource::Code
    } else if s == "API"@ {
        ProcessSource::Api
    } else {
        ProcessSource::Ui
    }
}

impl ProcessStatus {
    pub fn as_str(&self) -> (r: &'static str)
        ensures
            r@ == status_name(*self),
    {
        match self {
            ProcessStatus::Current => "CURRENT",
            ProcessStatus::Archived => "ARCHIVED",
        }
    }

    pub fn from_str(s: &str) -> (r: Self)
        ensures
            r == parse_status_name(s@),
    {
        if str_eq(s, "ARCHIVED") {
            ProcessStatus::Archived
        } else {
            ProcessStatus::Current
        }
    }
}

impl ProcessSource {
    pub fn as_str(&self) -> (r: &'static str)
        ensures
            r@ == source_name(*self),
    {
        match self {
            ProcessSource::Code => "CODE",
            ProcessSource::Api => "API",
            ProcessSource::Ui => "UI",
        }
    }

    pub fn from_str(s: &str) -> (r: Self)
        ensures
            r == parse_source_name(s@),
    {
        if str_eq(s, "CODE") {
            ProcessSource::Code
        } else if str_eq(s, "API") {
            ProcessSource::Api
        } else {
            ProcessSource::Ui
        }
    }
}

/// Reading back the name of a status gives the status again.
pub proof fn law_status_round_trip(s: ProcessStatus)
    ensures
        parse_status_name(status_name(s)) == s,
{
    reveal_strlit("ARCHIVED");
    reveal_strlit("CURRENT");
    if s == ProcessStatus::Current {
        assert("CURRENT"@[0] != "ARCHIVED"@[0]);
    }
}

/// Reading back the name of a source gives the source again.
pub proof fn law_source_round_trip(s: ProcessSource)
    ensures
        parse_source_name(source_name(s)) == s,
{
    reveal_strlit("CODE");
    reveal_strlit("API");
    reveal_strlit("UI");
    match s {
        ProcessSource::Code => {},
        ProcessSource::Api => {
            assert("API"@[0] != "CODE"@[0]);
        },
        ProcessSource::Ui => {
            assert("UI"@[0] != "CODE"@[0]);
            assert("UI"@[0] != "API"@[0]);
        },
    }
}


/// A process: free-form diagram source (typically Mermaid) filed under an
/// `application:subdomain:process-name` code.
#[derive(Debug, Clone, PartialEq, Eq)]
pub struct Process {
    pub id: String,
    pub code: String,
    pub name: String,
    pub description: Option<String>,
    pub status: ProcessStatus,
    pub source: ProcessSource,
    pub application: String,
    pub subdomain: String,
    pub process_name: String,
    pub body: String,
    pub diagram_type: String,
    pub tags: Vec<String>,
    pub created_by: Option<String>,
    /// Microseconds since the epoch.
    pub created_at: i64,
    /// Microseconds since the epoch.
    pub updated_at: i64,
}

impl Default for ProcessStatus {
    fn default() -> (r: Self)
        ensures
            r == ProcessStatus::Current,
    {
        ProcessStatus::Current
    }
}

impl Default for ProcessSource {
    fn default() -> (r: Self)
        ensures
            r == ProcessSource::Ui,
    {
        ProcessSource::Ui
    }
}

/// A stored process row (time stamps in microseconds since the epoch).
#[derive(Debug, Clone, PartialEq, Eq)]
pub struct ProcessRow {
    pub id: String,
    pub code: String,
    pub name: String,
    pub description: Option<String>,
    pub status: String,
    pub source: String,
    pub application: String,
    pub subdomain: String,
    pub process_name: String,
    pub body: String,
    pub diagram_type: String,
    pub tags: Vec<String>,
    pub created_at: i64,
    pub updated_at: i64,
}

impl Process {
    /// The process a stored row holds; unknown status and source names read
    /// as `CURRENT` and `UI`; the author is not stored.
    pub fn from_row(r: ProcessRow) -> (p: Process)
        ensures
            p.id == r.id && p.code == r.code && p.name == r.name && p.description == r.description,
            p.status == parse_status_name(r.status@) && p.source == parse_source_name(r.source@),
            p.application == r.application && p.subdomain == r.subdomain && p.process_name == r.process_name,
            p.body == r.body && p.diagram_type == r.diagram_type && p.tags == r.tags,
            p.created_by is None && p.created_at == r.created_at && p.updated_at == r.updated_at,
    {
        let status = ProcessStatus::from_str(r.status.as_str());
        let source = ProcessSource::from_str(r.source.as_str());
        Process {
            id: r.id,
            code: r.code,
            name: r.name,
            description: r.description,
            status,
            source,
            application: r.application,
            subdomain: r.subdomain,
            process_name: r.process_name,
            body: r.body,
            diagram_type: r.diagram_type,
            tags: r.tags,
            created_by: None,
            created_at: r.created_at,
            updated_at: r.updated_at,
        }
    }
}

/// Why a process code is refused, if it is: it must have exactly three
/// `:`-separated parts, none of them blank.
pub open spec fn process_code_problem(code: Seq<char>) -> Option<Seq<char>> {
    let parts = split_spec(code, ':');
    if parts.len() != 3 {
        Some("Process code must follow format: application:subdomain:process-name"@)
    } else if all_ws(parts[0]) || all_ws(parts[1]) || all_ws(parts[2]) {
        Some("Process code segments cannot be empty"@)
    } else {
        None
    }
}

impl Process {
    /// A new current, UI-sourced Mermaid process from its code and name;
    /// `id` and `now` (microseconds) are the new record's id and timestamps.
    pub fn new(code: String, name: String, id: String, now: i64) -> (r: Result<Process, String>)
        ensures
            match r {
                Err(e) => process_code_problem(code@) == Some(e@),
                Ok(p) => {
                    &&& process_code_problem(code@) is None
                    &&& p.id == id && p.code == code && p.name == name
                    &&& p.application@ == split_spec(code@, ':')[0]
                    &&& p.subdomain@ == split_spec(code@, ':')[1]
                    &&& p.process_name@ == split_spec(code@, ':')[2]
                    &&& p.description is None && p.created_by is None
                    &&& p.status == ProcessStatus::Current && p.source == ProcessSource::Ui
                    &&& p.body@.len() == 0 && p.diagram_type@ == "mermaid"@ && p.tags@.len() == 0
                    &&& p.created_at == now && p.updated_at == now
                },
            },
    {
        let parts = split(code.as_str(), ':');
        let ghost pv = parts@.map_values(|x: String| x@);
        assert(pv.len() == parts@.len());
        if parts.len() != 3 {
            return Err(owned("Process code must follow format: application:subdomain:process-name"));
        }
        assert(pv[0] == parts@[0]@ && pv[1] == parts@[1]@ && pv[2] == parts@[2]@);
        if is_blank(parts[0].as_str()) || is_blank(parts[1].as_str()) || is_blank(parts[2].as_str()) {
            return Err(owned("Process code segments cannot be empty"));
        }
        let application = parts[0].clone();
        let subdomain = parts[1].clone();
        let process_name = parts[2].clone();
        Ok(Process {
            id,
            code,
            name,
            description: None,
            status: ProcessStatus::Current,
            source: ProcessSource::Ui,
            application,
            subdomain,
            process_name,
            body: String::new(),
            diagram_type: owned("mermaid"),
            tags: Vec::new(),
            created_by: None,
            created_at: now,
            updated_at: now,
        })
    }

    /// Mark the process archived at `now`.
    pub fn archive(&mut self, now: i64)
        ensures
            *final(self) == archived(*old(self), now),
    {
        self.status = ProcessStatus::Archived;
        self.updated_at = now;
    }
}

/// The process archived at `now`.
pub open spec fn archived(p: Process, now: i64) -> Process {
    Process { status: ProcessStatus::Archived, updated_at: now, ..p }
}

/// The name of a code part, for messages.
pub open spec fn part_name(i: int) -> Seq<char> {
    if i == 0 { "application"@ } else if i == 1 { "subdomain"@ } else { "process-name"@ }
}

/// The verdict on a create command, in order: code and name present, three
/// parts, the first blank part named.
pub open spec fn create_process_verdict(cmd: CreateProcessCommand) -> Option<Seq<char>> {
    let parts = split_spec(cmd.code@, ':');
    if all_ws(cmd.code@) {
        Some("Process code is required"@)
    } else if all_ws(cmd.name@) {
        Some("Process name is required"@)
    } else if parts.len() != 3 {
        Some("Process code must follow format: application:subdomain:process-name"@)
    } else if all_ws(parts[0]) {
        Some("Process code part '"@ + part_name(0) + "' cannot be empty"@)
    } else if all_ws(parts[1]) {
        Some("Process code part '"@ + part_name(1) + "' cannot be empty"@)
    } else if all_ws(parts[2]) {
        Some("Process code part '"@ + part_name(2) + "' cannot be empty"@)
    } else {
        None
    }
}

/// The error code that goes with each create-command message.
pub open spec fn create_process_code(cmd: CreateProcessCommand) -> Seq<char> {
    if all_ws(cmd.code@) {
        "CODE_REQUIRED"@
    } else if all_ws(cmd.name@) {
        "NAME_REQUIRED"@
    } else {
        "INVALID_CODE_FORMAT"@
    }
}

fn empty_part_error(label: &str) -> (r: UseCaseError)
    ensures
        r.kind == ErrorKind::Validation,
        r.code@ == "INVALID_CODE_FORMAT"@,
        r.message@ == "Process code part '"@ + label@ + "' cannot be empty"@,
{
    let mut m = owned("Process code part '");
    m.append(label);
    m.append("' cannot be empty");
    UseCaseError { kind: ErrorKind::Validation, code: owned("INVALID_CODE_FORMAT"), message: m }
}

/// Validate a create command.
pub fn validate_create_process(cmd: &CreateProcessCommand) -> (r: Result<(), UseCaseError>)
    ensures
        match create_process_verdict(*cmd) {
            None => r is Ok,
            Some(m) => fails_with(r, create_process_code(*cmd), m),
        },
{
    if is_blank(cmd.code.as_str()) {
        return Err(UseCaseError::validation("CODE_REQUIRED", "Process code is required"));
    }
    if is_blank(cmd.name.as_str()) {
        return Err(UseCaseError::validation("NAME_REQUIRED", "Process name is required"));
    }
    let parts = split(cmd.code.as_str(), ':');
    let ghost pv = parts@.map_values(|x: String| x@);
    assert(pv.len() == parts@.len());
    if parts.len() != 3 {
        return Err(UseCaseError::validation(
            "INVALID_CODE_FORMAT",
            "Process code must follow format: application:subdomain:process-name",
        ));
    }
    assert(pv[0] == parts@[0]@ && pv[1] == parts@[1]@ && pv[2] == parts@[2]@);
    if is_blank(parts[0].as_str()) {
        return Err(empty_part_error("application"));
    }
    if is_blank(parts[1].as_str()) {
        return Err(empty_part_error("subdomain"));
    }
    if is_blank(parts[2].as_str()) {
        return Err(empty_part_error("process-name"));
    }
    Ok(())
}

/// The diagram type a command asks for, when it names a non-blank one.
pub open spec fn requested_diagram_type(d: Option<String>, current: Seq<char>) -> Seq<char> {
    match d {
        Some(t) => if all_ws(t@) { current } else { t@ },
        None => current,
    }
}

/// Build the process a create command describes; `code_taken` reports
/// whether a process with that code already exists.
pub fn create_process(cmd: &CreateProcessCommand, code_taken: bool, id: String, now: i64, principal_id: String) -> (r: Result<Process, UseCaseError>)
    ensures
        code_taken ==> breaks_rule(r, "CODE_EXISTS"@, "Process with code '"@ + cmd.code@ + "' already exists"@),
        !code_taken ==> match r {
            Err(e) => e.kind == ErrorKind::Validation && e.code@ == "INVALID_CODE_FORMAT"@
                && process_code_problem(cmd.code@) == Some(e.message@),
            Ok(p) => {
                &&& process_code_problem(cmd.code@) is None
                &&& p.id == id && p.code == cmd.code && p.name == cmd.name
                &&& p.application@ == split_spec(cmd.code@, ':')[0]
                &&& p.subdomain@ == split_spec(cmd.code@, ':')[1]
                &&& p.process_name@ == split_spec(cmd.code@, ':')[2]
                &&& p.description == cmd.description && p.body == cmd.body && p.tags@ == cmd.tags@
                &&& p.diagram_type@ == requested_diagram_type(cmd.diagram_type, "mermaid"@)
                &&& p.created_by == Some(principal_id)
                &&& p.status == ProcessStatus::Current && p.source == ProcessSource::Ui
                &&& p.created_at == now && p.updated_at == now
            },
        },
{
    if code_taken {
        let mut m = owned("Process with code '");
        m.append(cmd.code.as_str());
        m.append("' already exists");
        return Err(UseCaseError { kind: ErrorKind::BusinessRule, code: owned("CODE_EXISTS"), message: m });
    }
    match Process::new(cmd.code.clone(), cmd.name.clone(), id, now) {
        Err(e) => Err(UseCaseError { kind: ErrorKind::Validation, code: owned("INVALID_CODE_FORMAT"), message: e }),
        Ok(mut p) => {
            p.description = copy_opt(&cmd.description);
            p.body = cmd.body.clone();
            if let Some(d) = &cmd.diagram_type {
                if !is_blank(d.as_str()) {
                    p.diagram_type = d.clone();
                }
            }
            p.tags = copy_strings(&cmd.tags);
            p.created_by = Some(principal_id);
            Ok(p)
        },
    }
}

/// Validate an archive command.
pub fn validate_archive_process(cmd: &ArchiveProcessCommand) -> (r: Result<(), UseCaseError>)
    ensures
        all_ws(cmd.process_id@) ==> fails_with(r, "PROCESS_ID_REQUIRED"@, "Process ID is required"@),
        !all_ws(cmd.process_id@) ==> r is Ok,
{
    if is_blank(cmd.process_id.as_str()) {
        return Err(UseCaseError::validation("PROCESS_ID_REQUIRED", "Process ID is required"));
    }
    Ok(())
}

/// Archive a process at `now`; archiving twice is refused.
pub fn archive_process(process: &mut Process, now: i64) -> (r: Result<(), UseCaseError>)
    ensures
        old(process).status == ProcessStatus::Archived ==> breaks_rule(r, "ALREADY_ARCHIVED"@, "Process is already archived"@)
            && *final(process) == *old(process),
        old(process).status != ProcessStatus::Archived ==> r is Ok
            && *final(process) == archived(*old(process), now),
{
    if process.status == ProcessStatus::Archived {
        return Err(UseCaseError::business_rule("ALREADY_ARCHIVED", "Process is already archived"));
    }
    process.archive(now);
    Ok(())
}

/// Validate an update command: an id and at least one field.
pub fn validate_update_process(cmd: &UpdateProcessCommand) -> (r: Result<(), UseCaseError>)
    ensures
        all_ws(cmd.process_id@) ==> fails_with(r, "PROCESS_ID_REQUIRED"@, "Process ID is required"@),
        !all_ws(cmd.process_id@) && cmd.name is None && cmd.description is None && cmd.body is None
            && cmd.diagram_type is None && cmd.tags is None
            ==> fails_with(r, "NO_UPDATES"@, "At least one field must be provided for update"@),
        r is Ok <==> !all_ws(cmd.process_id@) && !(cmd.name is None && cmd.description is None && cmd.body is None
            && cmd.diagram_type is None && cmd.tags is None),
{
    if is_blank(cmd.process_id.as_str()) {
        return Err(UseCaseError::validation("PROCESS_ID_REQUIRED", "Process ID is required"));
    }
    if cmd.name.is_none() && cmd.description.is_none() && cmd.body.is_none() && cmd.diagram_type.is_none()
        && cmd.tags.is_none() {
        return Err(UseCaseError::validation("NO_UPDATES", "At least one field must be provided for update"));
    }
    Ok(())
}

/// Equality of two string lists.
pub fn strings_eq(a: &Vec<String>, b: &Vec<String>) -> (r: bool)
    ensures
        r == (a@.map_values(|x: String| x@) == b@.map_values(|x: String| x@)),
{
    let ghost av = a@.map_values(|x: String| x@);
    let ghost bv = b@.map_values(|x: String| x@);
    if a.len() != b.len() {
        assert(av.len() != bv.len());
        return false;
    }
    let mut i: usize = 0;
    while i < a.len()
        invariant
            av == a@.map_values(|x: String| x@),
            bv == b@.map_values(|x: String| x@),
            a@.len() == b@.len(),
            i <= a@.len(),
            forall|j: int| 0 <= j < i ==> av[j] == bv[j],
        decreases a@.len() - i,
    {
        if !str_eq(a[i].as_str(), b[i].as_str()) {
            assert(av[i as int] != bv[i as int]);
            return false;
        }
        i = i + 1;
    }
    assert(av =~= bv);
    true
}

/// What an update changed, for the emitted event.
#[derive(Debug, Clone, PartialEq, Eq)]
pub struct ProcessChanges {
    pub name: Option<String>,
    pub description: Option<String>,
    /// `Some(true)` when the body changed.
    pub body_changed: Option<bool>,
    pub tags: Option<Vec<String>>,
}

pub open spec fn strs(v: Vec<String>) -> Seq<Seq<char>> {
    v@.map_values(|x: String| x@)
}

/// The process after applying an update's fields: the trimmed name, the
/// description, the body, the trimmed non-blank diagram type and the tags,
/// each only where given.
pub open spec fn updated_fields(p: Process, cmd: UpdateProcessCommand) -> (Seq<char>, Option<Seq<char>>, Seq<char>, Seq<char>, Seq<Seq<char>>) {
    (
        match cmd.name { Some(n) => trim_spec(n@), None => p.name@ },
        match cmd.description { Some(d) => Some(d@), None => opt_view(p.description) },
        match cmd.body { Some(b) => b@, None => p.body@ },
        match cmd.diagram_type { Some(d) => if trim_spec(d@).len() == 0 { p.diagram_type@ } else { trim_spec(d@) }, None => p.diagram_type@ },
        match cmd.tags { Some(t) => strs(t), None => strs(p.tags) },
    )
}

/// Whether applying an update's fields changes anything.
pub open spec fn update_changes(p: Process, cmd: UpdateProcessCommand) -> bool {
    let (name, desc, body, dt, tags) = updated_fields(p, cmd);
    name != p.name@ || desc != opt_view(p.description) || body != p.body@ || dt != p.diagram_type@
        || tags != strs(p.tags)
}

/// Apply an update command to a process at `now`. Archived processes are not
/// updated, and an update that changes nothing is refused.
pub fn update_process(process: &mut Process, cmd: &UpdateProcessCommand, now: i64) -> (r: Result<ProcessChanges, UseCaseError>)
    ensures
        old(process).status == ProcessStatus::Archived ==> breaks_rule(r, "CANNOT_UPDATE_ARCHIVED"@, "Cannot update an archived process"@)
            && *final(process) == *old(process),
        old(process).status != ProcessStatus::Archived ==> ({
            let (name, desc, body, dt, tags) = updated_fields(*old(process), *cmd);
            let changed = update_changes(*old(process), *cmd);
            &&& !changed ==> fails_with(r, "NO_CHANGES"@, "No changes detected"@) && *final(process) == *old(process)
            &&& changed ==> r is Ok
            &&& r is Ok ==> {
                &&& final(process).name@ == name
                &&& opt_view(final(process).description) == desc
                &&& final(process).body@ == body
                &&& final(process).diagram_type@ == dt
                &&& strs(final(process).tags) == tags
                &&& final(process).updated_at == now
                &&& final(process).id == old(process).id && final(process).code == old(process).code
                &&& final(process).status == old(process).status && final(process).source == old(process).source
                &&& final(process).created_at == old(process).created_at
            }
            &&& r matches Ok(ch) ==> {
                &&& opt_view(ch.name) == (if name != old(process).name@ { Some(name) } else { None })
                &&& opt_view(ch.description) == (if desc != opt_view(old(process).description) { desc } else { None })
                &&& ch.body_changed == (if body != old(process).body@ { Some(true) } else { None })
                &&& match ch.tags {
                    Some(t) => tags != strs(old(process).tags) && strs(t) == tags,
                    None => tags == strs(old(process).tags),
                }
            }
        }),
{
    if process.status == ProcessStatus::Archived {
        return Err(UseCaseError::business_rule("CANNOT_UPDATE_ARCHIVED", "Cannot update an archived process"));
    }
    let ghost start = *process;
    let mut changes = ProcessChanges { name: None, description: None, body_changed: None, tags: None };
    let mut any = false;
    if let Some(name) = &cmd.name {
        let t = trim(name.as_str());
        if !str_eq(t.as_str(), process.name.as_str()) {
            process.name = t.clone();
            changes.name = Some(t);
            any = true;
        }
    }
    if let Some(desc) = &cmd.description {
        let same = match &process.description {
            Some(d) => str_eq(d.as_str(), desc.as_str()),
            None => false,
        };
        if !same {
            process.description = Some(desc.clone());
            changes.description = Some(desc.clone());
            any = true;
        }
    }
    if let Some(body) = &cmd.body {
        if !str_eq(process.body.as_str(), body.as_str()) {
            process.body = body.clone();
            changes.body_changed = Some(true);
            any = true;
        }
    }
    if let Some(dt) = &cmd.diagram_type {
        let t = trim(dt.as_str());
        if t.as_str().unicode_len() > 0 && !str_eq(t.as_str(), process.diagram_type.as_str()) {
            process.diagram_type = t;
            any = true;
        }
    }
    if let Some(tags) = &cmd.tags {
        if !strings_eq(&process.tags, tags) {
            process.tags = copy_strings(tags);
            changes.tags = Some(copy_strings(tags));
            any = true;
        }
    }
    if !any {
        return Err(UseCaseError::validation("NO_CHANGES", "No changes detected"));
    }
    process.updated_at = now;
    Ok(changes)
}

/// A field-by-field copy of a process.
pub fn copy_process(p: &Process) -> (r: Process)
    ensures
        r == (Process { tags: r.tags, ..*p }),
        r.tags@ == p.tags@,
{
    Process {
        id: p.id.clone(),
        code: p.code.clone(),
        name: p.name.clone(),
        description: copy_opt(&p.description),
        status: p.status,
        source: p.source,
        application: p.application.clone(),
        subdomain: p.subdomain.clone(),
        process_name: p.process_name.clone(),
        body: p.body.clone(),
        diagram_type: p.diagram_type.clone(),
        tags: copy_strings(&p.tags),
        created_by: copy_opt(&p.created_by),
        created_at: p.created_at,
        updated_at: p.updated_at,
    }
}

/// What a sync does with one listed process.
#[derive(Debug, Clone, PartialEq, Eq)]
pub enum SyncAction {
    /// Store this new process.
    Create(Process),
    /// Overwrite the stored process with this one.
    Update(Process),
    /// Leave a UI-authored process with the same code alone.
    Keep,
    /// The listed code is not a valid process code.
    Invalid(UseCaseError),
}

/// The index of the first stored process with this code.
pub open spec fn first_with_code(existing: Seq<Process>, code: Seq<char>) -> Option<int> {
    if exists|i: int| 0 <= i < existing.len() && existing[i].code@ == code {
        Some(choose|i: int| 0 <= i < existing.len() && existing[i].code@ == code
            && forall|j: int| 0 <= j < i ==> existing[j].code@ != code)
    } else {
        None
    }
}

/// Processes a sync may overwrite or delete: those that came from code or the API.
pub open spec fn sync_managed(s: ProcessSource) -> bool {
    s == ProcessSource::Api || s == ProcessSource::Code
}

/// Decide what to do with one listed process. A stored process with the same
/// code is overwritten when code or the API created it and kept otherwise;
/// an unknown code creates an API-sourced process (`id`, `now` for the new
/// record); `now` also stamps overwrites.
pub fn sync_process_action(existing: &Vec<Process>, input: &SyncProcessInput, id: String, now: i64) -> (r: SyncAction)
    ensures
        match first_with_code(existing@, input.code@) {
            Some(i) => if sync_managed(existing@[i].source) {
                r matches SyncAction::Update(p) && p.id == existing@[i].id && p.code == existing@[i].code
                    && p.name == input.name && p.description == input.description && p.body == input.body
                    && p.diagram_type@ == requested_diagram_type(input.diagram_type, existing@[i].diagram_type@)
                    && p.tags@ == input.tags@ && p.updated_at == now && p.source == existing@[i].source
                    && p.status == existing@[i].status && p.created_at == existing@[i].created_at
            } else {
                r is Keep
            },
            None => match process_code_problem(input.code@) {
                Some(m) => r matches SyncAction::Invalid(e) && e.kind == ErrorKind::Validation
                    && e.code@ == "INVALID_PROCESS_CODE"@ && e.message@ == m,
                None => r matches SyncAction::Create(p) && p.id == id && p.code == input.code && p.name == input.name
                    && p.source == ProcessSource::Api && p.status == ProcessStatus::Current
                    && p.description == input.description && p.body == input.body && p.tags@ == input.tags@
                    && p.diagram_type@ == requested_diagram_type(input.diagram_type, "mermaid"@)
                    && p.created_at == now && p.updated_at == now,
            },
        },
{
    let mut i: usize = 0;
    while i < existing.len()
        invariant
            i <= existing@.len(),
            forall|j: int| 0 <= j < i ==> existing@[j].code@ != input.code@,
        decreases existing@.len() - i,
    {
        if str_eq(existing[i].code.as_str(), input.code.as_str()) {
            proof {
                let k = choose|k: int| 0 <= k < existing@.len() && existing@[k].code@ == input.code@
                    && forall|j: int| 0 <= j < k ==> existing@[j].code@ != input.code@;
                assert(k == i) by {
                    if k > i {
                        assert(existing@[i as int].code@ == input.code@);
                    }
                }
            }
            let e = &existing[i];
            if e.source == ProcessSource::Api || e.source == ProcessSource::Code {
                let mut up = copy_process(e);
                up.name = input.name.clone();
                up.description = copy_opt(&input.description);
                up.body = input.body.clone();
                if let Some(d) = &input.diagram_type {
                    if !is_blank(d.as_str()) {
                        up.diagram_type = d.clone();
                    }
                }
                up.tags = copy_strings(&input.tags);
                up.updated_at = now;
                return SyncAction::Update(up);
            }
            return SyncAction::Keep;
        }
        i = i + 1;
    }
    match Process::new(input.code.clone(), input.name.clone(), id, now) {
        Err(e) => SyncAction::Invalid(UseCaseError { kind: ErrorKind::Validation, code: owned("INVALID_PROCESS_CODE"), message: e }),
        Ok(mut p) => {
            p.source = ProcessSource::Api;
            p.description = copy_opt(&input.description);
            p.body = input.body.clone();
            if let Some(d) = &input.diagram_type {
                if !is_blank(d.as_str()) {
                    p.diagram_type = d.clone();
                }
            }
            p.tags = copy_strings(&input.tags);
            SyncAction::Create(p)
        },
    }
}

/// The ids, in stored order, of the code- or API-sourced processes whose
/// codes are not among `codes`.
pub open spec fn unlisted_ids(s: Seq<Process>, codes: Seq<Seq<char>>) -> Seq<Seq<char>>
    decreases s.len(),
{
    if s.len() == 0 {
        Seq::empty()
    } else {
        let prev = unlisted_ids(s.drop_last(), codes);
        let p = s.last();
        if sync_managed(p.source) && !codes.contains(p.code@) {
            prev.push(p.id@)
        } else {
            prev
        }
    }
}

/// With `remove_unlisted`, the ids of the code- or API-sourced processes
/// whose codes the sync did not list, in stored order.
pub fn unlisted_process_ids(existing: &Vec<Process>, synced_codes: &Vec<String>) -> (r: Vec<String>)
    ensures
        strs(r) == unlisted_ids(existing@, strs(*synced_codes)),
{
    let ghost codes = strs(*synced_codes);
    let mut out: Vec<String> = Vec::new();
    let mut i: usize = 0;
    assert(strs(out) =~= unlisted_ids(existing@.take(0), codes));
    while i < existing.len()
        invariant
            codes == strs(*synced_codes),
            i <= existing@.len(),
            strs(out) == unlisted_ids(existing@.take(i as int), codes),
        decreases existing@.len() - i,
    {
        let p = &existing[i];
        assert(existing@.take(i + 1).drop_last() =~= existing@.take(i as int));
        assert(existing@.take(i + 1).last() == existing@[i as int]);
        let listed = crate::text::contains_str(synced_codes, p.code.as_str());
        let ghost before = strs(out);
        if (p.source == ProcessSource::Api || p.source == ProcessSource::Code) && !listed {
            out.push(p.id.clone());
            assert(strs(out) =~= before.push(p.id@));
        }
        i = i + 1;
    }
    assert(existing@.take(existing@.len() as int) =~= existing@);
    out
}

/// The counts a process sync reports.
#[derive(Debug, Clone, Copy, PartialEq, Eq, Structural)]
pub struct SyncCounts {
    pub created: u32,
    pub updated: u32,
    pub deleted: u32,
}

/// How many of the actions create a process.
pub open spec fn creations(actions: Seq<SyncAction>) -> nat
    decreases actions.len(),
{
    if actions.len() == 0 {
        0
    } else {
        creations(actions.drop_last()) + if actions.last() is Create { 1nat } else { 0nat }
    }
}

/// How many of the actions overwrite a process.
pub open spec fn overwrites(actions: Seq<SyncAction>) -> nat
    decreases actions.len(),
{
    if actions.len() == 0 {
        0
    } else {
        overwrites(actions.drop_last()) + if actions.last() is Update { 1nat } else { 0nat }
    }
}

/// The counts of a sync whose listed processes were carried out as
/// `actions` and which deleted the processes of `removed`: kept processes
/// count nowhere.
pub fn sync_counts(actions: &Vec<SyncAction>, removed: &Vec<String>) -> (r: SyncCounts)
    requires
        actions@.len() <= u32::MAX,
        removed@.len() <= u32::MAX,
    ensures
        r.created == creations(actions@),
        r.updated == overwrites(actions@),
        r.deleted == removed@.len(),
{
    let mut created: u32 = 0;
    let mut updated: u32 = 0;
    let mut i: usize = 0;
    while i < actions.len()
        invariant
            i <= actions@.len() <= u32::MAX,
            created == creations(actions@.take(i as int)),
            updated == overwrites(actions@.take(i as int)),
            created + updated <= i,
        decreases actions@.len() - i,
    {
        assert(actions@.take(i + 1).drop_last() =~= actions@.take(i as int));
        match &actions[i] {
            SyncAction::Create(_) => created = created + 1,
            SyncAction::Update(_) => updated = updated + 1,
            _ => {},
        }
        i = i + 1;
    }
    assert(actions@.take(actions@.len() as int) =~= actions@);
    SyncCounts { created, updated, deleted: removed.len() as u32 }
}

/// Validate a sync command: the application code must not be blank.
pub fn validate_sync_processes(cmd: &SyncProcessesCommand) -> (r: Result<(), UseCaseError>)
    ensures
        all_ws(cmd.application_code@) ==> fails_with(r, "APPLICATION_CODE_REQUIRED"@, "Application code is required"@),
        !all_ws(cmd.application_code@) ==> r is Ok,
{
    if is_blank(cmd.application_code.as_str()) {
        return Err(UseCaseError::validation("APPLICATION_CODE_REQUIRED", "Application code is required"));
    }
    Ok(())
}

} // verus!

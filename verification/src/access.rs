//! Client scoping of the message APIs (events and dispatch jobs): who may see
//! or write which client's records, list filters, batch limits and the
//! options a dispatch job is created with.

use vstd::prelude::*;
use crate::text::opt_view;
use crate::dispatch_job::{BatchCreateDispatchJobsResponse, CreateDispatchJobRequest, DispatchJobResponse};
use std::collections::HashMap;
use crate::text::{owned, split, split_spec, str_eq, string_views, to_uppercase, trim, trim_spec,
    uppercase_spec};

verus! {

/// What the caller's authentication says about client access.
#[derive(Debug, Clone, PartialEq, Eq)]
pub struct AccessScope {
    /// Anchor users see every client.
    pub anchor: bool,
    /// Client ids the caller may use; `*` stands for every client.
    pub accessible_clients: Vec<String>,
}

/// Whether the caller may use client `client`.
pub open spec fn may_access(scope: AccessScope, client: Seq<char>) -> bool {
    scope.anchor || string_views(scope.accessible_clients@).contains("*"@)
        || string_views(scope.accessible_clients@).contains(client)
}

pub fn can_access_client(scope: &AccessScope, client: &str) -> (r: bool)
    ensures
        r == may_access(*scope, client@),
{
    scope.anchor || crate::text::contains_str(&scope.accessible_clients, "*") || crate::text::contains_str(&scope.accessible_clients, client)
}

/// A record tied to a client is visible to those who may use the client; one
/// tied to none, to anchor users only.
pub open spec fn record_visible(scope: AccessScope, client_id: Option<Seq<char>>) -> bool {
    match client_id {
        Some(c) => may_access(scope, c),
        None => scope.anchor,
    }
}

pub fn is_record_visible(scope: &AccessScope, client_id: &Option<String>) -> (r: bool)
    ensures
        r == record_visible(*scope, opt_view(*client_id)),
{
    match client_id {
        Some(c) => can_access_client(scope, c.as_str()),
        None => scope.anchor,
    }
}

/// The refusal of a write for client `client`, if the caller may not use it.
pub fn check_client_access(scope: &AccessScope, client_id: &Option<String>) -> (r: Result<(), String>)
    ensures
        match client_id {
            Some(c) => if may_access(*scope, c@) { r is Ok } else {
                r matches Err(m) && m@ == "No access to client: "@ + c@
            },
            None => r is Ok,
        },
{
    if let Some(c) = client_id {
        if !can_access_client(scope, c.as_str()) {
            let mut m = owned("No access to client: ");
            m.append(c.as_str());
            return Err(m);
        }
    }
    Ok(())
}

/// The client a new event is filed under: the requested one, else, for a
/// caller that is not anchor, the first client it may use.
pub open spec fn event_client_spec(scope: AccessScope, requested: Option<String>) -> Option<Seq<char>> {
    match requested {
        Some(c) => Some(c@),
        None => if scope.anchor || scope.accessible_clients@.len() == 0 {
            None
        } else {
            Some(scope.accessible_clients@[0]@)
        },
    }
}

pub fn event_client(scope: &AccessScope, requested: &Option<String>) -> (r: Option<String>)
    ensures
        opt_view(r) == event_client_spec(*scope, *requested),
{
    match requested {
        Some(c) => Some(c.clone()),
        None => if scope.anchor || scope.accessible_clients.len() == 0 {
            None
        } else {
            Some(scope.accessible_clients[0].clone())
        },
    }
}

/// What becomes of one event of a create request.
#[derive(Debug, Clone, PartialEq, Eq)]
pub enum EventAdmission {
    /// An event with the request's deduplication id is already stored: that
    /// one is answered and nothing is stored.
    Duplicate,
    /// A new event, filed under this client (if any).
    Create { client_id: Option<String> },
}

/// An admission as a mathematical value.
pub enum AdmissionView {
    Duplicate,
    Create(Option<Seq<char>>),
}

impl EventAdmission {
    pub open spec fn view_admission(self) -> AdmissionView {
        match self {
            EventAdmission::Duplicate => AdmissionView::Duplicate,
            EventAdmission::Create { client_id } => AdmissionView::Create(opt_view(client_id)),
        }
    }
}

/// The admission of an event whose request names `requested`; `duplicate`
/// says whether the request carries a deduplication id under which an event
/// is already stored. A duplicate is answered as it is; otherwise the event
/// is filed under the requested client, else (for a caller that is not
/// anchor) the first client the caller may use, and refused when the caller
/// may not use that client.
pub open spec fn admission_spec(scope: AccessScope, requested: Option<String>, duplicate: bool) -> Result<AdmissionView, Seq<char>> {
    if duplicate {
        Ok(AdmissionView::Duplicate)
    } else {
        match event_client_spec(scope, requested) {
            Some(c) => if may_access(scope, c) {
                Ok(AdmissionView::Create(Some(c)))
            } else {
                Err("No access to client: "@ + c)
            },
            None => Ok(AdmissionView::Create(None)),
        }
    }
}

pub fn admit_event(scope: &AccessScope, requested_client: &Option<String>, duplicate: bool) -> (r: Result<EventAdmission, String>)
    ensures
        match admission_spec(*scope, *requested_client, duplicate) {
            Ok(v) => r matches Ok(a) && a.view_admission() == v,
            Err(m) => r matches Err(e) && e@ == m,
        },
{
    if duplicate {
        return Ok(EventAdmission::Duplicate);
    }
    let client_id = event_client(scope, requested_client);
    match check_client_access(scope, &client_id) {
        Ok(()) => Ok(EventAdmission::Create { client_id }),
        Err(m) => Err(m),
    }
}

/// The status, duplicate flag and dispatch job count a single create
/// answers with: `200` and the flag for a duplicate, `201` for a new event;
/// no dispatch jobs either way (they are made later, from the outbox).
pub open spec fn answer_spec(a: AdmissionView) -> (u16, bool, usize) {
    match a {
        AdmissionView::Duplicate => (200u16, true, 0usize),
        AdmissionView::Create(_) => (201u16, false, 0usize),
    }
}

pub fn event_answer(a: &EventAdmission) -> (r: (u16, bool, usize))
    ensures
        r == answer_spec(a.view_admission()),
{
    match a {
        EventAdmission::Duplicate => (200, true, 0),
        EventAdmission::Create { .. } => (201, false, 0),
    }
}

/// Whether a request with deduplication id `dedup` is a duplicate for a
/// store holding events under the ids `stored`.
pub open spec fn is_duplicate(stored: Set<Seq<char>>, dedup: Option<Seq<char>>) -> bool {
    dedup matches Some(k) && stored.contains(k)
}

/// The deduplication ids stored once an admission is carried out: a new
/// event with an id adds it; a duplicate stores nothing.
pub open spec fn ids_after(stored: Set<Seq<char>>, dedup: Option<Seq<char>>, a: AdmissionView) -> Set<Seq<char>> {
    if a is Create && dedup is Some {
        stored.insert(dedup->0)
    } else {
        stored
    }
}

/// How many admissions are duplicates.
pub open spec fn duplicates_in(admissions: Seq<EventAdmission>) -> nat
    decreases admissions.len(),
{
    if admissions.len() == 0 {
        0
    } else {
        duplicates_in(admissions.drop_last()) + if admissions.last() is Duplicate { 1nat } else { 0nat }
    }
}

/// The status and counts of a batch answer: `201`, every event (new or
/// duplicate), and the duplicates among them; no dispatch jobs (they are
/// made later, from the outbox).
pub fn batch_event_counts(admissions: &Vec<EventAdmission>) -> (r: (u16, usize, usize, usize))
    ensures
        r.0 == 201,
        r.1 == admissions@.len(),
        r.2 == duplicates_in(admissions@),
        r.3 == 0,
{
    let mut duplicates: usize = 0;
    let mut i: usize = 0;
    while i < admissions.len()
        invariant
            i <= admissions@.len(),
            duplicates == duplicates_in(admissions@.take(i as int)),
            duplicates <= i,
        decreases admissions@.len() - i,
    {
        assert(admissions@.take(i + 1).drop_last() =~= admissions@.take(i as int));
        if let EventAdmission::Duplicate = &admissions[i] {
            duplicates = duplicates + 1;
        }
        i = i + 1;
    }
    assert(admissions@.take(admissions@.len() as int) =~= admissions@);
    (201, admissions.len(), duplicates, 0)
}

// ---------------------------------------------------------------- list filters

/// The trimmed, non-empty pieces of a comma-separated list.
pub open spec fn csv_items(pieces: Seq<Seq<char>>) -> Seq<Seq<char>>
    decreases pieces.len(),
{
    if pieces.len() == 0 {
        Seq::empty()
    } else {
        let rest = csv_items(pieces.drop_last());
        let t = trim_spec(pieces.last());
        if t.len() == 0 { rest } else { rest.push(t) }
    }
}

/// The items of an optional comma-separated filter.
pub open spec fn csv_spec(input: Option<String>) -> Seq<Seq<char>> {
    match input {
        Some(s) => csv_items(split_spec(s@, ',')),
        None => Seq::empty(),
    }
}

/// Split a comma-separated filter into its trimmed, non-empty items.
pub fn split_csv(input: &Option<String>) -> (r: Vec<String>)
    ensures
        string_views(r@) == csv_spec(*input),
{
    match input {
        None => Vec::new(),
        Some(s) => {
            let parts = split(s.as_str(), ',');
            let ghost pv = string_views(parts@);
            let mut out: Vec<String> = Vec::new();
            let mut i: usize = 0;
            while i < parts.len()
                invariant
                    pv == string_views(parts@),
                    pv == split_spec(s@, ','),
                    i <= parts@.len(),
                    string_views(out@) == csv_items(pv.take(i as int)),
                decreases parts@.len() - i,
            {
                assert(pv.take(i + 1).drop_last() =~= pv.take(i as int));
                assert(pv.take(i + 1).last() == parts@[i as int]@);
                let t = trim(parts[i].as_str());
                let ghost before = string_views(out@);
                if t.unicode_len() > 0 {
                    out.push(t);
                    assert(string_views(out@) =~= before.push(trim_spec(parts@[i as int]@)));
                }
                i = i + 1;
            }
            assert(pv.take(pv.len() as int) =~= pv);
            out
        },
    }
}

/// Which clients a list is restricted to.
#[derive(Debug, Clone, PartialEq, Eq)]
pub enum ClientFilter {
    /// These clients (none means every client, for anchor users).
    Clients(Vec<String>),
    /// The caller may see no client: the list is empty.
    Nothing,
}

/// The accessible clients other than `*`, in order.
pub open spec fn named_clients(clients: Seq<Seq<char>>) -> Seq<Seq<char>>
    decreases clients.len(),
{
    if clients.len() == 0 {
        Seq::empty()
    } else {
        let rest = named_clients(clients.drop_last());
        if clients.last() == "*"@ { rest } else { rest.push(clients.last()) }
    }
}

/// The client restriction of a list: the requested clients, each of which
/// the caller must be able to use (the first refused one is named); with
/// none requested, every client for anchor users and the caller's named
/// clients otherwise.
pub open spec fn client_filter_spec(scope: AccessScope, requested: Seq<Seq<char>>) -> Result<Option<Seq<Seq<char>>>, Seq<char>> {
    if requested.len() > 0 {
        if exists|i: int| 0 <= i < requested.len() && !may_access(scope, #[trigger] requested[i]) {
            let i = choose|i: int| 0 <= i < requested.len() && !may_access(scope, #[trigger] requested[i])
                && forall|j: int| 0 <= j < i ==> may_access(scope, #[trigger] requested[j]);
            Err("No access to client: "@ + requested[i])
        } else {
            Ok(Some(requested))
        }
    } else if scope.anchor {
        Ok(Some(Seq::empty()))
    } else {
        let named = named_clients(string_views(scope.accessible_clients@));
        if named.len() == 0 { Ok(None) } else { Ok(Some(named)) }
    }
}

pub fn client_filter(scope: &AccessScope, requested: Vec<String>) -> (r: Result<ClientFilter, String>)
    ensures
        match client_filter_spec(*scope, string_views(requested@)) {
            Err(m) => r matches Err(e) && e@ == m,
            Ok(None) => r matches Ok(ClientFilter::Nothing),
            Ok(Some(c)) => r matches Ok(ClientFilter::Clients(v)) && string_views(v@) == c,
        },
{
    let ghost rq = string_views(requested@);
    if requested.len() > 0 {
        let mut i: usize = 0;
        while i < requested.len()
            invariant
                rq == string_views(requested@),
                i <= requested@.len(),
                forall|j: int| 0 <= j < i ==> may_access(*scope, #[trigger] rq[j]),
            decreases requested@.len() - i,
        {
            if !can_access_client(scope, requested[i].as_str()) {
                proof {
                    assert(!may_access(*scope, rq[i as int]));
                    let k = choose|k: int| 0 <= k < rq.len() && !may_access(*scope, #[trigger] rq[k])
                        && forall|j: int| 0 <= j < k ==> may_access(*scope, #[trigger] rq[j]);
                    assert(k == i) by {
                        if k < i {
                            assert(may_access(*scope, rq[k]));
                        } else if k > i {
                            assert(may_access(*scope, rq[i as int]));
                        }
                    }
                }
                let mut m = owned("No access to client: ");
                m.append(requested[i].as_str());
                return Err(m);
            }
            i = i + 1;
        }
        return Ok(ClientFilter::Clients(requested));
    }
    if scope.anchor {
        return Ok(ClientFilter::Clients(Vec::new()));
    }
    let ghost cv = string_views(scope.accessible_clients@);
    let mut out: Vec<String> = Vec::new();
    let mut i: usize = 0;
    while i < scope.accessible_clients.len()
        invariant
            cv == string_views(scope.accessible_clients@),
            i <= cv.len(),
            string_views(out@) == named_clients(cv.take(i as int)),
        decreases cv.len() - i,
    {
        assert(cv.take(i + 1).drop_last() =~= cv.take(i as int));
        assert(cv.take(i + 1).last() == scope.accessible_clients@[i as int]@);
        let ghost before = string_views(out@);
        if !str_eq(scope.accessible_clients[i].as_str(), "*") {
            out.push(scope.accessible_clients[i].clone());
            assert(string_views(out@) =~= before.push(cv[i as int]));
        }
        i = i + 1;
    }
    assert(cv.take(cv.len() as int) =~= cv);
    if out.len() == 0 {
        return Ok(ClientFilter::Nothing);
    }
    Ok(ClientFilter::Clients(out))
}

/// The number of rows a list returns: 50 by default, between 1 and 1000.
pub fn page_size(size: Option<u32>) -> (r: i64)
    ensures
        1 <= r <= 1000,
        size is None ==> r == 50,
        size matches Some(s) ==> r == (if s < 1 { 1 } else if s > 1000 { 1000 } else { s as int }),
{
    let s: u32 = match size {
        Some(s) => s,
        None => 50,
    };
    if s < 1 {
        1
    } else if s > 1000 {
        1000
    } else {
        s as i64
    }
}

/// A batch holds between one and a hundred items; `one` names an item and
/// `many` several.
pub fn check_batch_size(len: usize, one: &str, many: &str) -> (r: Result<(), String>)
    ensures
        len == 0 ==> (r matches Err(m) && m@ == "Request body must contain at least one "@ + one@),
        len > 100 ==> (r matches Err(m) && m@ == "Batch size cannot exceed 100 "@ + many@),
        1 <= len <= 100 ==> r is Ok,
{
    if len == 0 {
        let mut m = owned("Request body must contain at least one ");
        m.append(one);
        return Err(m);
    }
    if len > 100 {
        let mut m = owned("Batch size cannot exceed 100 ");
        m.append(many);
        return Err(m);
    }
    Ok(())
}

// ---------------------------------------------------------------- dispatch job options

/// The statuses a dispatch job can have.
pub open spec fn known_job_status(s: Seq<char>) -> bool {
    s == "PENDING"@ || s == "QUEUED"@ || s == "PROCESSING"@ || s == "COMPLETED"@ || s == "FAILED"@
        || s == "CANCELLED"@ || s == "EXPIRED"@
}

/// Every status filter must name a job status, in any case; the first that
/// does not is reported as given.
pub fn validate_statuses(statuses: &Vec<String>) -> (r: Result<(), String>)
    ensures
        r is Ok <==> (forall|i: int| 0 <= i < statuses@.len() ==> known_job_status(uppercase_spec(#[trigger] statuses@[i]@))),
        r matches Err(m) ==> exists|i: int| 0 <= i < statuses@.len()
            && !known_job_status(uppercase_spec(#[trigger] statuses@[i]@))
            && (forall|j: int| 0 <= j < i ==> known_job_status(uppercase_spec(#[trigger] statuses@[j]@)))
            && m@ == "Invalid status: "@ + statuses@[i]@,
{
    let mut i: usize = 0;
    while i < statuses.len()
        invariant
            i <= statuses@.len(),
            forall|j: int| 0 <= j < i ==> known_job_status(uppercase_spec(#[trigger] statuses@[j]@)),
        decreases statuses@.len() - i,
    {
        let u = to_uppercase(statuses[i].as_str());
        let known = str_eq(u.as_str(), "PENDING") || str_eq(u.as_str(), "QUEUED") || str_eq(u.as_str(), "PROCESSING")
            || str_eq(u.as_str(), "COMPLETED") || str_eq(u.as_str(), "FAILED") || str_eq(u.as_str(), "CANCELLED")
            || str_eq(u.as_str(), "EXPIRED");
        if !known {
            let mut m = owned("Invalid status: ");
            m.append(statuses[i].as_str());
            return Err(m);
        }
        i = i + 1;
    }
    Ok(())
}

/// What a dispatch job delivers.
#[derive(Debug, Clone, Copy, PartialEq, Eq, Structural)]
pub enum DispatchKind {
    Event,
    Task,
}

/// How a job's message group reacts to a failure.
#[derive(Debug, Clone, Copy, PartialEq, Eq, Structural)]
pub enum DispatchMode {
    Immediate,
    NextOnError,
    BlockOnError,
}

/// When a failed delivery is tried again.
#[derive(Debug, Clone, Copy, PartialEq, Eq, Structural)]
pub enum RetryStrategy {
    Immediate,
    FixedDelay,
    ExponentialBackoff,
}

pub open spec fn is_text(o: Option<String>, t: Seq<char>) -> bool {
    o matches Some(s) && s@ == t
}

fn text_is(o: &Option<String>, t: &str) -> (r: bool)
    ensures
        r == is_text(*o, t@),
{
    match o {
        Some(s) => str_eq(s.as_str(), t),
        None => false,
    }
}

/// `TASK` makes a task job; anything else an event job.
pub fn dispatch_kind(requested: &Option<String>) -> (r: DispatchKind)
    ensures
        r == (if is_text(*requested, "TASK"@) { DispatchKind::Task } else { DispatchKind::Event }),
{
    if text_is(requested, "TASK") { DispatchKind::Task } else { DispatchKind::Event }
}

/// `NEXT_ON_ERROR` and `BLOCK_ON_ERROR` by name; anything else is immediate.
pub fn dispatch_mode(requested: &Option<String>) -> (r: DispatchMode)
    ensures
        r == (if is_text(*requested, "NEXT_ON_ERROR"@) {
            DispatchMode::NextOnError
        } else if is_text(*requested, "BLOCK_ON_ERROR"@) {
            DispatchMode::BlockOnError
        } else {
            DispatchMode::Immediate
        }),
{
    if text_is(requested, "NEXT_ON_ERROR") {
        DispatchMode::NextOnError
    } else if text_is(requested, "BLOCK_ON_ERROR") {
        DispatchMode::BlockOnError
    } else {
        DispatchMode::Immediate
    }
}

/// `IMMEDIATE` and `FIXED_DELAY` by name; anything else backs off exponentially.
pub fn retry_strategy(requested: &Option<String>) -> (r: RetryStrategy)
    ensures
        r == (if is_text(*requested, "IMMEDIATE"@) {
            RetryStrategy::Immediate
        } else if is_text(*requested, "FIXED_DELAY"@) {
            RetryStrategy::FixedDelay
        } else {
            RetryStrategy::ExponentialBackoff
        }),
{
    if text_is(requested, "IMMEDIATE") {
        RetryStrategy::Immediate
    } else if text_is(requested, "FIXED_DELAY") {
        RetryStrategy::FixedDelay
    } else {
        RetryStrategy::ExponentialBackoff
    }
}

/// A new dispatch job as a create request decides it, before it is queued:
/// what it delivers, where and how. `None` in an optional number or content
/// type leaves the job's default.
#[derive(Debug, Clone, PartialEq, Eq)]
pub struct DispatchJobDraft {
    pub kind: DispatchKind,
    /// The source event of an event job (empty when the request names
    /// none); none for a task.
    pub event_id: Option<String>,
    pub code: String,
    pub source: String,
    pub target_url: String,
    pub payload: String,
    pub subject: Option<String>,
    pub correlation_id: Option<String>,
    pub client_id: Option<String>,
    pub subscription_id: Option<String>,
    pub dispatch_pool_id: Option<String>,
    pub message_group: Option<String>,
    pub sequence: Option<i32>,
    pub timeout_seconds: Option<u32>,
    pub max_retries: Option<u32>,
    pub idempotency_key: Option<String>,
    pub external_id: Option<String>,
    pub payload_content_type: Option<String>,
    pub service_account_id: String,
    pub mode: DispatchMode,
    /// None in a batch job: the job's default.
    pub retry_strategy: Option<RetryStrategy>,
    pub data_only: bool,
    /// The metadata entries of the job.
    pub metadata: HashMap<String, String>,
}

/// The kind a request names: `TASK`, else an event.
pub open spec fn kind_spec(requested: Option<String>) -> DispatchKind {
    if is_text(requested, "TASK"@) { DispatchKind::Task } else { DispatchKind::Event }
}

/// The mode a request names: `NEXT_ON_ERROR`, `BLOCK_ON_ERROR`, else immediate.
pub open spec fn mode_spec(requested: Option<String>) -> DispatchMode {
    if is_text(requested, "NEXT_ON_ERROR"@) {
        DispatchMode::NextOnError
    } else if is_text(requested, "BLOCK_ON_ERROR"@) {
        DispatchMode::BlockOnError
    } else {
        DispatchMode::Immediate
    }
}

/// The retry strategy a request names: `IMMEDIATE`, `FIXED_DELAY`, else
/// exponential backoff.
pub open spec fn retry_spec(requested: Option<String>) -> RetryStrategy {
    if is_text(requested, "IMMEDIATE"@) {
        RetryStrategy::Immediate
    } else if is_text(requested, "FIXED_DELAY"@) {
        RetryStrategy::FixedDelay
    } else {
        RetryStrategy::ExponentialBackoff
    }
}

/// The text of an optional string, empty when absent.
pub open spec fn text_or_empty(o: Option<String>) -> Seq<char> {
    match o {
        Some(s) => s@,
        None => Seq::<char>::empty(),
    }
}

/// `d` is the job `req` makes. The kind, mode and retry strategy are read
/// by name; an event job carries the requested event id (empty when none),
/// a task none; the source defaults to empty; the other fields are the
/// request's (metadata included), except that a job of a batch leaves its
/// sequence, retry strategy, idempotency key, external id and content type
/// to the job's defaults and carries no metadata.
pub open spec fn draft_matches(d: DispatchJobDraft, req: CreateDispatchJobRequest, batch: bool) -> bool {
    &&& d.kind == kind_spec(req.kind)
    &&& d.kind == DispatchKind::Task ==> d.event_id is None
    &&& d.kind == DispatchKind::Event ==> opt_view(d.event_id) == Some(text_or_empty(req.event_id))
    &&& d.source@ == text_or_empty(req.source)
    &&& d.code == req.code && d.target_url == req.target_url && d.payload == req.payload
    &&& d.subject == req.subject && d.correlation_id == req.correlation_id
    &&& d.client_id == req.client_id && d.subscription_id == req.subscription_id
    &&& d.dispatch_pool_id == req.dispatch_pool_id && d.message_group == req.message_group
    &&& d.timeout_seconds == req.timeout_seconds && d.max_retries == req.max_retries
    &&& d.service_account_id == req.service_account_id && d.data_only == req.data_only
    &&& d.mode == mode_spec(req.mode)
    &&& d.sequence == (if batch { None } else { req.sequence })
    &&& d.retry_strategy == (if batch { None } else { Some(retry_spec(req.retry_strategy)) })
    &&& d.idempotency_key == (if batch { None } else { req.idempotency_key })
    &&& d.external_id == (if batch { None } else { req.external_id })
    &&& d.payload_content_type == (if batch { None } else { req.payload_content_type })
    &&& d.metadata@ == (if batch { Map::<String, String>::empty() } else { req.metadata@ })
}

/// A request names a client the caller may not use.
pub open spec fn client_refused(scope: AccessScope, req: CreateDispatchJobRequest) -> bool {
    req.client_id matches Some(c) && !may_access(scope, c@)
}

fn draft_job(scope: &AccessScope, req: &CreateDispatchJobRequest, batch: bool) -> (r: Result<DispatchJobDraft, String>)
    ensures
        client_refused(*scope, *req) ==> (r matches Err(m) && m@ == "No access to client: "@ + req.client_id->0@),
        !client_refused(*scope, *req) ==> (r matches Ok(d) && draft_matches(d, *req, batch)),
{
    match check_client_access(scope, &req.client_id) {
        Ok(()) => {},
        Err(m) => return Err(m),
    }
    let kind = dispatch_kind(&req.kind);
    let event_id = match kind {
        DispatchKind::Event => Some(match &req.event_id {
            Some(e) => e.clone(),
            None => String::new(),
        }),
        DispatchKind::Task => None,
    };
    let source = match &req.source {
        Some(s) => s.clone(),
        None => String::new(),
    };
    Ok(DispatchJobDraft {
        kind,
        event_id,
        code: req.code.clone(),
        source,
        target_url: req.target_url.clone(),
        payload: req.payload.clone(),
        subject: req.subject.clone(),
        correlation_id: req.correlation_id.clone(),
        client_id: req.client_id.clone(),
        subscription_id: req.subscription_id.clone(),
        dispatch_pool_id: req.dispatch_pool_id.clone(),
        message_group: req.message_group.clone(),
        sequence: if batch { None } else { req.sequence },
        timeout_seconds: req.timeout_seconds,
        max_retries: req.max_retries,
        idempotency_key: if batch { None } else { req.idempotency_key.clone() },
        external_id: if batch { None } else { req.external_id.clone() },
        payload_content_type: if batch { None } else { req.payload_content_type.clone() },
        service_account_id: req.service_account_id.clone(),
        mode: dispatch_mode(&req.mode),
        retry_strategy: if batch { None } else { Some(retry_strategy(&req.retry_strategy)) },
        data_only: req.data_only,
        metadata: if batch { HashMap::new() } else { req.metadata.clone() },
    })
}

/// The job a create request makes, with the status (`201`) the answer
/// carries once it is stored, or the refusal when it names a client the
/// caller may not use.
pub fn dispatch_job_draft(scope: &AccessScope, req: &CreateDispatchJobRequest) -> (r: Result<(u16, DispatchJobDraft), String>)
    ensures
        client_refused(*scope, *req) ==> (r matches Err(m) && m@ == "No access to client: "@ + req.client_id->0@),
        !client_refused(*scope, *req) ==> (r matches Ok((status, d)) && status == 201 && draft_matches(d, *req, false)),
{
    match draft_job(scope, req, false) {
        Ok(d) => Ok((201, d)),
        Err(m) => Err(m),
    }
}

/// The answer to a stored batch of dispatch jobs: status `201`, the jobs in
/// order, and their count.
pub fn batch_jobs_answer(jobs: Vec<DispatchJobResponse>) -> (r: (u16, BatchCreateDispatchJobsResponse))
    ensures
        r.0 == 201,
        r.1.jobs@ == jobs@,
        r.1.count == jobs@.len(),
{
    let count = jobs.len();
    (201, BatchCreateDispatchJobsResponse { jobs, count })
}

/// The jobs of a batch create request, in order, or the refusal: a batch of
/// none or of more than a hundred jobs, else the first job that names a
/// client the caller may not use.
pub fn batch_job_drafts(scope: &AccessScope, jobs: &Vec<CreateDispatchJobRequest>) -> (r: Result<Vec<DispatchJobDraft>, String>)
    ensures
        jobs@.len() == 0 ==> (r matches Err(m) && m@ == "Request body must contain at least one dispatch job"@),
        jobs@.len() > 100 ==> (r matches Err(m) && m@ == "Batch size cannot exceed 100 dispatch jobs"@),
        1 <= jobs@.len() <= 100 ==> match r {
            Ok(v) => {
                &&& forall|k: int| 0 <= k < jobs@.len() ==> !client_refused(*scope, #[trigger] jobs@[k])
                &&& v@.len() == jobs@.len()
                &&& forall|k: int| 0 <= k < jobs@.len() ==> draft_matches(#[trigger] v@[k], jobs@[k], true)
            },
            Err(m) => exists|k: int| {
                &&& 0 <= k < jobs@.len()
                &&& client_refused(*scope, #[trigger] jobs@[k])
                &&& forall|j: int| 0 <= j < k ==> !client_refused(*scope, #[trigger] jobs@[j])
                &&& m@ == "No access to client: "@ + jobs@[k].client_id->0@
            },
        },
{
    match check_batch_size(jobs.len(), "dispatch job", "dispatch jobs") {
        Ok(()) => {},
        Err(m) => {
            proof {
                reveal_strlit("Request body must contain at least one ");
                reveal_strlit("dispatch job");
                reveal_strlit("Request body must contain at least one dispatch job");
                reveal_strlit("Batch size cannot exceed 100 ");
                reveal_strlit("dispatch jobs");
                reveal_strlit("Batch size cannot exceed 100 dispatch jobs");
                assert("Request body must contain at least one "@ + "dispatch job"@
                    =~= "Request body must contain at least one dispatch job"@);
                assert("Batch size cannot exceed 100 "@ + "dispatch jobs"@ =~= "Batch size cannot exceed 100 dispatch jobs"@);
            }
            return Err(m);
        },
    }
    let mut out: Vec<DispatchJobDraft> = Vec::new();
    let mut i: usize = 0;
    while i < jobs.len()
        invariant
            i <= jobs@.len(),
            1 <= jobs@.len() <= 100,
            out@.len() == i,
            forall|k: int| 0 <= k < i ==> !client_refused(*scope, #[trigger] jobs@[k]),
            forall|k: int| 0 <= k < i ==> draft_matches(#[trigger] out@[k], jobs@[k], true),
        decreases jobs@.len() - i,
    {
        let d = match draft_job(scope, &jobs[i], true) {
            Ok(d) => d,
            Err(m) => {
                assert(client_refused(*scope, jobs@[i as int]));
                return Err(m);
            },
        };
        out.push(d);
        i = i + 1;
    }
    Ok(out)
}

} // verus!

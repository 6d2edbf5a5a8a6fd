//! Request records of the event-type API.

use vstd::prelude::*;
use crate::access::{can_access_client, may_access, AccessScope};
use crate::text::opt_view;
use crate::text::owned;

verus! {

/// Update event type request
#[derive(Debug, Clone, PartialEq, Eq)]
pub struct UpdateEventTypeRequest {
    /// Human-readable name
    pub name: Option<String>,

    /// Description
    pub description: Option<String>,
}


/// The status filter of an event-type list: the one asked for, or `CURRENT`
/// when the request names no filter at all.
pub fn event_type_status_filter(
    application: &Option<String>,
    client_id: &Option<String>,
    status: &Option<String>,
    subdomain: &Option<String>,
    aggregate: &Option<String>,
) -> (r: Option<String>)
    ensures
        (application is None && client_id is None && status is None && subdomain is None && aggregate is None)
            ==> (r matches Some(x) && x@ == "CURRENT"@),
        !(application is None && client_id is None && status is None && subdomain is None && aggregate is None)
            ==> r == *status,
{
    if application.is_none() && client_id.is_none() && status.is_none() && subdomain.is_none() && aggregate.is_none() {
        Some(owned("CURRENT"))
    } else {
        crate::text::copy_opt(status)
    }
}

/// Event types without a client are visible to everyone; a client's to
/// those who may use the client.
pub fn event_type_visible(scope: &AccessScope, client_id: &Option<String>) -> (r: bool)
    ensures
        r == (match opt_view(*client_id) { Some(c) => may_access(*scope, c), None => true }),
{
    match client_id {
        Some(c) => can_access_client(scope, c.as_str()),
        None => true,
    }
}

/// The decimal digit character of `d < 10`.
pub open spec fn digit_char(d: nat) -> char {
    ('0' as nat + d) as char
}

/// The decimal text of a natural number, without leading zeros.
pub open spec fn decimal(n: nat) -> Seq<char>
    decreases n,
{
    if n < 10 {
        seq![digit_char(n)]
    } else {
        decimal(n / 10).push(digit_char(n % 10))
    }
}

fn digit_text(d: u64) -> (r: &'static str)
    requires
        d < 10,
    ensures
        r@ == seq![digit_char(d as nat)],
{
    proof {
        reveal_strlit("0");
        reveal_strlit("1");
        reveal_strlit("2");
        reveal_strlit("3");
        reveal_strlit("4");
        reveal_strlit("5");
        reveal_strlit("6");
        reveal_strlit("7");
        reveal_strlit("8");
        reveal_strlit("9");
    }
    if d == 0 { "0" } else if d == 1 { "1" } else if d == 2 { "2" } else if d == 3 { "3" } else if d == 4 { "4" }
    else if d == 5 { "5" } else if d == 6 { "6" } else if d == 7 { "7" } else if d == 8 { "8" } else { "9" }
}

/// The decimal text of `n` (as `format!("{}", n)` writes it).
pub fn decimal_text(n: u64) -> (r: String)
    ensures
        r@ == decimal(n as nat),
    decreases n,
{
    if n < 10 {
        owned(digit_text(n))
    } else {
        let mut s = decimal_text(n / 10);
        s.append(digit_text(n % 10));
        s
    }
}

/// The version a new schema gets: one more than the number of versions,
/// as `<n>.0`.
pub fn next_schema_version(existing: usize) -> (r: String)
    requires
        existing < u64::MAX,
    ensures
        r@ == decimal((existing + 1) as nat) + ".0"@,
{
    let mut v = decimal_text((existing as u64) + 1);
    v.append(".0");
    v
}


/// Query parameters for the event type list (paging is read separately).
#[derive(Debug, Clone, PartialEq, Eq)]
pub struct EventTypesQuery {
    /// Filter by application code
    pub application: Option<String>,
    /// Filter by client ID
    pub client_id: Option<String>,
    /// Filter by status
    pub status: Option<String>,
    /// Filter by subdomain
    pub subdomain: Option<String>,
    /// Filter by aggregate
    pub aggregate: Option<String>,
}

} // verus!

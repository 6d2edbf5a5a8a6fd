//! Properties of the library as a whole, stated over the specifications the
//! functions' contracts use.

use vstd::prelude::*;
use vstd::utf8::encode_utf8;
use crate::access::{client_filter_spec, csv_items, may_access, named_clients, record_visible, AccessScope};
use crate::text::opt_view;
use crate::oauth::{authorize_client_verdict, code_redemption_verdict, AuthorizationCode, AuthorizeRequest,
    ClientLookup, TokenRequest};
use crate::oauth_clients::OAuthClient;
use crate::pkce::{challenge_for, pkce_verdict, verifier_char};
use crate::process::{archived, sync_managed, unlisted_ids, Process, ProcessStatus};
use crate::federation::{email_domain_spec, redirect_after_login, OidcLoginState};
use crate::redirect::redirect_allowed;
use crate::text::string_views;
use crate::encoding::{hex_upper, percent_encode, url_unreserved};
use crate::access::{admission_spec, answer_spec, ids_after, is_duplicate, AdmissionView};
use crate::oauth::{client_auth_verdict, enc, opt_param, session_step_spec, SessionClaims, SessionStep};
use crate::id_token::{claim_strings, claim_text, federated_claims, guest_account_message, id_token_claims_spec,
    issuer_valid, json_claim_spec, ClaimsView};
use crate::federation::IdentityProvider;
use crate::redirect::first_occurrence;
use crate::text::{lowercase_spec, trim_spec};
use crate::process::{strs, update_changes, updated_fields, UpdateProcessCommand};
use crate::openapi_spec::{current_hash_after, sync_step_spec, OpenApiSyncStep};

verus! {

/// A verifier of the allowed length and alphabet always answers the
/// challenge computed from it, under the method it was computed with (S256
/// when none is named).
pub proof fn law_pkce_round_trip(method: Option<Seq<char>>, verifier: Seq<char>)
    requires
        43 <= encode_utf8(verifier).len() <= 128,
        forall|i: int| 0 <= i < verifier.len() ==> verifier_char(#[trigger] verifier[i]),
    ensures
        pkce_verdict(
            challenge_for(match method { Some(m) => m, None => "S256"@ }, verifier),
            method,
            Some(verifier),
        ) is Ok,
{
}

/// A redirect URI listed verbatim is always accepted.
pub proof fn law_listed_redirect_accepted(uri: Seq<char>, registered: Seq<Seq<char>>)
    requires
        registered.contains(uri),
    ensures
        redirect_allowed(uri, registered),
{
}

/// An entry without `*` accepts exactly itself.
pub proof fn law_plain_entry_is_exact(uri: Seq<char>, entry: Seq<char>)
    requires
        !entry.contains('*'),
    ensures
        redirect_allowed(uri, seq![entry]) <==> uri == entry,
{
    let reg = seq![entry];
    if uri == entry {
        assert(reg[0] == uri);
    }
    if redirect_allowed(uri, reg) {
        if !reg.contains(uri) {
            let k = choose|k: int| 0 <= k < reg.len() && (#[trigger] reg[k]).contains('*')
                && crate::redirect::wildcard_match_spec(uri, reg[k]);
            assert(reg[k] == entry);
        }
    }
}

/// Once the client is known and active, the authorization endpoint sends an
/// error back to the client's `redirect_uri` only when that URI is
/// registered for the client, and accepts a request only then.
pub proof fn law_authorize_redirects_only_to_registered(req: AuthorizeRequest, client: OAuthClient)
    requires
        client.active,
    ensures
        !redirect_allowed(req.redirect_uri@, string_views(client.redirect_uris@)) ==> authorize_client_verdict(req,
            ClientLookup::Found(client)) == Some((false, "invalid_request"@, "Invalid redirect_uri"@)),
        authorize_client_verdict(req, ClientLookup::Found(client)) matches Some((true, _e, _d))
            ==> redirect_allowed(req.redirect_uri@, string_views(client.redirect_uris@)),
        authorize_client_verdict(req, ClientLookup::Found(client)) is None
            ==> redirect_allowed(req.redirect_uri@, string_views(client.redirect_uris@)),
{
}

/// An authorization code is redeemed only by the client it was issued to,
/// for the redirect URI it was issued for, within ten minutes, and with a
/// verifier that answers its challenge when it has one.
pub proof fn law_redeemed_code_matches(req: TokenRequest, code: AuthorizationCode, now: i64)
    requires
        code_redemption_verdict(req, code, now) is None,
    ensures
        now - code.created_at <= 600,
        opt_view(req.client_id) == Some(code.client_id@),
        opt_view(req.redirect_uri) == Some(code.redirect_uri@),
        code.code_challenge matches Some(ch) ==> pkce_verdict(ch@, opt_view(code.code_challenge_method),
            opt_view(req.code_verifier)) is Ok,
{
}

/// A sync removes only processes that code or the API created, and only
/// those whose codes it did not list.
pub proof fn law_sync_removes_only_unlisted_managed(existing: Seq<Process>, codes: Seq<Seq<char>>, k: int)
    requires
        0 <= k < unlisted_ids(existing, codes).len(),
    ensures
        exists|j: int| 0 <= j < existing.len() && #[trigger] existing[j].id@ == unlisted_ids(existing, codes)[k]
            && sync_managed(existing[j].source) && !codes.contains(existing[j].code@),
    decreases existing.len(),
{
    let prev = unlisted_ids(existing.drop_last(), codes);
    let p = existing.last();
    if k < prev.len() {
        law_sync_removes_only_unlisted_managed(existing.drop_last(), codes, k);
        let j = choose|j: int| 0 <= j < existing.drop_last().len()
            && #[trigger] existing.drop_last()[j].id@ == prev[k]
            && sync_managed(existing.drop_last()[j].source) && !codes.contains(existing.drop_last()[j].code@);
        assert(existing[j] == existing.drop_last()[j]);
        assert(unlisted_ids(existing, codes)[k] == prev[k]);
    } else {
        assert(existing[existing.len() - 1] == p);
    }
}

/// Every item of a comma-separated filter is non-empty.
pub proof fn law_csv_items_nonempty(pieces: Seq<Seq<char>>, i: int)
    requires
        0 <= i < csv_items(pieces).len(),
    ensures
        csv_items(pieces)[i].len() > 0,
    decreases pieces.len(),
{
    let rest = csv_items(pieces.drop_last());
    if i < rest.len() {
        law_csv_items_nonempty(pieces.drop_last(), i);
    }
}

proof fn lemma_named_clients_listed(clients: Seq<Seq<char>>, i: int)
    requires
        0 <= i < named_clients(clients).len(),
    ensures
        clients.contains(named_clients(clients)[i]),
    decreases clients.len(),
{
    let rest = named_clients(clients.drop_last());
    if i < rest.len() {
        lemma_named_clients_listed(clients.drop_last(), i);
        let k = choose|k: int| 0 <= k < clients.drop_last().len() && clients.drop_last()[k] == rest[i];
        assert(clients[k] == rest[i]);
    } else {
        assert(clients[clients.len() - 1] == clients.last());
    }
}

/// A list is never restricted to a client the caller may not use.
pub proof fn law_client_filter_within_access(scope: AccessScope, requested: Seq<Seq<char>>, i: int)
    requires
        client_filter_spec(scope, requested) matches Ok(Some(c)) && 0 <= i < c.len(),
    ensures
        client_filter_spec(scope, requested) matches Ok(Some(c)) && may_access(scope, c[i]),
{
    if requested.len() > 0 {
        assert(may_access(scope, requested[i]));
    } else if !scope.anchor {
        lemma_named_clients_listed(string_views(scope.accessible_clients@), i);
    }
}

/// Anchor users see every record.
pub proof fn law_anchor_sees_everything(scope: AccessScope, client_id: Option<Seq<char>>)
    requires
        scope.anchor,
    ensures
        record_visible(scope, client_id),
{
}


/// Archiving is final: an archived process is archived, so archiving it
/// again is refused and updating it is refused; nothing else about it
/// changes but the time stamp.
pub proof fn law_archive_is_final(p: Process, now: i64)
    ensures
        archived(p, now).status == ProcessStatus::Archived,
        archived(p, now).id == p.id && archived(p, now).code == p.code && archived(p, now).body == p.body,
        archived(p, now).updated_at == now,
{
}

/// The domain read from a login email is never empty.
pub proof fn law_email_domain_not_empty(email: Seq<char>)
    ensures
        email_domain_spec(email) matches Some(d) ==> d.len() > 0,
{
}


/// A character that cannot end or start a query parameter: an ASCII letter
/// or digit, `-._~`, or `%`.
pub open spec fn url_safe_char(c: char) -> bool {
    ('0' <= c && c <= '9') || ('A' <= c && c <= 'Z') || ('a' <= c && c <= 'z') || c == '-' || c == '.' || c == '_'
        || c == '~' || c == '%'
}

proof fn lemma_hex_safe(d: int)
    requires
        0 <= d < 16,
    ensures
        url_safe_char(hex_upper(d)),
{
}

/// Percent-encoded text holds only letters, digits, `-._~` and `%`, so a
/// value placed in a URL this way can never add, end or split a parameter.
pub proof fn law_percent_encoding_is_url_safe(bytes: Seq<u8>, i: int)
    requires
        0 <= i < percent_encode(bytes).len(),
    ensures
        url_safe_char(percent_encode(bytes)[i]),
    decreases bytes.len(),
{
    let b = bytes[0];
    let head = if url_unreserved(b) {
        seq![b as char]
    } else {
        seq!['%', hex_upper(b as int / 16), hex_upper(b as int % 16)]
    };
    assert(percent_encode(bytes) == head + percent_encode(bytes.drop_first()));
    if i < head.len() {
        if !url_unreserved(b) {
            lemma_hex_safe(b as int / 16);
            lemma_hex_safe(b as int % 16);
        }
    } else {
        law_percent_encoding_is_url_safe(bytes.drop_first(), i - head.len());
    }
}


/// After a federated login that did not come from an OAuth request, a
/// relative return URL keeps the browser on the platform.
pub proof fn law_relative_return_stays_on_platform(base: Seq<char>, s: OidcLoginState)
    requires
        s.oauth_client_id is None,
        s.return_url matches Some(r) && r@.len() > 0 && r@[0] == '/',
    ensures
        base.is_prefix_of(redirect_after_login(base, s)),
{
    let r = s.return_url->0@;
    assert((base + r).subrange(0, base.len() as int) =~= base);
}

/// Two successive syncs of the same document: whatever the first did, the
/// document is then the current one, and the second archives and stores
/// nothing, reporting the current document as unchanged.
pub proof fn law_second_sync_is_unchanged(prior_hash: Option<Seq<char>>, new_hash: Seq<char>)
    ensures
        current_hash_after(prior_hash, new_hash, sync_step_spec(prior_hash, new_hash)) == Some(new_hash),
        sync_step_spec(current_hash_after(prior_hash, new_hash, sync_step_spec(prior_hash, new_hash)), new_hash)
            == OpenApiSyncStep::Unchanged,
{
}

/// Creating an event twice with the same deduplication id: once the first
/// request is admitted (new or duplicate), the id is stored, and the second
/// request is a duplicate, answered `200` as a duplicate with no dispatch
/// jobs, and stores nothing.
pub proof fn law_second_create_is_duplicate(
    stored: Set<Seq<char>>,
    k: Seq<char>,
    scope: AccessScope,
    requested: Option<String>,
)
    requires
        admission_spec(scope, requested, is_duplicate(stored, Some(k))) is Ok,
    ensures
        ({
            let first = admission_spec(scope, requested, is_duplicate(stored, Some(k)))->Ok_0;
            let after = ids_after(stored, Some(k), first);
            &&& admission_spec(scope, requested, is_duplicate(after, Some(k))) == Ok::<AdmissionView, Seq<char>>(
                AdmissionView::Duplicate,
            )
            &&& answer_spec(AdmissionView::Duplicate) == (200u16, true, 0usize)
            &&& ids_after(after, Some(k), AdmissionView::Duplicate) == after
        }),
{
}

/// A deactivated client never authenticates: whatever secret it presents,
/// it is refused as not active; and a client that authenticates was found
/// and is active, a public one presenting no secret, a confidential one
/// presenting its own.
pub proof fn law_only_active_clients_authenticate(lookup: ClientLookup, presented: Option<Seq<char>>, decrypted: Option<Seq<char>>)
    ensures
        lookup matches ClientLookup::Found(c) && !c.active ==> client_auth_verdict(lookup, presented, decrypted)
            == Some((401u16, "invalid_client"@, Some("Client is not active"@))),
        client_auth_verdict(lookup, presented, decrypted) is None ==> (lookup matches ClientLookup::Found(c) && c.active
            && (c.client_secret_ref is None ==> presented is None)
            && (c.client_secret_ref is Some ==> presented is Some && decrypted == presented)),
        lookup matches ClientLookup::Found(c) && c.active && c.client_secret_ref is None && presented is None
            ==> client_auth_verdict(lookup, presented, decrypted) is None,
        lookup matches ClientLookup::Found(c) && c.active && c.client_secret_ref is Some && presented is Some
            && decrypted == presented ==> client_auth_verdict(lookup, presented, decrypted) is None,
{
}

/// A signed-in user whose session is young enough gets a code at once,
/// unless the request forces a new login; in particular silent
/// authentication (`prompt=none`) succeeds for such a user. `login_required`
/// is answered only to a silent request without a session, and a forced
/// login or a missing session always shows the login.
pub proof fn law_valid_session_gets_a_code(prompt: Option<Seq<char>>, session: Option<SessionClaims>, max_age: Option<i64>, now: i64)
    ensures
        session matches Some(c) && prompt != Some("login"@) && !(max_age matches Some(m) && now - c.iat > m)
            ==> session_step_spec(prompt, session, max_age, now) == (SessionStep::IssueCode { principal_id: session->0.sub }),
        session_step_spec(prompt, session, max_age, now) is LoginRequired <==> (session is None && prompt == Some("none"@)),
        session_step_spec(prompt, session, max_age, now) matches SessionStep::IssueCode { principal_id }
            ==> session matches Some(c) && principal_id == c.sub,
        prompt == Some("login"@) ==> session_step_spec(prompt, session, max_age, now) is ShowLogin,
        session is None && prompt != Some("none"@) ==> session_step_spec(prompt, session, max_age, now) is ShowLogin,
        session matches Some(c) && max_age matches Some(m) && now - c.iat > m
            ==> session_step_spec(prompt, session, max_age, now) is ShowLogin,
{
    reveal_strlit("login");
    reveal_strlit("none");
    assert("login"@[0] != "none"@[0]);
}

/// The text of a top-level claim.
pub open spec fn text_claim(payload: Seq<u8>, key: Seq<char>) -> Option<Seq<char>> {
    claim_text(json_claim_spec(payload, key, None))
}

/// The claims a login accepts come from the token: its issuer and subject,
/// a nonce equal to the expected one, the lower-cased `email` claim when it
/// is a string (`preferred_username` only when it is not), never a guest
/// account, an issuer the provider accepts when it is multi-tenant, and its
/// `name` and `tid` claims.
pub proof fn law_claims_come_from_the_token(payload: Seq<u8>, idp: IdentityProvider, nonce: Seq<char>)
    ensures
        id_token_claims_spec(payload, idp, nonce) matches Ok(v) ==> {
            &&& text_claim(payload, "iss"@) == Some(v.0)
            &&& text_claim(payload, "sub"@) == Some(v.1)
            &&& text_claim(payload, "nonce"@) == Some(nonce)
            &&& match text_claim(payload, "email"@) {
                Some(e) => v.2 == lowercase_spec(e),
                None => text_claim(payload, "preferred_username"@) matches Some(u) && v.2 == lowercase_spec(u),
            }
            &&& first_occurrence(v.2, "#ext#"@) is None
            &&& idp.oidc_multi_tenant ==> issuer_valid(idp, v.0)
            &&& v.3 == text_claim(payload, "name"@)
            &&& v.4 == text_claim(payload, "tid"@)
        },
{
}

/// A token whose issuer, subject and nonce are present (the nonce the
/// expected one, the issuer valid for a multi-tenant provider) and whose
/// `email` claim is a string that is no guest address is accepted with that
/// email, lower-cased.
pub proof fn law_email_claim_is_used(payload: Seq<u8>, idp: IdentityProvider, nonce: Seq<char>, e: Seq<char>)
    requires
        text_claim(payload, "iss"@) is Some,
        text_claim(payload, "sub"@) is Some,
        text_claim(payload, "nonce"@) == Some(nonce),
        idp.oidc_multi_tenant ==> issuer_valid(idp, text_claim(payload, "iss"@)->0),
        text_claim(payload, "email"@) == Some(e),
        first_occurrence(lowercase_spec(e), "#ext#"@) is None,
    ensures
        id_token_claims_spec(payload, idp, nonce) matches Ok(v) && v.2 == lowercase_spec(e),
{
}

/// `t` occurs in `s`.
pub open spec fn has_infix(s: Seq<char>, t: Seq<char>) -> bool {
    exists|a: Seq<char>, b: Seq<char>| s == a + t + b
}

proof fn lemma_infix(a: Seq<char>, t: Seq<char>, b: Seq<char>)
    ensures
        has_infix(a + t + b, t),
{
    assert(a + t + b == a + t + b);
}

/// After a login that interrupted an OAuth authorization, the browser goes
/// back to `/oauth/authorize` for the same client, and every OAuth parameter
/// the login state kept comes back with it, percent-encoded: redirect URI,
/// scope, state, PKCE challenge and method, nonce.
pub proof fn law_resumed_authorization_keeps_its_parameters(base: Seq<char>, s: OidcLoginState)
    requires
        s.oauth_client_id is Some,
    ensures
        ({
            let url = redirect_after_login(base, s);
            &&& (base + "/oauth/authorize?response_type=code&client_id="@ + enc(s.oauth_client_id->0@)).is_prefix_of(url)
            &&& s.oauth_redirect_uri matches Some(u) ==> has_infix(url, "&redirect_uri="@ + enc(u@))
            &&& s.oauth_scope matches Some(v) ==> has_infix(url, "&scope="@ + enc(v@))
            &&& s.oauth_state matches Some(v) ==> has_infix(url, "&state="@ + enc(v@))
            &&& s.oauth_code_challenge matches Some(v) ==> has_infix(url, "&code_challenge="@ + enc(v@))
            &&& s.oauth_code_challenge_method matches Some(v) ==> has_infix(url, "&code_challenge_method="@ + enc(v@))
            &&& s.oauth_nonce matches Some(v) ==> has_infix(url, "&nonce="@ + enc(v@))
        }),
{
    let p0 = base + "/oauth/authorize?response_type=code&client_id="@ + enc(s.oauth_client_id->0@);
    let p1 = opt_param("&redirect_uri="@, opt_view(s.oauth_redirect_uri));
    let p2 = opt_param("&scope="@, opt_view(s.oauth_scope));
    let p3 = opt_param("&state="@, opt_view(s.oauth_state));
    let p4 = opt_param("&code_challenge="@, opt_view(s.oauth_code_challenge));
    let p5 = opt_param("&code_challenge_method="@, opt_view(s.oauth_code_challenge_method));
    let p6 = opt_param("&nonce="@, opt_view(s.oauth_nonce));
    assert(redirect_after_login(base, s) == p0 + p1 + p2 + p3 + p4 + p5 + p6);
    lemma_pieces(p0, p1, p2, p3, p4, p5, p6);
}

proof fn lemma_pieces(p0: Seq<char>, p1: Seq<char>, p2: Seq<char>, p3: Seq<char>, p4: Seq<char>, p5: Seq<char>, p6: Seq<char>)
    ensures
        ({
            let all = p0 + p1 + p2 + p3 + p4 + p5 + p6;
            &&& p0.is_prefix_of(all)
            &&& has_infix(all, p1)
            &&& has_infix(all, p2)
            &&& has_infix(all, p3)
            &&& has_infix(all, p4)
            &&& has_infix(all, p5)
            &&& has_infix(all, p6)
        }),
{
    let all = p0 + p1 + p2 + p3 + p4 + p5 + p6;
    assert(all.subrange(0, p0.len() as int) =~= p0);
    assert(all =~= p0 + p1 + (p2 + p3 + p4 + p5 + p6));
    lemma_infix(p0, p1, p2 + p3 + p4 + p5 + p6);
    assert(all =~= (p0 + p1) + p2 + (p3 + p4 + p5 + p6));
    lemma_infix(p0 + p1, p2, p3 + p4 + p5 + p6);
    assert(all =~= (p0 + p1 + p2) + p3 + (p4 + p5 + p6));
    lemma_infix(p0 + p1 + p2, p3, p4 + p5 + p6);
    assert(all =~= (p0 + p1 + p2 + p3) + p4 + (p5 + p6));
    lemma_infix(p0 + p1 + p2 + p3, p4, p5 + p6);
    assert(all =~= (p0 + p1 + p2 + p3 + p4) + p5 + p6);
    lemma_infix(p0 + p1 + p2 + p3 + p4, p5, p6);
    assert(all =~= (p0 + p1 + p2 + p3 + p4 + p5) + p6 + Seq::<char>::empty());
    lemma_infix(p0 + p1 + p2 + p3 + p4 + p5, p6, Seq::<char>::empty());
}

/// An update of a process that is not archived sets each field it gives (the
/// name and diagram type trimmed, a blank diagram type ignored) and keeps
/// each field it leaves out; a given field that differs from the stored one
/// makes the update a change, and an update that gives no field changes
/// nothing.
pub proof fn law_update_sets_given_fields(p: Process, cmd: UpdateProcessCommand)
    ensures
        ({
            let f = updated_fields(p, cmd);
            &&& cmd.body matches Some(b) ==> f.2 == b@ && (b@ != p.body@ ==> update_changes(p, cmd))
            &&& cmd.body is None ==> f.2 == p.body@
            &&& cmd.name matches Some(n) ==> f.0 == trim_spec(n@) && (trim_spec(n@) != p.name@ ==> update_changes(p, cmd))
            &&& cmd.name is None ==> f.0 == p.name@
            &&& cmd.description matches Some(d) ==> f.1 == Some(d@)
                && (Some(d@) != opt_view(p.description) ==> update_changes(p, cmd))
            &&& cmd.description is None ==> f.1 == opt_view(p.description)
            &&& cmd.tags matches Some(t) ==> f.4 == strs(t) && (strs(t) != strs(p.tags) ==> update_changes(p, cmd))
            &&& cmd.tags is None ==> f.4 == strs(p.tags)
            &&& (cmd.diagram_type matches Some(d) && 0 < trim_spec(d@).len()) ==> f.3 == trim_spec(cmd.diagram_type->0@)
                && (trim_spec(cmd.diagram_type->0@) != p.diagram_type@ ==> update_changes(p, cmd))
            &&& !(cmd.diagram_type matches Some(d) && 0 < trim_spec(d@).len()) ==> f.3 == p.diagram_type@
            &&& (cmd.name is None && cmd.description is None && cmd.body is None && cmd.diagram_type is None
                && cmd.tags is None) ==> !update_changes(p, cmd)
        }),
{
}

/// Every refusal of client authentication names its reason: an unknown
/// client, an unreadable store, a public client presenting a secret, a
/// confidential client presenting none or a wrong one.
pub proof fn law_client_authentication_refusals(lookup: ClientLookup, presented: Option<Seq<char>>, decrypted: Option<Seq<char>>)
    ensures
        lookup is NotFound ==> client_auth_verdict(lookup, presented, decrypted)
            == Some((401u16, "invalid_client"@, Some("Unknown client"@))),
        lookup is Failed ==> client_auth_verdict(lookup, presented, decrypted) == Some((500u16, "server_error"@, None::<Seq<char>>)),
        lookup matches ClientLookup::Found(c) && c.active && c.client_secret_ref is None && presented is Some
            ==> client_auth_verdict(lookup, presented, decrypted)
            == Some((401u16, "invalid_client"@, Some("Public clients must not provide a client_secret"@))),
        lookup matches ClientLookup::Found(c) && c.active && c.client_secret_ref is Some && presented is None
            ==> client_auth_verdict(lookup, presented, decrypted)
            == Some((401u16, "invalid_client"@, Some("Client secret required for confidential clients"@))),
        lookup matches ClientLookup::Found(c) && c.active && c.client_secret_ref is Some && presented is Some
            && decrypted != presented ==> client_auth_verdict(lookup, presented, decrypted)
            == Some((401u16, "invalid_client"@, Some("Invalid client credentials"@))),
{
}

/// A token's claims are refused, in this order, for a missing issuer, a
/// missing subject, an issuer a multi-tenant provider does not accept, a
/// nonce other than the expected one, a missing email (and user name), and a
/// guest account; the roles come from `roles`, else `groups`, else
/// `realm_access.roles`; the federated claims are the payload without its
/// protocol members.
pub proof fn law_claims_refusals_and_roles(payload: Seq<u8>, idp: IdentityProvider, nonce: Seq<char>)
    ensures
        text_claim(payload, "iss"@) is None ==> id_token_claims_spec(payload, idp, nonce)
            == Err::<ClaimsView, Seq<char>>("Missing issuer claim"@),
        text_claim(payload, "iss"@) is Some && text_claim(payload, "sub"@) is None
            ==> id_token_claims_spec(payload, idp, nonce) == Err::<ClaimsView, Seq<char>>("Missing subject claim"@),
        text_claim(payload, "iss"@) is Some && text_claim(payload, "sub"@) is Some && idp.oidc_multi_tenant
            && !issuer_valid(idp, text_claim(payload, "iss"@)->0) ==> id_token_claims_spec(payload, idp, nonce)
            == Err::<ClaimsView, Seq<char>>("Invalid issuer for multi-tenant IDP: "@ + text_claim(payload, "iss"@)->0),
        text_claim(payload, "iss"@) is Some && text_claim(payload, "sub"@) is Some
            && (idp.oidc_multi_tenant ==> issuer_valid(idp, text_claim(payload, "iss"@)->0))
            && text_claim(payload, "nonce"@) != Some(nonce)
            ==> id_token_claims_spec(payload, idp, nonce) == Err::<ClaimsView, Seq<char>>("Nonce mismatch"@),
        text_claim(payload, "iss"@) is Some && text_claim(payload, "sub"@) is Some
            && (idp.oidc_multi_tenant ==> issuer_valid(idp, text_claim(payload, "iss"@)->0))
            && text_claim(payload, "nonce"@) == Some(nonce)
            && text_claim(payload, "email"@) is None && text_claim(payload, "preferred_username"@) is None
            ==> id_token_claims_spec(payload, idp, nonce) == Err::<ClaimsView, Seq<char>>("No email claim in ID token"@),
        text_claim(payload, "iss"@) is Some && text_claim(payload, "sub"@) is Some
            && (idp.oidc_multi_tenant ==> issuer_valid(idp, text_claim(payload, "iss"@)->0))
            && text_claim(payload, "nonce"@) == Some(nonce) && email_of(payload) is Some
            && first_occurrence(lowercase_spec(email_of(payload)->0), "#ext#"@) is Some
            ==> id_token_claims_spec(payload, idp, nonce) == Err::<ClaimsView, Seq<char>>(guest_account_message()),
        id_token_claims_spec(payload, idp, nonce) matches Ok(v) ==> {
            &&& claim_strings(json_claim_spec(payload, "roles"@, None)) is Some
                ==> v.5 == claim_strings(json_claim_spec(payload, "roles"@, None))
            &&& (claim_strings(json_claim_spec(payload, "roles"@, None)) is None
                && claim_strings(json_claim_spec(payload, "groups"@, None)) is Some)
                ==> v.5 == claim_strings(json_claim_spec(payload, "groups"@, None))
            &&& claim_strings(json_claim_spec(payload, "roles"@, None)) is None
                && claim_strings(json_claim_spec(payload, "groups"@, None)) is None
                ==> v.5 == claim_strings(json_claim_spec(payload, "realm_access"@, Some("roles"@)))
            &&& v.6 == federated_claims(payload)
        },
{
}

/// The email a token offers: its `email` string, else its
/// `preferred_username` string.
pub open spec fn email_of(payload: Seq<u8>) -> Option<Seq<char>> {
    match text_claim(payload, "email"@) {
        Some(e) => Some(e),
        None => text_claim(payload, "preferred_username"@),
    }
}

/// Without an interrupted OAuth authorization, the browser goes to the
/// requested return URL (a relative one under the base URL), else to the
/// dashboard.
pub proof fn law_return_url_after_login(base: Seq<char>, s: OidcLoginState)
    requires
        s.oauth_client_id is None,
    ensures
        (s.return_url is Some && s.return_url->0@.len() > 0 && s.return_url->0@[0] == '/')
            ==> redirect_after_login(base, s) == base + s.return_url->0@,
        (s.return_url is Some && s.return_url->0@.len() > 0 && s.return_url->0@[0] != '/')
            ==> redirect_after_login(base, s) == s.return_url->0@,
        !(s.return_url matches Some(r) && r@.len() > 0) ==> redirect_after_login(base, s) == base + "/dashboard"@,
{
}

} // verus!

//! Where the client connects and what it tells the user about the
//! connection: endpoints, target labels, request admission and the status
//! lines built from protocol results.

use vstd::prelude::*;
use vstd::string::StringSliceAdditionalSpecFns;
use crate::text::{str_chars, trim, trim_start, skip_ws_forward, lower_range, ascii_lower_seq, usize_decimal, dec, seq_contains, range_contains};
use crate::model::onboarding::trimmed;
use crate::model::auth::{
    AuthStatusResult, AuthSendCodeResult, AuthLogoutResult, ProfileLocalCreateResult, AuthVerifyResult, AuthMeResult,
    auth_me_email, auth_me_profile_id, spec_auth_me_email, spec_auth_me_profile_id,
};
use crate::model::protocol_types::{
    ProfileSkillsListResult, ProfileSkillsRegistrySearchResult, ProfileSkillsMutationResult, ModelListResult,
    ModelSelectResult, McpStatus, McpStatusListResult, McpConfigEntry, McpConfigListResult, McpConfigMutationResult,
    ToolStatus, ToolStatusListResult, ToolConfigEntry, ToolConfigListResult, ToolConfigMutationResult,
    RuntimePolicyStamp, ModelStatus,
};
use crate::model::llm::{
    ProfileLlmCatalogResult, ProfileLlmListResult, ProfileLlmMutationResult, listed_providers, spec_primary,
    spec_fallbacks,
};
use crate::json::str_eq;
use crate::json::{JsonValue, get};
use crate::permission_profile::{PermissionProfileSelection, spec_mode_label, spec_network_label};
use crate::protocol::{AppUiError, ProtocolExchange};

verus! {

/// The server to talk to: a WebSocket URL, or a command whose standard
/// input and output carry the protocol.
#[derive(Debug, Clone, PartialEq, Eq)]
pub enum AppUiEndpoint {
    WebSocket { url: String, auth_token: Option<String>, profile_id: Option<String> },
    Stdio { command: String },
}

impl AppUiEndpoint {
    pub fn websocket(url: String, auth_token: Option<String>) -> (r: Self)
        ensures
            r == (AppUiEndpoint::WebSocket { url, auth_token, profile_id: None }),
    {
        AppUiEndpoint::WebSocket { url, auth_token, profile_id: None }
    }

    pub fn websocket_with_profile(url: String, auth_token: Option<String>, profile_id: Option<String>) -> (r: Self)
        ensures
            r == (AppUiEndpoint::WebSocket { url, auth_token, profile_id }),
    {
        AppUiEndpoint::WebSocket { url, auth_token, profile_id }
    }

    pub fn stdio(command: String) -> (r: Self)
        ensures
            r == (AppUiEndpoint::Stdio { command }),
    {
        AppUiEndpoint::Stdio { command }
    }

    /// The URL or the command.
    pub fn label(&self) -> (r: &str)
        ensures
            r@ == (match self {
                AppUiEndpoint::WebSocket { url, .. } => url@,
                AppUiEndpoint::Stdio { command } => command@,
            }),
    {
        match self {
            AppUiEndpoint::WebSocket { url, .. } => url.as_str(),
            AppUiEndpoint::Stdio { command } => command.as_str(),
        }
    }
}

/// A token, trimmed, unless it is blank.
pub fn clean_auth_token(token: String) -> (r: Option<String>)
    ensures
        match r {
            Some(t) => trim(token@).len() > 0 && t@ == trim(token@),
            None => trim(token@).len() == 0,
        },
{
    let t = trimmed(token.as_str());
    if t.is_empty() {
        None
    } else {
        Some(String::from_str(t))
    }
}

/// The endpoint the command line asks for: a stdio command wins over a
/// base URL; a WebSocket endpoint carries the token and profile.
pub fn endpoint_from_cli(
    stdio_command: Option<String>,
    base_url: Option<String>,
    profile_id: Option<String>,
    auth_token: Option<String>,
) -> (r: Option<AppUiEndpoint>)
    ensures
        match stdio_command {
            Some(command) => r == Some(AppUiEndpoint::Stdio { command }),
            None => match base_url {
                Some(url) => r == Some(AppUiEndpoint::WebSocket { url, auth_token, profile_id }),
                None => r.is_none(),
            },
        },
{
    if let Some(command) = stdio_command {
        return Some(AppUiEndpoint::stdio(command));
    }
    match base_url {
        Some(url) => Some(AppUiEndpoint::websocket_with_profile(url, auth_token, profile_id)),
        None => None,
    }
}

/// Whether `s`, ASCII case ignored, starts with the lowercase ASCII `p`.
pub open spec fn starts_with_ignore_ascii_case(s: Seq<char>, p: Seq<char>) -> bool {
    p.len() <= s.len() && ascii_lower_seq(s.take(p.len() as int)) == p
}

/// After leading whitespace, a `ws://` or `wss://` scheme in any case.
pub open spec fn spec_is_websocket_url(value: Seq<char>) -> bool {
    let s = trim_start(value);
    starts_with_ignore_ascii_case(s, "ws://"@) || starts_with_ignore_ascii_case(s, "wss://"@)
}

/// After leading whitespace, a `ws://`, `wss://` or `stdio:` prefix in
/// any case.
pub open spec fn spec_is_protocol_target(value: Seq<char>) -> bool {
    spec_is_websocket_url(value) || starts_with_ignore_ascii_case(trim_start(value), "stdio:"@)
}

fn prefix_ignore_ascii_case(v: &Vec<char>, lo: usize, p: &str) -> (r: bool)
    requires
        lo <= v.len(),
    ensures
        r == starts_with_ignore_ascii_case(v@.skip(lo as int), p@),
{
    let n = v.len();
    let m = str_chars(p).len();
    if m > n - lo {
        return false;
    }
    let low = lower_range(v, lo, lo + m);
    assert(v@.skip(lo as int).take(m as int) =~= v@.subrange(lo as int, lo + m));
    let pv = str_chars(p);
    let mut k: usize = 0;
    while k < m
        invariant
            m == pv@.len() == low@.len(),
            pv@ == p@,
            lo + m <= v@.len(),
            low@ == ascii_lower_seq(v@.skip(lo as int).take(m as int)),
            k <= m,
            forall|j: int| 0 <= j < k ==> low@[j] == pv@[j],
        decreases m - k,
    {
        if low[k] != pv[k] {
            assert(low@ != p@);
            return false;
        }
        k += 1;
    }
    assert(low@ =~= p@);
    true
}

/// Whether `value` names a WebSocket endpoint (see [`spec_is_websocket_url`]).
pub fn is_websocket_url(value: &str) -> (r: bool)
    ensures
        r == spec_is_websocket_url(value@),
{
    let v = str_chars(value);
    let a = skip_ws_forward(&v, 0, v.len());
    assert(v@.subrange(0, v@.len() as int) =~= v@);
    assert(v@.skip(a as int) =~= v@.subrange(a as int, v@.len() as int));
    proof {
        reveal_strlit("ws://");
        reveal_strlit("wss://");
    }
    prefix_ignore_ascii_case(&v, a, "ws://") || prefix_ignore_ascii_case(&v, a, "wss://")
}

/// Whether `target` names a protocol endpoint (see
/// [`spec_is_protocol_target`]).
pub fn is_protocol_target(target: &str) -> (r: bool)
    ensures
        r == spec_is_protocol_target(target@),
{
    let v = str_chars(target);
    let a = skip_ws_forward(&v, 0, v.len());
    assert(v@.subrange(0, v@.len() as int) =~= v@);
    assert(v@.skip(a as int) =~= v@.subrange(a as int, v@.len() as int));
    proof {
        reveal_strlit("stdio:");
    }
    is_websocket_url(target) || prefix_ignore_ascii_case(&v, a, "stdio:")
}

/// A WebSocket URL as it is; anything else as `stdio:<command>`.
pub fn protocol_target_label(endpoint: &str) -> (r: String)
    ensures
        r@ == (if spec_is_websocket_url(endpoint@) { endpoint@ } else { "stdio:"@ + endpoint@ }),
{
    if is_websocket_url(endpoint) {
        String::from_str(endpoint)
    } else {
        let mut s = String::from_str("stdio:");
        s.append(endpoint);
        proof { reveal_strlit("stdio:"); }
        s
    }
}

/// `WebSocket` or `stdio`.
pub fn protocol_transport_description(endpoint: &str) -> (r: &'static str)
    ensures
        r@ == (if spec_is_websocket_url(endpoint@) { "WebSocket"@ } else { "stdio"@ }),
{
    if is_websocket_url(endpoint) {
        "WebSocket"
    } else {
        "stdio"
    }
}

/// The status line after connecting, by read-only mode and whether a
/// session was named on the command line.
pub fn protocol_snapshot_status(readonly: bool, has_session: bool) -> (r: &'static str)
    ensures
        r@ == (if readonly && has_session {
            "Protocol backend connected read-only; session/open sent."@
        } else if readonly {
            "Protocol backend connected read-only. Pass --session to open an existing session."@
        } else if has_session {
            "Protocol backend connected; session/open sent."@
        } else {
            "Protocol backend connected. Pass --session to open an interactive session."@
        }),
{
    if readonly && has_session {
        "Protocol backend connected read-only; session/open sent."
    } else if readonly {
        "Protocol backend connected read-only. Pass --session to open an existing session."
    } else if has_session {
        "Protocol backend connected; session/open sent."
    } else {
        "Protocol backend connected. Pass --session to open an interactive session."
    }
}

/// The message when the async runtime cannot start.
pub fn runtime_unavailable(error: Option<&str>) -> (r: String)
    ensures
        r@ == "failed to create tokio runtime for UI protocol backend: "@ + (match error {
            Some(e) => e@,
            None => "unknown runtime initialization error"@,
        }),
{
    let mut m = String::from_str("failed to create tokio runtime for UI protocol backend: ");
    match error {
        Some(e) => m.append(e),
        None => m.append("unknown runtime initialization error"),
    }
    proof {
        reveal_strlit("failed to create tokio runtime for UI protocol backend: ");
        reveal_strlit("unknown runtime initialization error");
    }
    m
}

/// What the authentication status result tells the user.
pub open spec fn spec_auth_status_message(r: AuthStatusResult) -> Seq<char> {
    match r.scoped_profile {
        Some(p) => "Authenticated for profile "@ + p.id@,
        None => if r.authenticated {
            "Authenticated"@ + match r.profile_id {
                Some(id) => " for profile "@ + id@,
                None => Seq::empty(),
            }
        } else if r.email_login_enabled || r.email_otp {
            "Not authenticated; email OTP is available"@
        } else {
            "Not authenticated"@
        },
    }
}

pub fn auth_status_message(result: &AuthStatusResult) -> (r: String)
    ensures
        r@ == spec_auth_status_message(*result),
{
    proof {
        reveal_strlit("Authenticated for profile ");
        reveal_strlit("Authenticated");
        reveal_strlit(" for profile ");
    }
    if let Some(profile) = &result.scoped_profile {
        let mut m = String::from_str("Authenticated for profile ");
        m.append(profile.id.as_str());
        m
    } else if result.authenticated {
        let mut m = String::from_str("Authenticated");
        if let Some(p) = &result.profile_id {
            m.append(" for profile ");
            m.append(p.as_str());
        } else {
            assert(m@ =~= m@ + Seq::<char>::empty());
        }
        m
    } else if result.email_login_enabled || result.email_otp {
        String::from_str("Not authenticated; email OTP is available")
    } else {
        String::from_str("Not authenticated")
    }
}

/// How many approval scopes a session keeps, in words.
pub fn approval_scopes_status(count: usize) -> (r: String)
    ensures
        r@ == (if count == 0 {
            "No persisted approval scopes for this session"@
        } else if count == 1 {
            "1 persisted approval scope for this session"@
        } else {
            dec(count as nat) + " persisted approval scopes for this session"@
        }),
{
    if count == 0 {
        String::from_str("No persisted approval scopes for this session")
    } else if count == 1 {
        String::from_str("1 persisted approval scope for this session")
    } else {
        let mut m = usize_decimal(count);
        m.append(" persisted approval scopes for this session");
        proof { reveal_strlit(" persisted approval scopes for this session"); }
        m
    }
}

/// `Permissions: <summary>` for the current profile.
pub fn permission_profile_list_status(current: PermissionProfileSelection) -> (r: String)
    ensures
        r@ == "Permissions: "@ + spec_mode_label(current.mode) + ", "@ + spec_network_label(current.network),
{
    let mut m = String::from_str("Permissions: ");
    m.append(current.summary().as_str());
    proof { reveal_strlit("Permissions: "); }
    m
}

/// `Permissions updated: <summary>` or `Permissions unchanged: <summary>`.
pub fn permission_profile_set_status(applied: bool, current: PermissionProfileSelection) -> (r: String)
    ensures
        r@ == (if applied { "Permissions updated"@ } else { "Permissions unchanged"@ }) + ": "@
            + spec_mode_label(current.mode) + ", "@ + spec_network_label(current.network),
{
    let mut m = if applied {
        String::from_str("Permissions updated")
    } else {
        String::from_str("Permissions unchanged")
    };
    m.append(": ");
    m.append(current.summary().as_str());
    proof { reveal_strlit(": "); }
    m
}

/// The status line after an interrupt, by what the server reported.
pub fn interrupt_ack_status(result: &JsonValue) -> (r: String)
    ensures
        r@ == (match crate::json::spec_get(*result, "interrupted"@) {
            Some(JsonValue::Bool(false)) => "Interrupt acknowledged; turn was already idle"@,
            Some(JsonValue::Bool(true)) => "Interrupt acknowledged; active turn cancelled"@,
            _ => "Interrupt acknowledged"@,
        }),
{
    match get(result, "interrupted") {
        Some(JsonValue::Bool(false)) => String::from_str("Interrupt acknowledged; turn was already idle"),
        Some(JsonValue::Bool(true)) => String::from_str("Interrupt acknowledged; active turn cancelled"),
        _ => String::from_str("Interrupt acknowledged"),
    }
}

/// Lines of a metadata section: `- item` each.
pub open spec fn bullet_lines(items: Seq<Seq<char>>) -> Seq<char>
    decreases items.len(),
{
    if items.len() == 0 {
        Seq::empty()
    } else {
        bullet_lines(items.drop_last()) + "- "@ + items.last() + "\n"@
    }
}

/// `text` with a titled list appended, on a line of its own.
pub open spec fn spec_append_metadata_section(text: Seq<char>, title: Seq<char>, items: Seq<Seq<char>>) -> Seq<char> {
    let base = if text.len() > 0 && text.last() != '\n' { text.push('\n') } else { text };
    base + title + ":\n"@ + bullet_lines(items)
}

pub open spec fn string_views(v: Seq<String>) -> Seq<Seq<char>> {
    v.map_values(|s: String| s@)
}

/// Append `title:` and one `- item` line per item to `text`, starting a
/// new line first when `text` does not end with one.
pub fn append_metadata_section(text: &mut String, title: &str, items: &Vec<String>)
    ensures
        final(text)@ == spec_append_metadata_section(old(text)@, title@, string_views(items@)),
{
    let v = str_chars(text.as_str());
    if v.len() > 0 && v[v.len() - 1] != '\n' {
        crate::text::push_char(text, '\n');
    }
    text.append(title);
    text.append(":\n");
    proof {
        reveal_strlit(":\n");
        reveal_strlit("- ");
        reveal_strlit("\n");
    }
    let ghost start = text@;
    let mut i: usize = 0;
    while i < items.len()
        invariant
            i <= items@.len(),
            text@ == start + bullet_lines(string_views(items@).take(i as int)),
        decreases items@.len() - i,
    {
        assert(string_views(items@).take(i + 1).drop_last() =~= string_views(items@).take(i as int));
        text.append("- ");
        text.append(items[i].as_str());
        text.append("\n");
        i += 1;
    }
    assert(string_views(items@).take(items@.len() as int) =~= string_views(items@));
}

/// Task output with the output files and limitations listed after it,
/// unless the text already lists them.
pub open spec fn spec_task_output_display_text(text: Seq<char>, output_files: Seq<Seq<char>>, limitations: Seq<Seq<char>>) -> Seq<char> {
    let t1 = if output_files.len() > 0 && !seq_contains(text, "output_files:"@) {
        spec_append_metadata_section(text, "output_files"@, output_files)
    } else {
        text
    };
    if limitations.len() > 0 && !seq_contains(t1, "limitations:"@) {
        spec_append_metadata_section(t1, "limitations"@, limitations)
    } else {
        t1
    }
}

pub fn task_output_display_text(text: &str, output_files: &Vec<String>, limitations: &Vec<String>) -> (r: String)
    ensures
        r@ == spec_task_output_display_text(text@, string_views(output_files@), string_views(limitations@)),
{
    let mut out = String::from_str(text);
    if output_files.len() > 0 {
        let v = str_chars(out.as_str());
        assert(v@.subrange(0, v@.len() as int) =~= v@);
        if !range_contains(&v, 0, v.len(), "output_files:") {
            append_metadata_section(&mut out, "output_files", output_files);
        }
    }
    if limitations.len() > 0 {
        let v = str_chars(out.as_str());
        assert(v@.subrange(0, v@.len() as int) =~= v@);
        if !range_contains(&v, 0, v.len(), "limitations:") {
            append_metadata_section(&mut out, "limitations", limitations);
        }
    }
    out
}

/// Requests that may await an answer at once.
pub open spec fn max_pending_requests() -> nat {
    256
}

/// The error when too many requests already await an answer.
pub open spec fn too_many_pending_message(pending: nat, method: Seq<char>) -> Seq<char> {
    "UI protocol has "@ + dec(pending) + " pending request(s); refusing to enqueue "@ + method + " request"@
}

impl ProtocolExchange {
    /// Refuse a new request while 256 or more await an answer; nothing
    /// changes either way.
    pub fn refuse_when_full(&self, method: &str) -> (r: Option<AppUiError>)
        ensures
            self.pending().len() >= max_pending_requests() ==> (r matches Some(e)
                && e.code@ == "too_many_pending_requests"@
                && e.message@ == too_many_pending_message(self.pending().len(), method@)),
            self.pending().len() < max_pending_requests() ==> r.is_none(),
    {
        let n = self.pending_len();
        if n >= 256 {
            let mut m = String::from_str("UI protocol has ");
            m.append(usize_decimal(n).as_str());
            m.append(" pending request(s); refusing to enqueue ");
            m.append(method);
            m.append(" request");
            proof {
                reveal_strlit("too_many_pending_requests");
                reveal_strlit("UI protocol has ");
                reveal_strlit(" pending request(s); refusing to enqueue ");
                reveal_strlit(" request");
            }
            Some(AppUiError { code: String::from_str("too_many_pending_requests"), message: m })
        } else {
            None
        }
    }

    /// An encoded request over the frame limit is not sent: it stops being
    /// tracked and the user is told its size.
    pub fn reject_oversized_request(
        &mut self,
        request_id: &str,
        method: &str,
        encoded_bytes: usize,
        max_frame_bytes: usize,
    ) -> (r: Option<AppUiError>)
        ensures
            final(self).issued() == old(self).issued(),
            encoded_bytes > max_frame_bytes ==> final(self).pending() == old(self).pending().remove(request_id@)
                && (r matches Some(e) && e.code@ == "frame_too_large"@
                && e.message@ == "encoded "@ + method@ + " request "@ + request_id@ + " is "@ + dec(
                    encoded_bytes as nat,
                ) + " bytes; max is "@ + dec(max_frame_bytes as nat)),
            encoded_bytes <= max_frame_bytes ==> final(self).pending() == old(self).pending() && r.is_none(),
    {
        if encoded_bytes > max_frame_bytes {
            self.untrack(request_id);
            let mut m = String::from_str("encoded ");
            m.append(method);
            m.append(" request ");
            m.append(request_id);
            m.append(" is ");
            m.append(usize_decimal(encoded_bytes).as_str());
            m.append(" bytes; max is ");
            m.append(usize_decimal(max_frame_bytes).as_str());
            proof {
                reveal_strlit("frame_too_large");
                reveal_strlit("encoded ");
                reveal_strlit(" request ");
                reveal_strlit(" is ");
                reveal_strlit(" bytes; max is ");
            }
            Some(AppUiError { code: String::from_str("frame_too_large"), message: m })
        } else {
            None
        }
    }

    /// A request the transport failed to send stops being tracked; the
    /// user is told which one and why.
    pub fn fail_send(&mut self, request_id: &str, method: &str, error: &str) -> (r: AppUiError)
        ensures
            final(self).issued() == old(self).issued(),
            final(self).pending() == old(self).pending().remove(request_id@),
            r.code@ == "transport_send"@,
            r.message@ == "failed to send "@ + method@ + " request "@ + request_id@ + ": "@ + error@,
    {
        self.untrack(request_id);
        let mut m = String::from_str("failed to send ");
        m.append(method);
        m.append(" request ");
        m.append(request_id);
        m.append(": ");
        m.append(error);
        proof {
            reveal_strlit("transport_send");
            reveal_strlit("failed to send ");
            reveal_strlit(" request ");
            reveal_strlit(": ");
        }
        AppUiError { code: String::from_str("transport_send"), message: m }
    }
}

/// Admitting requests only through [`ProtocolExchange::refuse_when_full`]
/// keeps at most 256 requests awaiting an answer: tracking one more after
/// it let the request through leaves no more than the limit.
pub proof fn law_pending_requests_stay_bounded(pending: Map<Seq<char>, Seq<char>>, id: Seq<char>, method: Seq<char>)
    requires
        pending.dom().finite(),
        pending.len() < max_pending_requests(),
    ensures
        pending.insert(id, method).len() <= max_pending_requests(),
{
    if pending.contains_key(id) {
        assert(pending.insert(id, method).dom() =~= pending.dom());
    }
}


/// A decoded result with the status line it produces.
#[derive(Debug, Clone, PartialEq, Eq)]
pub struct ResultEvent<T> {
    pub message: String,
    pub result: T,
}

/// `count` things in words: none, one, or the number.
fn count_message(count: usize, none: &str, one: &str, before: &str, after: &str) -> (r: String)
    ensures
        r@ == (if count == 0 { none@ } else if count == 1 { one@ } else { before@ + dec(count as nat) + after@ }),
{
    if count == 0 {
        String::from_str(none)
    } else if count == 1 {
        String::from_str(one)
    } else {
        let mut m = String::from_str(before);
        m.append(usize_decimal(count).as_str());
        m.append(after);
        m
    }
}

/// The status line after `profile_skills_list_event`.
pub open spec fn spec_profile_skills_list_message(result: ProfileSkillsListResult) -> Seq<char> {
    (if result.skills@.len() == 0 {
        "Profile skills refreshed: none installed"@
    } else if result.skills@.len() == 1 {
        "Profile skills refreshed: 1 installed skill"@
    } else {
        "Profile skills refreshed: "@ + dec(result.skills@.len()) + " installed skills"@
    })
}

/// The status line after listing a profile's skills.
pub fn profile_skills_list_event(result: ProfileSkillsListResult) -> (r: ResultEvent<ProfileSkillsListResult>)
    ensures
        r.result == result,
        r.message@ == spec_profile_skills_list_message(result),
{
    let message = count_message(
        result.skills.len(),
        "Profile skills refreshed: none installed",
        "Profile skills refreshed: 1 installed skill",
        "Profile skills refreshed: ",
        " installed skills",
    );
    ResultEvent { message, result }
}

/// The status line after `profile_skills_registry_search_event`.
pub open spec fn spec_profile_skills_registry_search_message(result: ProfileSkillsRegistrySearchResult) -> Seq<char> {
    (if result.packages@.len() == 0 {
        "Skill registry search returned no packages"@
    } else if result.packages@.len() == 1 {
        "Skill registry search returned 1 package"@
    } else {
        "Skill registry search returned "@ + dec(result.packages@.len()) + " packages"@
    })
}

/// The status line after searching the skill registry.
pub fn profile_skills_registry_search_event(result: ProfileSkillsRegistrySearchResult) -> (r: ResultEvent<ProfileSkillsRegistrySearchResult>)
    ensures
        r.result == result,
        r.message@ == spec_profile_skills_registry_search_message(result),
{
    let message = count_message(
        result.packages.len(),
        "Skill registry search returned no packages",
        "Skill registry search returned 1 package",
        "Skill registry search returned ",
        " packages",
    );
    ResultEvent { message, result }
}

/// Items separated by `", "`.
pub open spec fn join_comma(items: Seq<Seq<char>>) -> Seq<char>
    decreases items.len(),
{
    if items.len() == 0 {
        Seq::empty()
    } else if items.len() == 1 {
        items[0]
    } else {
        join_comma(items.drop_last()) + ", "@ + items.last()
    }
}

fn join_strings(items: &Vec<String>) -> (r: String)
    ensures
        r@ == join_comma(string_views(items@)),
{
    let mut out = String::new();
    let mut i: usize = 0;
    proof { reveal_strlit(", "); }
    while i < items.len()
        invariant
            i <= items@.len(),
            out@ == join_comma(string_views(items@).take(i as int)),
        decreases items@.len() - i,
    {
        proof { reveal_strlit(", "); }
        assert(string_views(items@).take(i + 1).drop_last() =~= string_views(items@).take(i as int));
        if i > 0 {
            out.append(", ");
        } else {
            assert(string_views(items@).take(1) =~= seq![items@[0]@]);
        }
        out.append(items[i].as_str());
        i += 1;
    }
    assert(string_views(items@).take(items@.len() as int) =~= string_views(items@));
    out
}

/// The status line after installing or removing skills.
pub open spec fn spec_skills_mutation_message(r: ProfileSkillsMutationResult) -> Seq<char> {
    if !r.ok {
        match r.message {
            Some(m) => m@,
            None => "Skill operation failed"@,
        }
    } else if r.removed.is_some() {
        "Removed skill: "@ + r.removed.unwrap()@
    } else if r.installed@.len() > 0 {
        "Installed skill(s): "@ + join_comma(string_views(r.installed@))
    } else if r.skipped@.len() > 0 {
        "Skill install skipped: "@ + join_comma(string_views(r.skipped@))
    } else {
        match r.message {
            Some(m) => m@,
            None => "Skill operation completed"@,
        }
    }
}

pub fn profile_skills_mutation_event(result: ProfileSkillsMutationResult) -> (r: ResultEvent<ProfileSkillsMutationResult>)
    ensures
        r.result == result,
        r.message@ == spec_skills_mutation_message(result),
{
    let message = if !result.ok {
        match &result.message {
            Some(m) => m.clone(),
            None => String::from_str("Skill operation failed"),
        }
    } else if let Some(removed) = &result.removed {
        let mut m = String::from_str("Removed skill: ");
        m.append(removed.as_str());
        m
    } else if result.installed.len() > 0 {
        let mut m = String::from_str("Installed skill(s): ");
        m.append(join_strings(&result.installed).as_str());
        m
    } else if result.skipped.len() > 0 {
        let mut m = String::from_str("Skill install skipped: ");
        m.append(join_strings(&result.skipped).as_str());
        m
    } else {
        match &result.message {
            Some(m) => m.clone(),
            None => String::from_str("Skill operation completed"),
        }
    };
    proof {
        reveal_strlit("Removed skill: ");
        reveal_strlit("Installed skill(s): ");
        reveal_strlit("Skill install skipped: ");
    }
    ResultEvent { message, result }
}

pub fn auth_status_event(result: AuthStatusResult) -> (r: ResultEvent<AuthStatusResult>)
    ensures
        r.result == result,
        r.message@ == spec_auth_status_message(result),
{
    let message = auth_status_message(&result);
    ResultEvent { message, result }
}

/// The status line after `auth_send_code_event`.
pub open spec fn spec_auth_send_code_message(result: AuthSendCodeResult) -> Seq<char> {
    (match result.message {
        Some(m) => m@,
        None => "OTP send acknowledged"@,
    })
}

/// The server's message, or an acknowledgement.
pub fn auth_send_code_event(result: AuthSendCodeResult) -> (r: ResultEvent<AuthSendCodeResult>)
    ensures
        r.result == result,
        r.message@ == spec_auth_send_code_message(result),
{
    let message = match &result.message {
        Some(m) => m.clone(),
        None => String::from_str("OTP send acknowledged"),
    };
    ResultEvent { message, result }
}

/// The status line after `auth_logout_event`.
pub open spec fn spec_auth_logout_message(result: AuthLogoutResult) -> Seq<char> {
    (match result.message {
        Some(m) => m@,
        None => if result.ok { "Logged out"@ } else { "Logout failed"@ },
    })
}

/// The server's message, or whether the logout worked.
pub fn auth_logout_event(result: AuthLogoutResult) -> (r: ResultEvent<AuthLogoutResult>)
    ensures
        r.result == result,
        r.message@ == spec_auth_logout_message(result),
{
    let message = match &result.message {
        Some(m) => m.clone(),
        None => if result.ok {
            String::from_str("Logged out")
        } else {
            String::from_str("Logout failed")
        },
    };
    ResultEvent { message, result }
}

/// The status line after `auth_verify_event`.
pub open spec fn spec_auth_verify_message(result: AuthVerifyResult) -> Seq<char> {
    (match result.message {
        Some(m) => m@,
        None => if result.ok { "OTP verified"@ } else { "OTP verify failed"@ },
    })
}

/// The server's message, or whether the code was accepted.
pub fn auth_verify_event(result: AuthVerifyResult) -> (r: ResultEvent<AuthVerifyResult>)
    ensures
        r.result == result,
        r.message@ == spec_auth_verify_message(result),
{
    let message = match &result.message {
        Some(m) => m.clone(),
        None => if result.ok {
            String::from_str("OTP verified")
        } else {
            String::from_str("OTP verify failed")
        },
    };
    ResultEvent { message, result }
}

/// `Authenticated account: <email> (<profile>)`, with stand-ins for what
/// the server left out.
pub open spec fn spec_auth_me_message(result: AuthMeResult) -> Seq<char> {
    let email = match spec_auth_me_email(result) {
        Some(e) => e,
        None => "unknown account"@,
    };
    let profile = match spec_auth_me_profile_id(result) {
        Some(p) => p,
        None => "no profile"@,
    };
    "Authenticated account: "@ + email + " ("@ + profile + ")"@
}

pub fn auth_me_message(result: &AuthMeResult) -> (r: String)
    ensures
        r@ == spec_auth_me_message(*result),
{
    let email = match auth_me_email(result) {
        Some(e) => e,
        None => "unknown account",
    };
    let profile = match auth_me_profile_id(result) {
        Some(p) => p,
        None => "no profile",
    };
    let mut m = String::from_str("Authenticated account: ");
    m.append(email);
    m.append(" (");
    m.append(profile);
    m.append(")");
    proof {
        reveal_strlit("Authenticated account: ");
        reveal_strlit(" (");
        reveal_strlit(")");
    }
    m
}

/// The status line after reading the signed-in account.
pub fn auth_me_event(result: AuthMeResult) -> (r: ResultEvent<AuthMeResult>)
    ensures
        r.result == result,
        r.message@ == spec_auth_me_message(result),
{
    let message = auth_me_message(&result);
    ResultEvent { message, result }
}

/// The model a runtime status names: the policy stamp's, else the status
/// model's, else `runtime`.
pub open spec fn spec_status_label(stamp: Option<RuntimePolicyStamp>, model: Option<ModelStatus>) -> Seq<char> {
    match stamp {
        Some(s) if s.model is Some => s.model.unwrap()@,
        _ => match model {
            Some(m) => m.model@,
            None => "runtime"@,
        },
    }
}

/// `Runtime status refreshed: <label>` for a session status read.
pub fn session_status_message(stamp: &Option<RuntimePolicyStamp>, model: &Option<ModelStatus>) -> (r: String)
    ensures
        r@ == "Runtime status refreshed: "@ + spec_status_label(*stamp, *model),
{
    let label: &str = match stamp {
        Some(s) if s.model.is_some() => match &s.model {
            Some(m) => m.as_str(),
            None => "runtime",
        },
        _ => match model {
            Some(m) => m.model.as_str(),
            None => "runtime",
        },
    };
    let mut msg = String::from_str("Runtime status refreshed: ");
    msg.append(label);
    proof { reveal_strlit("Runtime status refreshed: "); }
    msg
}

/// The status line after `profile_local_create_event`.
pub open spec fn spec_profile_local_create_message(result: ProfileLocalCreateResult) -> Seq<char> {
    "Local solo profile "@ + (if result.created { "created"@ } else { "loaded"@ }) + ": "@
        + result.profile_id@ + " ("@ + result.email@ + ")"@
}

/// `Local solo profile created: <id> (<email>)`, or `loaded` for one that
/// already existed.
pub fn profile_local_create_event(result: ProfileLocalCreateResult) -> (r: ResultEvent<ProfileLocalCreateResult>)
    ensures
        r.result == result,
        r.message@ == spec_profile_local_create_message(result),
{
    let mut m = String::from_str("Local solo profile ");
    if result.created {
        m.append("created");
    } else {
        m.append("loaded");
    }
    m.append(": ");
    m.append(result.profile_id.as_str());
    m.append(" (");
    m.append(result.email.as_str());
    m.append(")");
    proof {
        reveal_strlit("Local solo profile ");
        reveal_strlit(": ");
        reveal_strlit(" (");
        reveal_strlit(")");
    }
    ResultEvent { message: m, result }
}


/// What a transport hands back from the server.
#[derive(Debug, Clone, PartialEq, Eq)]
pub enum TransportFrame {
    Text(String),
    Binary(Vec<u8>),
    Ping(Vec<u8>),
    Pong,
    Close,
}

/// What a transport reports: a frame, a disconnect, or an error that may
/// end the connection.
#[derive(Debug, Clone, PartialEq, Eq)]
pub enum TransportEvent {
    Frame(TransportFrame),
    Disconnected(String),
    Error { code: String, message: String, disconnect: bool },
}

/// What the client asks a transport to send.
#[derive(Debug, Clone, PartialEq, Eq)]
pub enum TransportCommand {
    Text(String),
    Pong(Vec<u8>),
}

impl TransportEvent {
    /// Whether the event ends the connection: a disconnect, an error that
    /// says so, or (on a WebSocket) a close frame.
    pub fn ends_connection(&self, websocket: bool) -> (r: bool)
        ensures
            r == (match self {
                TransportEvent::Disconnected(_) => true,
                TransportEvent::Error { disconnect, .. } => *disconnect,
                TransportEvent::Frame(TransportFrame::Close) => websocket,
                TransportEvent::Frame(_) => false,
            }),
    {
        match self {
            TransportEvent::Disconnected(_) => true,
            TransportEvent::Error { disconnect, .. } => *disconnect,
            TransportEvent::Frame(TransportFrame::Close) => websocket,
            TransportEvent::Frame(_) => false,
        }
    }
}

/// A line read from a stdio server: a text frame, or, over the frame
/// limit, an error that ends the connection.
pub fn stdio_text_frame_event(text: String, max_frame_bytes: usize) -> (r: TransportEvent)
    ensures
        crate::model::onboarding::byte_len(text@) > max_frame_bytes ==> (r matches TransportEvent::Error { code, message, disconnect }
            && code@ == "frame_too_large"@ && disconnect
            && message@ == "UI protocol stdio frame is "@ + dec(crate::model::onboarding::byte_len(text@) as nat) + " bytes; max is "@
                + dec(max_frame_bytes as nat)),
        crate::model::onboarding::byte_len(text@) <= max_frame_bytes ==> r == TransportEvent::Frame(TransportFrame::Text(text)),
{
    let len = text.as_str().len();
    if len > max_frame_bytes {
        let mut m = String::from_str("UI protocol stdio frame is ");
        m.append(usize_decimal(len).as_str());
        m.append(" bytes; max is ");
        m.append(usize_decimal(max_frame_bytes).as_str());
        proof {
            reveal_strlit("frame_too_large");
            reveal_strlit("UI protocol stdio frame is ");
            reveal_strlit(" bytes; max is ");
        }
        return TransportEvent::Error { code: String::from_str("frame_too_large"), message: m, disconnect: true };
    }
    TransportEvent::Frame(TransportFrame::Text(text))
}

/// The command a stdio transport launches: trimmed, and not empty.
pub fn stdio_command(command: &str) -> (r: Result<String, String>)
    ensures
        match r {
            Ok(c) => trim(command@).len() > 0 && c@ == trim(command@),
            Err(e) => trim(command@).len() == 0 && e@ == "UI protocol stdio command must not be empty"@,
        },
{
    let t = trimmed(command);
    if t.is_empty() {
        Err(String::from_str("UI protocol stdio command must not be empty"))
    } else {
        Ok(String::from_str(t))
    }
}

/// Why a bounded queue refused a command: it was full, or its reader is
/// gone.
pub fn bounded_send_error(label: &str, full: bool) -> (r: String)
    ensures
        r@ == label@ + (if full { " queue is full; reconnect will retry on next send/read"@ } else { " is closed"@ }),
{
    let mut m = String::from_str(label);
    if full {
        m.append(" queue is full; reconnect will retry on next send/read");
    } else {
        m.append(" is closed");
    }
    m
}

/// How many items of `s` satisfy `p`.
pub open spec fn count_where<T>(s: Seq<T>, p: spec_fn(T) -> bool) -> nat
    decreases s.len(),
{
    if s.len() == 0 {
        0
    } else {
        count_where(s.drop_last(), p) + (if p(s.last()) { 1nat } else { 0nat })
    }
}

proof fn lemma_count_step<T>(s: Seq<T>, p: spec_fn(T) -> bool, i: int)
    requires
        0 <= i < s.len(),
    ensures
        count_where(s.take(i + 1), p) == count_where(s.take(i), p) + (if p(s[i]) { 1nat } else { 0nat }),
        count_where(s.take(i), p) <= i,
    decreases i,
{
    assert(s.take(i + 1).drop_last() =~= s.take(i));
    if i > 0 {
        lemma_count_step(s, p, i - 1);
    } else {
        assert(s.take(0) =~= Seq::<T>::empty());
    }
}

pub open spec fn has_status(status: Seq<char>) -> spec_fn(McpStatus) -> bool {
    |m: McpStatus| m.status@ == status
}

fn count_mcp_status(servers: &Vec<McpStatus>, status: &str) -> (r: usize)
    ensures
        r == count_where(servers@, has_status(status@)),
{
    let mut k: usize = 0;
    let mut i: usize = 0;
    while i < servers.len()
        invariant
            i <= servers@.len(),
            k == count_where(servers@.take(i as int), has_status(status@)),
        decreases servers.len() - i,
    {
        proof { lemma_count_step(servers@, has_status(status@), i as int); }
        if str_eq(servers[i].status.as_str(), status) {
            k += 1;
        }
        i += 1;
    }
    proof { assert(servers@.take(servers@.len() as int) =~= servers@); }
    k
}

/// The status line after `mcp_status_event`.
pub open spec fn spec_mcp_status_message(result: McpStatusListResult) -> Seq<char> {
    "MCP status refreshed: "@ + dec(result.servers@.len()) + " server(s), "@
        + dec(count_where(result.servers@, has_status("connected"@))) + " connected, "@
        + dec(count_where(result.servers@, has_status("failed"@))) + " failed"@
}

/// The status line after listing MCP servers: how many, how many are
/// connected, how many failed.
pub fn mcp_status_event(result: McpStatusListResult) -> (r: ResultEvent<McpStatusListResult>)
    ensures
        r.result == result,
        r.message@ == spec_mcp_status_message(result),
{
    let connected = count_mcp_status(&result.servers, "connected");
    let failed = count_mcp_status(&result.servers, "failed");
    let mut m = String::from_str("MCP status refreshed: ");
    m.append(usize_decimal(result.servers.len()).as_str());
    m.append(" server(s), ");
    m.append(usize_decimal(connected).as_str());
    m.append(" connected, ");
    m.append(usize_decimal(failed).as_str());
    m.append(" failed");
    ResultEvent { message: m, result }
}

pub open spec fn mcp_enabled() -> spec_fn(McpConfigEntry) -> bool {
    |e: McpConfigEntry| e.enabled
}

/// The status line after `mcp_config_list_event`.
pub open spec fn spec_mcp_config_list_message(result: McpConfigListResult) -> Seq<char> {
    "MCP config refreshed: "@ + dec(result.servers@.len()) + " server(s), "@
        + dec(count_where(result.servers@, mcp_enabled())) + " enabled"@
}

/// The status line after listing the MCP configuration.
pub fn mcp_config_list_event(result: McpConfigListResult) -> (r: ResultEvent<McpConfigListResult>)
    ensures
        r.result == result,
        r.message@ == spec_mcp_config_list_message(result),
{
    let mut k: usize = 0;
    let mut i: usize = 0;
    while i < result.servers.len()
        invariant
            i <= result.servers@.len(),
            k == count_where(result.servers@.take(i as int), mcp_enabled()),
        decreases result.servers.len() - i,
    {
        proof { lemma_count_step(result.servers@, mcp_enabled(), i as int); }
        if result.servers[i].enabled {
            k += 1;
        }
        i += 1;
    }
    proof { assert(result.servers@.take(result.servers@.len() as int) =~= result.servers@); }
    let mut m = String::from_str("MCP config refreshed: ");
    m.append(usize_decimal(result.servers.len()).as_str());
    m.append(" server(s), ");
    m.append(usize_decimal(k).as_str());
    m.append(" enabled");
    ResultEvent { message: m, result }
}

/// `applied` when the change was applied or accepted, `completed`
/// otherwise.
pub open spec fn mutation_status(applied: bool, ok: bool) -> Seq<char> {
    if applied || ok { "applied"@ } else { "completed"@ }
}

/// What an MCP change was about: the server named, else the entry's name,
/// else `server`.
pub open spec fn mcp_subject(r: McpConfigMutationResult) -> Seq<char> {
    match r.server {
        Some(s) => s@,
        None => match r.entry {
            Some(e) => e.name@,
            None => "server"@,
        },
    }
}

/// The status line after `mcp_config_mutation_event`.
pub open spec fn spec_mcp_config_mutation_message(result: McpConfigMutationResult) -> Seq<char> {
    (match result.message {
        Some(m) => m@,
        None => "MCP config "@ + mutation_status(result.applied, result.ok) + ": "@ + mcp_subject(result),
    })
}

/// The status line after an MCP configuration change: the server's
/// message, else `MCP config applied|completed: <subject>`.
pub fn mcp_config_mutation_event(result: McpConfigMutationResult) -> (r: ResultEvent<McpConfigMutationResult>)
    ensures
        r.result == result,
        r.message@ == spec_mcp_config_mutation_message(result),
{
    let message = match &result.message {
        Some(m) => m.clone(),
        None => {
            let mut m = String::from_str("MCP config ");
            m.append(if result.applied || result.ok { "applied" } else { "completed" });
            m.append(": ");
            match &result.server {
                Some(s) => m.append(s.as_str()),
                None => match &result.entry {
                    Some(e) => m.append(e.name.as_str()),
                    None => m.append("server"),
                },
            }
            m
        },
    };
    ResultEvent { message, result }
}

pub open spec fn tool_visible() -> spec_fn(ToolStatus) -> bool {
    |t: ToolStatus| t.visible
}

pub open spec fn tool_denied() -> spec_fn(ToolStatus) -> bool {
    |t: ToolStatus| t.denial is Some
}

/// The status line after `tool_status_event`.
pub open spec fn spec_tool_status_message(result: ToolStatusListResult) -> Seq<char> {
    "Tool status refreshed: "@ + dec(count_where(result.tools@, tool_visible())) + " visible, "@
        + dec(count_where(result.tools@, tool_denied())) + " denied under "@ + (match result.policy_id {
        Some(p) => p@,
        None => "server policy"@,
    })
}

/// The status line after listing tools: how many are visible and how many
/// denied, under which policy.
pub fn tool_status_event(result: ToolStatusListResult) -> (r: ResultEvent<ToolStatusListResult>)
    ensures
        r.result == result,
        r.message@ == spec_tool_status_message(result),
{
    let mut visible: usize = 0;
    let mut denied: usize = 0;
    let mut i: usize = 0;
    while i < result.tools.len()
        invariant
            i <= result.tools@.len(),
            visible == count_where(result.tools@.take(i as int), tool_visible()),
            denied == count_where(result.tools@.take(i as int), tool_denied()),
        decreases result.tools.len() - i,
    {
        proof {
            lemma_count_step(result.tools@, tool_visible(), i as int);
            lemma_count_step(result.tools@, tool_denied(), i as int);
        }
        if result.tools[i].visible {
            visible += 1;
        }
        if result.tools[i].denial.is_some() {
            denied += 1;
        }
        i += 1;
    }
    proof { assert(result.tools@.take(result.tools@.len() as int) =~= result.tools@); }
    let mut m = String::from_str("Tool status refreshed: ");
    m.append(usize_decimal(visible).as_str());
    m.append(" visible, ");
    m.append(usize_decimal(denied).as_str());
    m.append(" denied under ");
    match &result.policy_id {
        Some(p) => m.append(p.as_str()),
        None => m.append("server policy"),
    }
    ResultEvent { message: m, result }
}

pub open spec fn tool_enabled() -> spec_fn(ToolConfigEntry) -> bool {
    |t: ToolConfigEntry| t.enabled
}

/// The status line after `tool_config_list_event`.
pub open spec fn spec_tool_config_list_message(result: ToolConfigListResult) -> Seq<char> {
    "Tool config refreshed: "@ + dec(result.tools@.len()) + " tool(s), "@
        + dec(count_where(result.tools@, tool_enabled())) + " enabled"@
}

/// The status line after listing the tool configuration.
pub fn tool_config_list_event(result: ToolConfigListResult) -> (r: ResultEvent<ToolConfigListResult>)
    ensures
        r.result == result,
        r.message@ == spec_tool_config_list_message(result),
{
    let mut k: usize = 0;
    let mut i: usize = 0;
    while i < result.tools.len()
        invariant
            i <= result.tools@.len(),
            k == count_where(result.tools@.take(i as int), tool_enabled()),
        decreases result.tools.len() - i,
    {
        proof { lemma_count_step(result.tools@, tool_enabled(), i as int); }
        if result.tools[i].enabled {
            k += 1;
        }
        i += 1;
    }
    proof { assert(result.tools@.take(result.tools@.len() as int) =~= result.tools@); }
    let mut m = String::from_str("Tool config refreshed: ");
    m.append(usize_decimal(result.tools.len()).as_str());
    m.append(" tool(s), ");
    m.append(usize_decimal(k).as_str());
    m.append(" enabled");
    ResultEvent { message: m, result }
}

/// What a tool change was about: the tool named, else the entry's tool,
/// else `tool`.
pub open spec fn tool_subject(r: ToolConfigMutationResult) -> Seq<char> {
    match r.tool {
        Some(s) => s@,
        None => match r.entry {
            Some(e) => e.tool@,
            None => "tool"@,
        },
    }
}

/// The status line after `tool_config_mutation_event`.
pub open spec fn spec_tool_config_mutation_message(result: ToolConfigMutationResult) -> Seq<char> {
    (match result.message {
        Some(m) => m@,
        None => "Tool config "@ + mutation_status(result.applied, result.ok) + ": "@ + tool_subject(result),
    })
}

/// The status line after a tool configuration change: the server's
/// message, else `Tool config applied|completed: <subject>`.
pub fn tool_config_mutation_event(result: ToolConfigMutationResult) -> (r: ResultEvent<ToolConfigMutationResult>)
    ensures
        r.result == result,
        r.message@ == spec_tool_config_mutation_message(result),
{
    let message = match &result.message {
        Some(m) => m.clone(),
        None => {
            let mut m = String::from_str("Tool config ");
            m.append(if result.applied || result.ok { "applied" } else { "completed" });
            m.append(": ");
            match &result.tool {
                Some(s) => m.append(s.as_str()),
                None => match &result.entry {
                    Some(e) => m.append(e.tool.as_str()),
                    None => m.append("tool"),
                },
            }
            m
        },
    };
    ResultEvent { message, result }
}

/// The status line after `model_list_event`.
pub open spec fn spec_model_list_message(result: ModelListResult) -> Seq<char> {
    (if result.models@.len() == 0 {
        "Model list refreshed: no models"@
    } else if result.models@.len() == 1 {
        "Model list refreshed: 1 model"@
    } else {
        "Model list refreshed: "@ + dec(result.models@.len()) + " models"@
    })
}

/// The status line after refreshing a session's model list.
pub fn model_list_event(result: ModelListResult) -> (r: ResultEvent<ModelListResult>)
    ensures
        r.result == result,
        r.message@ == spec_model_list_message(result),
{
    let message = count_message(
        result.models.len(),
        "Model list refreshed: no models",
        "Model list refreshed: 1 model",
        "Model list refreshed: ",
        " models",
    );
    ResultEvent { message, result }
}

/// The status line after `model_select_event`.
pub open spec fn spec_model_select_message(result: ModelSelectResult) -> Seq<char> {
    (if result.applied { "Model selected"@ } else { "Model unchanged"@ }) + ": "@
        + result.selected.provider@ + " / "@ + result.selected.model@
}

/// The status line after selecting a model: whether it changed, and which
/// provider and model are selected.
pub fn model_select_event(result: ModelSelectResult) -> (r: ResultEvent<ModelSelectResult>)
    ensures
        r.result == result,
        r.message@ == spec_model_select_message(result),
{
    let mut m = String::from_str(if result.applied { "Model selected" } else { "Model unchanged" });
    m.append(": ");
    m.append(result.selected.provider.as_str());
    m.append(" / ");
    m.append(result.selected.model.as_str());
    ResultEvent { message: m, result }
}

/// The status line after `profile_llm_catalog_event`.
pub open spec fn spec_profile_llm_catalog_message(result: ProfileLlmCatalogResult) -> Seq<char> {
    "Provider catalog refreshed: "@ + dec(result.families@.len()) + " family(s)"@
}

/// The status line after refreshing the provider catalog.
pub fn profile_llm_catalog_event(result: ProfileLlmCatalogResult) -> (r: ResultEvent<ProfileLlmCatalogResult>)
    ensures
        r.result == result,
        r.message@ == spec_profile_llm_catalog_message(result),
{
    let mut m = String::from_str("Provider catalog refreshed: ");
    m.append(usize_decimal(result.families.len()).as_str());
    m.append(" family(s)");
    ResultEvent { message: m, result }
}

/// The status line after `profile_llm_list_event`.
pub open spec fn spec_profile_llm_list_message(result: ProfileLlmListResult) -> Seq<char> {
    let count = (if result.primary is Some { 1int } else { 0int }) + result.fallbacks@.len();
    (if count == 0 {
        "Configured providers refreshed: none"@
    } else if count == 1 {
        "Configured providers refreshed: 1 provider"@
    } else {
        "Configured providers refreshed: "@ + dec(count as nat) + " providers"@
    })
}

/// The status line after listing the configured providers: the top-level
/// primary and fallbacks, counted.
pub fn profile_llm_list_event(result: ProfileLlmListResult) -> (r: ResultEvent<ProfileLlmListResult>)
    requires
        result.fallbacks@.len() < usize::MAX,
    ensures
        r.result == result,
        r.message@ == spec_profile_llm_list_message(result),
{
    let count = (if result.primary.is_some() { 1usize } else { 0usize }) + result.fallbacks.len();
    let message = count_message(
        count,
        "Configured providers refreshed: none",
        "Configured providers refreshed: 1 provider",
        "Configured providers refreshed: ",
        " providers",
    );
    ResultEvent { message, result }
}

/// The status line after `profile_llm_mutation_event`.
pub open spec fn spec_profile_llm_mutation_message(result: ProfileLlmMutationResult) -> Seq<char> {
    (match (result.applied, result.message, result.error) {
        (false, Some(m), Some(e)) => m@ + ": "@ + e@,
        (_, Some(m), _) => m@,
        (false, None, Some(e)) => "Provider operation failed: "@ + e@,
        _ => "Provider profile updated: "@ + dec(
            listed_providers(
                spec_primary(result.primary, result.llm),
                spec_fallbacks(result.fallbacks@, result.llm),
            ).len(),
        ) + " configured provider(s)"@,
    })
}

/// The status line after a provider change: the server's message (with
/// its error when the change was not applied), else the error, else how
/// many providers are configured now.
pub fn profile_llm_mutation_event(result: ProfileLlmMutationResult) -> (r: ResultEvent<ProfileLlmMutationResult>)
    ensures
        r.result == result,
        r.message@ == spec_profile_llm_mutation_message(result),
{
    let count = result.models().len();
    let message = match (result.applied, &result.message, &result.error) {
        (false, Some(m), Some(e)) => {
            let mut s = m.clone();
            s.append(": ");
            s.append(e.as_str());
            s
        },
        (_, Some(m), _) => m.clone(),
        (false, None, Some(e)) => {
            let mut s = String::from_str("Provider operation failed: ");
            s.append(e.as_str());
            s
        },
        _ => {
            let mut s = String::from_str("Provider profile updated: ");
            s.append(usize_decimal(count).as_str());
            s.append(" configured provider(s)");
            s
        },
    };
    ResultEvent { message, result }
}

} // verus!

//! The onboarding wizard: local-profile validation and error recovery,
//! provider setup status, workspace validation and the doctor report.

use vstd::prelude::*;
use vstd::string::StringSliceAdditionalSpecFns;
use crate::text::{str_chars, trim, trim_bounds, string_from_range, first_index_of, lemma_first_index_of_bound, find_char_in, opt_string_view, copy_opt_string};
use crate::json::{JsonValue, str_eq, opt_json_same, copy_opt_json};
use crate::permission_profile::PermissionProfileUpdate;
use crate::model::auth::{SecretString, AppUiAuthToken, ProfileLocalCreateResult, AuthStatusResult, AuthVerifyResult, AuthMeResult, auth_me_profile_id, spec_auth_me_profile_id};

verus! {

/// `s` with leading and trailing whitespace removed, as a slice of `s`.
pub fn trimmed<'a>(s: &'a str) -> (r: &'a str)
    ensures
        r@ == trim(s@),
{
    let v = str_chars(s);
    let (a, b) = trim_bounds(&v, 0, v.len());
    assert(v@.subrange(0, v@.len() as int) =~= v@);
    s.substring_char(a, b)
}

/// Whether `s` holds only whitespace.
pub fn is_blank(s: &str) -> (r: bool)
    ensures
        r == (trim(s@).len() == 0),
{
    trimmed(s).is_empty()
}

/// Whether `value` holds only whitespace; such a field is left out when
/// the selection is sent.
pub fn is_empty_string(value: &str) -> (r: bool)
    ensures
        r == (trim(value@).len() == 0),
{
    is_blank(value)
}

/// `value`, unless it is blank.
pub fn non_empty(value: String) -> (r: Option<String>)
    ensures
        match r {
            Some(v) => v == value && trim(value@).len() > 0,
            None => trim(value@).len() == 0,
        },
{
    if is_blank(value.as_str()) {
        None
    } else {
        Some(value)
    }
}

/// UTF-8 length of `s`, as `str::len` reports it.
pub open spec fn byte_len(s: Seq<char>) -> usize {
    vstd::utf8::encode_utf8(s).len() as usize
}

/// Result of one doctor check.
#[derive(Debug, Clone, PartialEq, Eq)]
pub enum OnboardingDoctorOutcome {
    Pass { detail: String },
    Warn { reason: String, recovery: String },
    Fail { reason: String, recovery: String },
    Skipped { detail: String },
}

impl OnboardingDoctorOutcome {
    pub fn is_pass(&self) -> (r: bool)
        ensures
            r == (self is Pass),
    {
        match self {
            OnboardingDoctorOutcome::Pass { .. } => true,
            _ => false,
        }
    }

    pub open spec fn spec_label(&self) -> Seq<char> {
        match self {
            OnboardingDoctorOutcome::Pass { .. } => "PASS"@,
            OnboardingDoctorOutcome::Warn { .. } => "WARN"@,
            OnboardingDoctorOutcome::Fail { .. } => "FAIL"@,
            OnboardingDoctorOutcome::Skipped { .. } => "SKIP"@,
        }
    }

    pub fn label(&self) -> (r: &'static str)
        ensures
            r@ == self.spec_label(),
    {
        match self {
            OnboardingDoctorOutcome::Pass { .. } => "PASS",
            OnboardingDoctorOutcome::Warn { .. } => "WARN",
            OnboardingDoctorOutcome::Fail { .. } => "FAIL",
            OnboardingDoctorOutcome::Skipped { .. } => "SKIP",
        }
    }
}

/// One row of the doctor report.
#[derive(Debug, Clone, PartialEq, Eq)]
pub struct OnboardingDoctorCheck {
    pub id: &'static str,
    pub title: &'static str,
    pub outcome: OnboardingDoctorOutcome,
}

/// All doctor checks, in display order.
#[derive(Debug, Clone, PartialEq, Eq)]
pub struct OnboardingDoctorReport {
    pub checks: Vec<OnboardingDoctorCheck>,
}

impl OnboardingDoctorReport {
    /// Whether some check failed.
    pub fn any_failures(&self) -> (r: bool)
        ensures
            r == exists|i: int| 0 <= i < self.checks@.len() && (#[trigger] self.checks@[i]).outcome is Fail,
    {
        let mut i: usize = 0;
        while i < self.checks.len()
            invariant
                i <= self.checks@.len(),
                forall|k: int| 0 <= k < i ==> !((#[trigger] self.checks@[k]).outcome is Fail),
            decreases self.checks@.len() - i,
        {
            if let OnboardingDoctorOutcome::Fail { .. } = &self.checks[i].outcome {
                return true;
            }
            i += 1;
        }
        false
    }

    /// Whether some check warned.
    pub fn any_warnings(&self) -> (r: bool)
        ensures
            r == exists|i: int| 0 <= i < self.checks@.len() && (#[trigger] self.checks@[i]).outcome is Warn,
    {
        let mut i: usize = 0;
        while i < self.checks.len()
            invariant
                i <= self.checks@.len(),
                forall|k: int| 0 <= k < i ==> !((#[trigger] self.checks@[k]).outcome is Warn),
            decreases self.checks@.len() - i,
        {
            if let OnboardingDoctorOutcome::Warn { .. } = &self.checks[i].outcome {
                return true;
            }
            i += 1;
        }
        false
    }
}

/// A provider request in flight.
#[derive(Debug, Clone, Copy, PartialEq, Eq, Structural)]
pub enum OnboardingProviderPending {
    Test,
    Save,
}

/// Where a provider is being saved.
#[derive(Debug, Clone, Copy, PartialEq, Eq, Structural)]
pub enum OnboardingProviderSaveTarget {
    Primary,
    Fallback,
}

/// Where the provider step stands.
#[derive(Debug, Clone, PartialEq, Eq)]
pub enum OnboardingProviderStatus {
    NotSelected,
    KeyMissing,
    Testing,
    TestFailed { reason: String },
    Saving(OnboardingProviderSaveTarget),
    SavedPrimary,
    SavedFallback,
    Ready,
}

/// Result of checking the workspace candidate.
#[derive(Debug, Clone, PartialEq, Eq)]
pub enum OnboardingWorkspaceValidation {
    Unvalidated,
    Validating,
    Valid { canonical: String, writable: bool, has_workspace_toml: bool },
    Invalid { reason: String },
}

impl OnboardingWorkspaceValidation {
    pub fn is_valid(&self) -> (r: bool)
        ensures
            r == (self is Valid),
    {
        match self {
            OnboardingWorkspaceValidation::Valid { .. } => true,
            _ => false,
        }
    }

    pub fn is_unvalidated(&self) -> (r: bool)
        ensures
            r == (self is Unvalidated),
    {
        match self {
            OnboardingWorkspaceValidation::Unvalidated => true,
            _ => false,
        }
    }
}

/// Why the local-profile step needs the user's attention.
#[derive(Debug, Clone, Copy, PartialEq, Eq, Structural)]
pub enum OnboardingLocalProfileErrorKind {
    Collision,
    Unsupported,
    InvalidParams,
    InvalidField,
}

/// A field of the local-profile form.
#[derive(Debug, Clone, Copy, PartialEq, Eq, Structural)]
pub enum OnboardingLocalProfileField {
    Name,
    Username,
    Email,
}

impl OnboardingLocalProfileField {
    pub open spec fn spec_slug(self) -> Seq<char> {
        match self {
            OnboardingLocalProfileField::Name => "name"@,
            OnboardingLocalProfileField::Username => "username"@,
            OnboardingLocalProfileField::Email => "email"@,
        }
    }

    pub fn slug(self) -> (r: &'static str)
        ensures
            r@ == self.spec_slug(),
    {
        match self {
            OnboardingLocalProfileField::Name => "name",
            OnboardingLocalProfileField::Username => "username",
            OnboardingLocalProfileField::Email => "email",
        }
    }
}

/// The field to fix on the local-profile step, and what to tell the user.
#[derive(Debug, Clone, PartialEq, Eq)]
pub struct OnboardingLocalProfileRecovery {
    pub kind: OnboardingLocalProfileErrorKind,
    pub focus_field: OnboardingLocalProfileField,
    pub message: String,
}

/// How a model is reached: a named route or an explicit endpoint.
#[derive(Debug, Clone, PartialEq, Eq)]
pub struct LlmRouteConfig {
    pub route_id: String,
    pub label: Option<String>,
    pub base_url: Option<String>,
    pub api_key_env: Option<String>,
    pub api_type: Option<String>,
}

pub open spec fn none_or_empty(o: Option<String>) -> bool {
    match o {
        Some(s) => s@.len() == 0,
        None => true,
    }
}

fn is_none_or_empty(o: &Option<String>) -> (r: bool)
    ensures
        r == none_or_empty(*o),
{
    match o {
        Some(s) => s.as_str().is_empty(),
        None => true,
    }
}

impl LlmRouteConfig {
    /// Nothing set: a blank route id and every optional field absent or
    /// empty.
    pub open spec fn spec_is_empty(&self) -> bool {
        trim(self.route_id@).len() == 0 && none_or_empty(self.label) && none_or_empty(self.base_url)
            && none_or_empty(self.api_key_env) && none_or_empty(self.api_type)
    }

    pub fn is_empty(&self) -> (r: bool)
        ensures
            r == self.spec_is_empty(),
    {
        is_blank(self.route_id.as_str()) && is_none_or_empty(&self.label) && is_none_or_empty(&self.base_url)
            && is_none_or_empty(&self.api_key_env) && is_none_or_empty(&self.api_type)
    }
}

/// Whether two routes hold the same texts.
pub open spec fn route_same(a: LlmRouteConfig, b: LlmRouteConfig) -> bool {
    a.route_id@ == b.route_id@ && opt_string_view(a.label) == opt_string_view(b.label)
        && opt_string_view(a.base_url) == opt_string_view(b.base_url)
        && opt_string_view(a.api_key_env) == opt_string_view(b.api_key_env)
        && opt_string_view(a.api_type) == opt_string_view(b.api_type)
}

impl LlmRouteConfig {
    /// A copy of the route.
    pub fn duplicate(&self) -> (r: Self)
        ensures
            route_same(*self, r),
    {
        LlmRouteConfig {
            route_id: self.route_id.clone(),
            label: copy_opt_string(&self.label),
            base_url: copy_opt_string(&self.base_url),
            api_key_env: copy_opt_string(&self.api_key_env),
            api_type: copy_opt_string(&self.api_type),
        }
    }
}

impl Default for LlmRouteConfig {
    fn default() -> (r: Self)
        ensures
            r.route_id@.len() == 0,
            r.label.is_none(),
            r.base_url.is_none(),
            r.api_key_env.is_none(),
            r.api_type.is_none(),
    {
        LlmRouteConfig { route_id: String::new(), label: None, base_url: None, api_key_env: None, api_type: None }
    }
}

/// A provider choice: model family, model and route. Hints and costs are
/// carried through as the server sent them.
#[derive(Debug)]
pub struct LlmSelectionConfig {
    pub family_id: String,
    pub model_id: String,
    pub route: LlmRouteConfig,
    pub model_hints: Option<JsonValue>,
    pub cost_per_m: Option<JsonValue>,
    pub strong: Option<bool>,
}

/// Whether two selections hold the same choice.
pub open spec fn selection_same(a: LlmSelectionConfig, b: LlmSelectionConfig) -> bool {
    a.family_id@ == b.family_id@ && a.model_id@ == b.model_id@ && route_same(a.route, b.route)
        && opt_json_same(a.model_hints, b.model_hints) && opt_json_same(a.cost_per_m, b.cost_per_m)
        && a.strong == b.strong
}

impl LlmSelectionConfig {
    /// A copy of the selection.
    pub fn duplicate(&self) -> (r: Self)
        ensures
            selection_same(*self, r),
    {
        LlmSelectionConfig {
            family_id: self.family_id.clone(),
            model_id: self.model_id.clone(),
            route: self.route.duplicate(),
            model_hints: copy_opt_json(&self.model_hints),
            cost_per_m: copy_opt_json(&self.cost_per_m),
            strong: self.strong,
        }
    }
}

/// The selection the wizard starts from: nothing chosen, OpenAI-style
/// API.
pub fn empty_llm_selection_config() -> (r: LlmSelectionConfig)
    ensures
        r.family_id@.len() == 0,
        r.model_id@.len() == 0,
        r.route.route_id@.len() == 0,
        r.route.label.is_none(),
        r.route.base_url.is_none(),
        r.route.api_key_env.is_none(),
        r.route.api_type matches Some(t) && t@ == "openai"@,
        r.model_hints.is_none(),
        r.cost_per_m.is_none(),
        r.strong.is_none(),
{
    LlmSelectionConfig {
        family_id: String::new(),
        model_id: String::new(),
        route: LlmRouteConfig {
            route_id: String::new(),
            label: None,
            base_url: None,
            api_key_env: None,
            api_type: Some(String::from_str("openai")),
        },
        model_hints: None,
        cost_per_m: None,
        strong: None,
    }
}

/// State of the first-run wizard.
pub struct OnboardingWizardState {
    pub name: String,
    pub username: String,
    pub email: String,
    pub otp_code: String,
    pub profile_id: Option<String>,
    pub local_profile_created: bool,
    pub open_session_after_profile_create: bool,
    pub workspace_candidate: Option<String>,
    pub workspace_validation: OnboardingWorkspaceValidation,
    pub staged_permission_profile: Option<PermissionProfileUpdate>,
    pub permission_profile_mismatch: Option<String>,
    pub local_profile_create_pending: bool,
    pub local_profile_create_pending_username: Option<String>,
    pub local_profile_recovery: Option<OnboardingLocalProfileRecovery>,
    pub auth_email_enabled: Option<bool>,
    pub auth_code_sent: bool,
    pub auth_verified: bool,
    pub auth_token: Option<AppUiAuthToken>,
    pub provider: LlmSelectionConfig,
    pub api_key: Option<SecretString>,
    pub provider_saved: bool,
    pub provider_tested: bool,
    pub provider_pending: Option<OnboardingProviderPending>,
    pub provider_save_target: Option<OnboardingProviderSaveTarget>,
    pub last_saved_provider_label: Option<String>,
    pub last_saved_provider_target: Option<OnboardingProviderSaveTarget>,
    pub saved_primary_provider_label: Option<String>,
    pub provider_test_failure_reason: Option<String>,
    pub last_message: Option<String>,
}

impl Default for OnboardingWizardState {
    fn default() -> (r: Self)
        ensures
            r.name@.len() == 0 && r.username@.len() == 0 && r.email@.len() == 0 && r.otp_code@.len() == 0,
            r.profile_id.is_none(),
            !r.local_profile_created && !r.open_session_after_profile_create,
            r.workspace_candidate.is_none(),
            r.workspace_validation is Unvalidated,
            r.staged_permission_profile.is_none(),
            r.permission_profile_mismatch.is_none(),
            !r.local_profile_create_pending,
            r.local_profile_create_pending_username.is_none(),
            r.local_profile_recovery.is_none(),
            r.auth_email_enabled.is_none(),
            !r.auth_code_sent && !r.auth_verified,
            r.auth_token.is_none(),
            r.provider.family_id@.len() == 0 && r.provider.model_id@.len() == 0,
            r.provider.route.route_id@.len() == 0,
            r.provider.route.api_type matches Some(t) && t@ == "openai"@,
            r.api_key.is_none(),
            !r.provider_saved && !r.provider_tested,
            r.provider_pending.is_none(),
            r.provider_save_target.is_none(),
            r.last_saved_provider_label.is_none(),
            r.last_saved_provider_target.is_none(),
            r.saved_primary_provider_label.is_none(),
            r.provider_test_failure_reason.is_none(),
            r.last_message.is_none(),
    {
        OnboardingWizardState {
            name: String::new(),
            username: String::new(),
            email: String::new(),
            otp_code: String::new(),
            profile_id: None,
            local_profile_created: false,
            open_session_after_profile_create: false,
            workspace_candidate: None,
            workspace_validation: OnboardingWorkspaceValidation::Unvalidated,
            staged_permission_profile: None,
            permission_profile_mismatch: None,
            local_profile_create_pending: false,
            local_profile_create_pending_username: None,
            local_profile_recovery: None,
            auth_email_enabled: None,
            auth_code_sent: false,
            auth_verified: false,
            auth_token: None,
            provider: empty_llm_selection_config(),
            api_key: None,
            provider_saved: false,
            provider_tested: false,
            provider_pending: None,
            provider_save_target: None,
            last_saved_provider_label: None,
            last_saved_provider_target: None,
            saved_primary_provider_label: None,
            provider_test_failure_reason: None,
            last_message: None,
        }
    }
}

/// Index of the first `": "` in `s`, or `s.len()` when there is none.
pub open spec fn first_colon_space(s: Seq<char>) -> nat
    decreases s.len(),
{
    if s.len() < 2 {
        s.len()
    } else if s[0] == ':' && s[1] == ' ' {
        0
    } else {
        1 + first_colon_space(s.drop_first())
    }
}

proof fn lemma_first_colon_space(s: Seq<char>)
    ensures
        first_colon_space(s) <= s.len(),
        first_colon_space(s) < s.len() ==> first_colon_space(s) + 1 < s.len()
            && s[first_colon_space(s) as int] == ':' && s[first_colon_space(s) as int + 1] == ' ',
        forall|i: int| 0 <= i < first_colon_space(s) && i + 1 < s.len() ==> !(#[trigger] s[i] == ':' && s[i + 1] == ' '),
    decreases s.len(),
{
    if s.len() >= 2 && !(s[0] == ':' && s[1] == ' ') {
        let t = s.drop_first();
        lemma_first_colon_space(t);
        assert forall|i: int| 0 <= i < first_colon_space(s) && i + 1 < s.len() implies !(#[trigger] s[i] == ':' && s[i + 1] == ' ') by {
            if i > 0 {
                assert(s[i] == t[i - 1] && s[i + 1] == t[i]);
            }
        }
    }
}

/// `message` without a leading `"<method> request ...: "`: the trimmed
/// text after the first `": "` that follows `"<method> request"`; the
/// message unchanged when it does not start that way.
pub open spec fn spec_strip_method_prefix(message: Seq<char>, method: Seq<char>) -> Seq<char> {
    let prefix = method + " request"@;
    if prefix.is_prefix_of(message) {
        let rest = message.skip(prefix.len() as int);
        let i = first_colon_space(rest);
        if i < rest.len() {
            trim(rest.skip(i as int + 2))
        } else {
            message
        }
    } else {
        message
    }
}

/// Strip the request prefix that error responses carry (see
/// [`spec_strip_method_prefix`]).
pub fn strip_method_prefix(message: &str, method: &str) -> (r: String)
    ensures
        r@ == spec_strip_method_prefix(message@, method@),
{
    let v = str_chars(message);
    let mut prefix = String::from_str(method);
    prefix.append(" request");
    let p = str_chars(prefix.as_str());
    proof { reveal_strlit(" request"); }
    let n = v.len();
    if p.len() > n {
        return String::from_str(message);
    }
    let mut k: usize = 0;
    while k < p.len()
        invariant
            p.len() <= n == v.len(),
            v@ == message@,
            p@ == method@ + " request"@,
            k <= p.len(),
            forall|j: int| 0 <= j < k ==> v@[j] == p@[j],
        decreases p.len() - k,
    {
        if v[k] != p[k] {
            proof {
                assert(!p@.is_prefix_of(v@)) by {
                    assert(v@.subrange(0, p@.len() as int)[k as int] == v@[k as int]);
                }
            }
            return String::from_str(message);
        }
        k += 1;
    }
    assert(p@ =~= v@.subrange(0, p@.len() as int));
    assert(p@.is_prefix_of(v@));
    let start = p.len();
    let ghost rest = v@.skip(start as int);
    let mut i = start;
    while i < n && i + 1 < n && !(v[i] == ':' && v[i + 1] == ' ')
        invariant
            start <= i <= n == v.len(),
            rest == v@.skip(start as int),
            first_colon_space(rest) == (i - start) + first_colon_space(v@.skip(i as int)),
        decreases n - i,
    {
        assert(v@.skip(i as int).drop_first() =~= v@.skip(i + 1));
        i += 1;
    }
    if i < n && i + 1 < n {
        assert(first_colon_space(v@.skip(i as int)) == 0);
        proof { lemma_first_colon_space(rest); }
        let (a, b) = trim_bounds(&v, i + 2, n);
        assert(rest.skip(i - start + 2) =~= v@.subrange(i + 2, n as int));
        string_from_range(&v, a, b)
    } else {
        assert(first_colon_space(v@.skip(i as int)) == v@.skip(i as int).len());
        String::from_str(message)
    }
}

/// `local@domain` with both parts non-blank and the domain neither
/// starting nor ending with a dot (split at the first `@`).
pub open spec fn spec_looks_like_email(value: Seq<char>) -> bool {
    let at = first_index_of(value, '@');
    if at >= value.len() {
        false
    } else {
        let local = value.take(at as int);
        let domain = value.skip(at as int + 1);
        trim(local).len() > 0 && trim(domain).len() > 0 && !(domain.len() > 0 && domain[0] == '.')
            && !(domain.len() > 0 && domain.last() == '.')
    }
}

/// Shape check of an email address (see [`spec_looks_like_email`]).
pub fn looks_like_email(value: &str) -> (r: bool)
    ensures
        r == spec_looks_like_email(value@),
{
    let v = str_chars(value);
    let n = v.len();
    let at = find_char_in(&v, 0, n, '@');
    assert(v@.subrange(0, n as int) =~= v@);
    if at >= n {
        return false;
    }
    let (a, b) = trim_bounds(&v, 0, at);
    let (c, d) = trim_bounds(&v, at + 1, n);
    assert(v@.take(at as int) =~= v@.subrange(0, at as int));
    assert(v@.skip(at + 1) =~= v@.subrange(at + 1, n as int));
    let starts_dot = at + 1 < n && v[at + 1] == '.';
    let ends_dot = at + 1 < n && v[n - 1] == '.';
    a < b && c < d && !starts_dot && !ends_dot
}

/// Number of characters `name` may have.
pub open spec fn max_name_chars() -> nat {
    128
}

/// Number of bytes `username` may have.
pub open spec fn max_username_bytes() -> nat {
    64
}

/// A username character that is refused: non-ASCII, ASCII whitespace or
/// an ASCII control character.
pub open spec fn bad_username_char(c: char) -> bool {
    (c as u32) >= 0x80 || c == ' ' || c == '\t' || c == '\n' || c == '\x0C' || c == '\r' || (c as u32) < 0x20
        || (c as u32) == 0x7f
}

pub open spec fn invalid_field(field: OnboardingLocalProfileField, message: Seq<char>) -> Option<(OnboardingLocalProfileErrorKind, OnboardingLocalProfileField, Seq<char>)> {
    Some((OnboardingLocalProfileErrorKind::InvalidField, field, message))
}

/// The first problem with the staged local profile, or `None` when it can
/// be submitted.
pub open spec fn spec_validate_local_profile(name: Seq<char>, username: Seq<char>, email: Seq<char>) -> Option<(OnboardingLocalProfileErrorKind, OnboardingLocalProfileField, Seq<char>)> {
    let n = trim(name);
    let u = trim(username);
    let e = trim(email);
    if n.len() == 0 {
        invalid_field(OnboardingLocalProfileField::Name, "Display name is required. Use /onboard name <display name>."@)
    } else if n.len() > max_name_chars() {
        invalid_field(OnboardingLocalProfileField::Name, "Display name must be 128 characters or fewer."@)
    } else if u.len() == 0 {
        invalid_field(OnboardingLocalProfileField::Username, "Username is required. Use /onboard username <handle>."@)
    } else if byte_len(u) > max_username_bytes() {
        invalid_field(OnboardingLocalProfileField::Username, "Username must be 64 characters or fewer."@)
    } else if exists|i: int| 0 <= i < u.len() && bad_username_char(#[trigger] u[i]) {
        invalid_field(
            OnboardingLocalProfileField::Username,
            "Username must be ASCII without whitespace or control characters."@,
        )
    } else if e.len() == 0 {
        invalid_field(OnboardingLocalProfileField::Email, "Email is required by the backend. Use /onboard email <address>."@)
    } else if !spec_looks_like_email(e) {
        invalid_field(
            OnboardingLocalProfileField::Email,
            "Email must contain a non-empty local-part and domain (e.g. ada@example.com)."@,
        )
    } else {
        None
    }
}

pub open spec fn recovery_view(r: OnboardingLocalProfileRecovery) -> (OnboardingLocalProfileErrorKind, OnboardingLocalProfileField, Seq<char>) {
    (r.kind, r.focus_field, r.message@)
}

fn field_error(field: OnboardingLocalProfileField, message: &str) -> (r: OnboardingLocalProfileRecovery)
    ensures
        recovery_view(r) == (OnboardingLocalProfileErrorKind::InvalidField, field, message@),
{
    OnboardingLocalProfileRecovery {
        kind: OnboardingLocalProfileErrorKind::InvalidField,
        focus_field: field,
        message: String::from_str(message),
    }
}

fn has_bad_username_char(v: &Vec<char>, lo: usize, hi: usize) -> (r: bool)
    requires
        lo <= hi <= v.len(),
    ensures
        r == exists|i: int| 0 <= i < hi - lo && bad_username_char(#[trigger] v@.subrange(lo as int, hi as int)[i]),
{
    let ghost u = v@.subrange(lo as int, hi as int);
    let mut i = lo;
    while i < hi
        invariant
            lo <= i <= hi <= v.len(),
            u == v@.subrange(lo as int, hi as int),
            forall|k: int| 0 <= k < i - lo ==> !bad_username_char(#[trigger] u[k]),
        decreases hi - i,
    {
        let c = v[i];
        let code = c as u32;
        assert(u[i - lo] == c);
        if code >= 0x80 || c == ' ' || c == '\t' || c == '\n' || c == '\x0C' || c == '\r' || code < 0x20 || code == 0x7f {
            return true;
        }
        i += 1;
    }
    false
}

impl OnboardingWizardState {
    /// Check the staged name, username and email before they are sent
    /// (see [`spec_validate_local_profile`]).
    pub fn validate_local_profile(&self) -> (r: Result<(), OnboardingLocalProfileRecovery>)
        ensures
            match (r, spec_validate_local_profile(self.name@, self.username@, self.email@)) {
                (Ok(()), None) => true,
                (Err(rec), Some(s)) => recovery_view(rec) == s,
                _ => false,
            },
    {
        let name = trimmed(self.name.as_str());
        if name.is_empty() {
            return Err(field_error(OnboardingLocalProfileField::Name, "Display name is required. Use /onboard name <display name>."));
        }
        if name.unicode_len() > 128 {
            return Err(field_error(OnboardingLocalProfileField::Name, "Display name must be 128 characters or fewer."));
        }
        let username = trimmed(self.username.as_str());
        if username.is_empty() {
            return Err(field_error(OnboardingLocalProfileField::Username, "Username is required. Use /onboard username <handle>."));
        }
        if username.len() > 64 {
            return Err(field_error(OnboardingLocalProfileField::Username, "Username must be 64 characters or fewer."));
        }
        let uv = str_chars(username);
        assert(uv@.subrange(0, uv@.len() as int) =~= uv@);
        if has_bad_username_char(&uv, 0, uv.len()) {
            return Err(field_error(
                OnboardingLocalProfileField::Username,
                "Username must be ASCII without whitespace or control characters.",
            ));
        }
        let email = trimmed(self.email.as_str());
        if email.is_empty() {
            return Err(field_error(OnboardingLocalProfileField::Email, "Email is required by the backend. Use /onboard email <address>."));
        }
        if !looks_like_email(email) {
            return Err(field_error(
                OnboardingLocalProfileField::Email,
                "Email must contain a non-empty local-part and domain (e.g. ada@example.com).",
            ));
        }
        Ok(())
    }
}


/// The recovery for an error answered to `profile/local/create`: which
/// field to focus and the message, built from the server's reason with
/// the request prefix stripped.
pub open spec fn spec_local_profile_error(code: Seq<char>, message: Seq<char>, collided: Seq<char>) -> (OnboardingLocalProfileErrorKind, OnboardingLocalProfileField, Seq<char>) {
    let reason = spec_strip_method_prefix(message, "profile/local/create"@);
    if code == "profile_local_collision"@ {
        (
            OnboardingLocalProfileErrorKind::Collision,
            OnboardingLocalProfileField::Username,
            "Local profile collision for '"@ + collided + "': "@ + reason
                + ". Edit the fields with /onboard name|username|email and try again."@,
        )
    } else if code == "profile_local_unsupported"@ {
        (
            OnboardingLocalProfileErrorKind::Unsupported,
            OnboardingLocalProfileField::Username,
            unsupported_message(),
        )
    } else if code == "profile_local_invalid_name"@ {
        (
            OnboardingLocalProfileErrorKind::InvalidParams,
            OnboardingLocalProfileField::Name,
            "Server rejected the display name: "@ + reason + ". Edit it with /onboard name <display name>."@,
        )
    } else if code == "profile_local_invalid_username"@ {
        (
            OnboardingLocalProfileErrorKind::InvalidParams,
            OnboardingLocalProfileField::Username,
            "Server rejected the username: "@ + reason + ". Edit it with /onboard username <handle>."@,
        )
    } else if code == "profile_local_invalid_email"@ {
        (
            OnboardingLocalProfileErrorKind::InvalidParams,
            OnboardingLocalProfileField::Email,
            "Server rejected the email: "@ + reason + ". Edit it with /onboard email <address>."@,
        )
    } else if code == "invalid_params"@ {
        (
            OnboardingLocalProfileErrorKind::InvalidParams,
            OnboardingLocalProfileField::Username,
            "Server rejected the profile fields as invalid: "@ + reason
                + ". Edit them with /onboard name|username|email."@,
        )
    } else {
        (
            OnboardingLocalProfileErrorKind::InvalidParams,
            OnboardingLocalProfileField::Username,
            "profile/local/create failed: "@ + reason,
        )
    }
}

pub open spec fn unsupported_message() -> Seq<char> {
    "This server returned profile_local_unsupported for profile/local/create. The backend is misconfigured — restart the server with local solo onboarding enabled, or connect to a backend that fully supports it."@
}

fn recovery(
    kind: OnboardingLocalProfileErrorKind,
    field: OnboardingLocalProfileField,
    message: String,
) -> (r: OnboardingLocalProfileRecovery)
    ensures
        recovery_view(r) == (kind, field, message@),
{
    OnboardingLocalProfileRecovery { kind, focus_field: field, message }
}

fn wrap_reason(before: &str, reason: &str, after: &str) -> (r: String)
    ensures
        r@ == before@ + reason@ + after@,
{
    let mut m = String::from_str(before);
    m.append(reason);
    m.append(after);
    m
}

/// The provider status derived from the wizard's fields, checked in this
/// order: a request in flight, a failed test, a save, the selection, the
/// key.
pub open spec fn spec_provider_status(w: OnboardingWizardState) -> OnboardingProviderStatusView {
    match w.provider_pending {
        Some(OnboardingProviderPending::Test) => OnboardingProviderStatusView::Testing,
        Some(OnboardingProviderPending::Save) => OnboardingProviderStatusView::Saving(
            match w.provider_save_target {
                Some(t) => t,
                None => OnboardingProviderSaveTarget::Primary,
            },
        ),
        None => match w.provider_test_failure_reason {
            Some(reason) => OnboardingProviderStatusView::TestFailed(reason@),
            None => if w.provider_saved || w.last_saved_provider_target == Some(OnboardingProviderSaveTarget::Fallback) {
                if w.last_saved_provider_target == Some(OnboardingProviderSaveTarget::Fallback) {
                    OnboardingProviderStatusView::SavedFallback
                } else {
                    OnboardingProviderStatusView::SavedPrimary
                }
            } else if !w.spec_selection_ready() {
                OnboardingProviderStatusView::NotSelected
            } else if !w.spec_has_api_key() {
                OnboardingProviderStatusView::KeyMissing
            } else {
                OnboardingProviderStatusView::Ready
            },
        },
    }
}

/// [`OnboardingProviderStatus`] with its reason as characters.
pub enum OnboardingProviderStatusView {
    NotSelected,
    KeyMissing,
    Testing,
    TestFailed(Seq<char>),
    Saving(OnboardingProviderSaveTarget),
    SavedPrimary,
    SavedFallback,
    Ready,
}

impl OnboardingProviderStatus {
    pub open spec fn view(&self) -> OnboardingProviderStatusView {
        match self {
            OnboardingProviderStatus::NotSelected => OnboardingProviderStatusView::NotSelected,
            OnboardingProviderStatus::KeyMissing => OnboardingProviderStatusView::KeyMissing,
            OnboardingProviderStatus::Testing => OnboardingProviderStatusView::Testing,
            OnboardingProviderStatus::TestFailed { reason } => OnboardingProviderStatusView::TestFailed(reason@),
            OnboardingProviderStatus::Saving(t) => OnboardingProviderStatusView::Saving(*t),
            OnboardingProviderStatus::SavedPrimary => OnboardingProviderStatusView::SavedPrimary,
            OnboardingProviderStatus::SavedFallback => OnboardingProviderStatusView::SavedFallback,
            OnboardingProviderStatus::Ready => OnboardingProviderStatusView::Ready,
        }
    }
}

impl OnboardingWizardState {
    pub open spec fn spec_has_email(&self) -> bool {
        trim(self.email@).len() > 0
    }

    pub open spec fn spec_has_name(&self) -> bool {
        trim(self.name@).len() > 0
    }

    pub open spec fn spec_has_username(&self) -> bool {
        trim(self.username@).len() > 0
    }

    /// A family, a model, and a route id or a base URL are chosen.
    pub open spec fn spec_selection_ready(&self) -> bool {
        trim(self.provider.family_id@).len() > 0 && trim(self.provider.model_id@).len() > 0 && (trim(
            self.provider.route.route_id@,
        ).len() > 0 || (self.provider.route.base_url matches Some(u) && trim(u@).len() > 0))
    }

    pub open spec fn spec_has_api_key(&self) -> bool {
        self.api_key matches Some(k) && k.spec_value().len() > 0
    }

    pub fn has_email(&self) -> (r: bool)
        ensures
            r == self.spec_has_email(),
    {
        !is_blank(self.email.as_str())
    }

    pub fn has_name(&self) -> (r: bool)
        ensures
            r == self.spec_has_name(),
    {
        !is_blank(self.name.as_str())
    }

    pub fn has_username(&self) -> (r: bool)
        ensures
            r == self.spec_has_username(),
    {
        !is_blank(self.username.as_str())
    }

    /// Name, username and email are all filled in; the server still
    /// requires the email.
    pub fn local_profile_ready(&self) -> (r: bool)
        ensures
            r == (self.spec_has_name() && self.spec_has_username() && self.spec_has_email()),
    {
        self.has_name() && self.has_username() && self.has_email()
    }

    pub fn has_otp_code(&self) -> (r: bool)
        ensures
            r == (trim(self.otp_code@).len() > 0),
    {
        !is_blank(self.otp_code.as_str())
    }

    pub fn has_api_key(&self) -> (r: bool)
        ensures
            r == self.spec_has_api_key(),
    {
        match &self.api_key {
            Some(key) => !key.is_empty(),
            None => false,
        }
    }

    pub fn selection_ready(&self) -> (r: bool)
        ensures
            r == self.spec_selection_ready(),
    {
        let base_url_set = match &self.provider.route.base_url {
            Some(url) => !is_blank(url.as_str()),
            None => false,
        };
        !is_blank(self.provider.family_id.as_str()) && !is_blank(self.provider.model_id.as_str()) && (!is_blank(
            self.provider.route.route_id.as_str(),
        ) || base_url_set)
    }

    /// Only a validated workspace lets the wizard open a session.
    pub fn workspace_ready_for_finish(&self) -> (r: bool)
        ensures
            r == (self.workspace_validation is Valid),
    {
        self.workspace_validation.is_valid()
    }

    /// The profile to act for: the staged id when it is not blank, else
    /// the current one.
    pub fn effective_profile_id(&self, current_profile: Option<&str>) -> (r: Option<String>)
        ensures
            match self.profile_id {
                Some(p) if trim(p@).len() > 0 => r matches Some(s) && s@ == p@,
                _ => match current_profile {
                    Some(c) => r matches Some(s) && s@ == c@,
                    None => r.is_none(),
                },
            },
    {
        if let Some(p) = &self.profile_id {
            if !is_blank(p.as_str()) {
                return Some(p.clone());
            }
        }
        match current_profile {
            Some(c) => Some(String::from_str(c)),
            None => None,
        }
    }

    /// The effective profile id, or a placeholder when there is none.
    pub fn profile_label(&self, current_profile: Option<&str>) -> (r: String)
        ensures
            match self.profile_id {
                Some(p) if trim(p@).len() > 0 => r@ == p@,
                _ => match current_profile {
                    Some(c) => r@ == c@,
                    None => r@ == "<server authenticated profile>"@,
                },
            },
    {
        match self.effective_profile_id(current_profile) {
            Some(p) => p,
            None => String::from_str("<server authenticated profile>"),
        }
    }

    /// `family / model via route` once a selection is ready.
    pub fn provider_label(&self) -> (r: String)
        ensures
            r@ == (if self.spec_selection_ready() {
                self.provider.family_id@ + " / "@ + self.provider.model_id@ + " via "@ + self.provider.route.route_id@
            } else {
                "not selected"@
            }),
    {
        if self.selection_ready() {
            let mut m = self.provider.family_id.clone();
            m.append(" / ");
            m.append(self.provider.model_id.as_str());
            m.append(" via ");
            m.append(self.provider.route.route_id.as_str());
            m
        } else {
            String::from_str("not selected")
        }
    }

    /// The masked API key, or nothing.
    pub fn api_key_label(&self) -> (r: &'static str)
        ensures
            r@ == (match self.api_key {
                Some(k) => if k.spec_value().len() == 0 { ""@ } else { "********"@ },
                None => ""@,
            }),
    {
        match &self.api_key {
            Some(k) => k.masked(),
            None => "",
        }
    }

    /// The workspace to validate: the staged candidate when it is not
    /// blank, else the active workspace, trimmed either way.
    pub fn workspace_target<'a>(&'a self, active_workspace: &'a str) -> (r: &'a str)
        ensures
            r@ == (match self.workspace_candidate {
                Some(c) if trim(c@).len() > 0 => trim(c@),
                _ => trim(active_workspace@),
            }),
    {
        if let Some(c) = &self.workspace_candidate {
            let t = trimmed(c.as_str());
            if !t.is_empty() {
                return t;
            }
        }
        trimmed(active_workspace)
    }

    /// Where the provider step stands (see [`spec_provider_status`]).
    pub fn provider_status(&self) -> (r: OnboardingProviderStatus)
        ensures
            r.view() == spec_provider_status(*self),
    {
        if let Some(pending) = self.provider_pending {
            return match pending {
                OnboardingProviderPending::Test => OnboardingProviderStatus::Testing,
                OnboardingProviderPending::Save => OnboardingProviderStatus::Saving(
                    match self.provider_save_target {
                        Some(t) => t,
                        None => OnboardingProviderSaveTarget::Primary,
                    },
                ),
            };
        }
        if let Some(reason) = &self.provider_test_failure_reason {
            return OnboardingProviderStatus::TestFailed { reason: reason.clone() };
        }
        let fallback_saved = match self.last_saved_provider_target {
            Some(OnboardingProviderSaveTarget::Fallback) => true,
            _ => false,
        };
        if self.provider_saved || fallback_saved {
            return if fallback_saved {
                OnboardingProviderStatus::SavedFallback
            } else {
                OnboardingProviderStatus::SavedPrimary
            };
        }
        if !self.selection_ready() {
            return OnboardingProviderStatus::NotSelected;
        }
        if !self.has_api_key() {
            return OnboardingProviderStatus::KeyMissing;
        }
        OnboardingProviderStatus::Ready
    }

    /// Take a provider choice from the catalog: the previous test result
    /// and any request in flight no longer apply.
    pub fn apply_selection(&mut self, selection: LlmSelectionConfig)
        ensures
            final(self).provider == selection,
            !final(self).provider_tested,
            final(self).provider_pending.is_none(),
            final(self).provider_save_target.is_none(),
            final(self).provider_test_failure_reason.is_none(),
            final(self).last_message matches Some(m) && m@ == "Provider selection updated from AppUI catalog"@,
            final(self).provider_saved == old(self).provider_saved,
            final(self).api_key == old(self).api_key,
    {
        self.provider = selection;
        self.provider_tested = false;
        self.provider_pending = None;
        self.provider_save_target = None;
        self.provider_test_failure_reason = None;
        self.last_message = Some(String::from_str("Provider selection updated from AppUI catalog"));
    }

    /// Drop the staged provider and key.
    pub fn reset_staged_provider(&mut self)
        ensures
            final(self).provider.family_id@.len() == 0,
            final(self).provider.model_id@.len() == 0,
            final(self).provider.route.route_id@.len() == 0,
            final(self).api_key.is_none(),
            !final(self).provider_tested,
            final(self).provider_pending.is_none(),
            final(self).provider_save_target.is_none(),
            final(self).provider_saved == old(self).provider_saved,
    {
        self.provider = empty_llm_selection_config();
        self.api_key = None;
        self.provider_tested = false;
        self.provider_pending = None;
        self.provider_save_target = None;
    }

    /// Record the login methods and identity the server reported.
    pub fn apply_auth_status(&mut self, result: &AuthStatusResult)
        ensures
            final(self).auth_email_enabled == Some(result.email_login_enabled || result.email_otp),
            final(self).auth_verified == (result.authenticated || result.scoped_profile.is_some()),
            final(self).profile_id == (match result.scoped_profile {
                Some(p) => Some(p.id),
                None => match result.profile_id {
                    Some(id) => Some(id),
                    None => old(self).profile_id,
                },
            }),
    {
        self.auth_email_enabled = Some(result.email_login_enabled || result.email_otp);
        self.auth_verified = result.authenticated || result.scoped_profile.is_some();
        if let Some(profile) = &result.scoped_profile {
            self.profile_id = Some(profile.id.clone());
        } else if let Some(profile_id) = &result.profile_id {
            self.profile_id = Some(profile_id.clone());
        }
    }

    /// Take the profile the server created: its fields replace the staged
    /// ones and the step is done.
    pub fn apply_profile_local_create(&mut self, result: &ProfileLocalCreateResult)
        ensures
            final(self).profile_id == Some(result.profile_id),
            final(self).name == result.name,
            final(self).username == result.username,
            final(self).email == result.email,
            final(self).local_profile_created,
            final(self).auth_verified,
            !final(self).local_profile_create_pending,
            final(self).local_profile_create_pending_username.is_none(),
            final(self).local_profile_recovery.is_none(),
    {
        self.profile_id = Some(result.profile_id.clone());
        self.name = result.name.clone();
        self.username = result.username.clone();
        self.email = result.email.clone();
        self.local_profile_created = true;
        self.auth_verified = true;
        self.local_profile_create_pending = false;
        self.local_profile_create_pending_username = None;
        self.local_profile_recovery = None;
    }

    /// The user acted on the recovery: stop showing it. The username of
    /// a create still in flight is kept.
    pub fn clear_local_profile_recovery(&mut self)
        ensures
            final(self).local_profile_recovery.is_none(),
            final(self).local_profile_create_pending_username == old(self).local_profile_create_pending_username,
            final(self).local_profile_create_pending == old(self).local_profile_create_pending,
    {
        self.local_profile_recovery = None;
    }

    /// Turn an error answered to `profile/local/create` into a recovery on
    /// the profile step (see [`spec_local_profile_error`]). A collision
    /// names the username that was submitted, not the one staged since.
    pub fn apply_local_profile_error(&mut self, code: &str, message: &str)
        ensures
            final(self).local_profile_recovery matches Some(rec) && recovery_view(rec) == spec_local_profile_error(
                code@,
                message@,
                match old(self).local_profile_create_pending_username {
                    Some(u) => u@,
                    None => old(self).username@,
                },
            ),
            !final(self).local_profile_create_pending,
            final(self).local_profile_create_pending_username.is_none(),
            !final(self).local_profile_created,
            final(self).name == old(self).name,
            final(self).username == old(self).username,
            final(self).email == old(self).email,
            *final(self) == (OnboardingWizardState {
                local_profile_create_pending: false,
                local_profile_create_pending_username: None,
                local_profile_created: false,
                local_profile_recovery: final(self).local_profile_recovery,
                ..*old(self)
            }),
    {
        let collided_username = match &self.local_profile_create_pending_username {
            Some(u) => u.clone(),
            None => self.username.clone(),
        };
        let server_reason = strip_method_prefix(message, "profile/local/create");
        proof {
            reveal_strlit("profile/local/create");
            reveal_strlit("profile_local_collision");
            reveal_strlit("profile_local_unsupported");
            reveal_strlit("profile_local_invalid_name");
            reveal_strlit("profile_local_invalid_username");
            reveal_strlit("profile_local_invalid_email");
            reveal_strlit("invalid_params");
        }
        let rec = if str_eq(code, "profile_local_collision") {
            let mut m = String::from_str("Local profile collision for '");
            m.append(collided_username.as_str());
            m.append("': ");
            m.append(server_reason.as_str());
            m.append(". Edit the fields with /onboard name|username|email and try again.");
            recovery(OnboardingLocalProfileErrorKind::Collision, OnboardingLocalProfileField::Username, m)
        } else if str_eq(code, "profile_local_unsupported") {
            recovery(
                OnboardingLocalProfileErrorKind::Unsupported,
                OnboardingLocalProfileField::Username,
                String::from_str("This server returned profile_local_unsupported for profile/local/create. The backend is misconfigured — restart the server with local solo onboarding enabled, or connect to a backend that fully supports it."),
            )
        } else if str_eq(code, "profile_local_invalid_name") {
            recovery(
                OnboardingLocalProfileErrorKind::InvalidParams,
                OnboardingLocalProfileField::Name,
                wrap_reason("Server rejected the display name: ", server_reason.as_str(), ". Edit it with /onboard name <display name>."),
            )
        } else if str_eq(code, "profile_local_invalid_username") {
            recovery(
                OnboardingLocalProfileErrorKind::InvalidParams,
                OnboardingLocalProfileField::Username,
                wrap_reason("Server rejected the username: ", server_reason.as_str(), ". Edit it with /onboard username <handle>."),
            )
        } else if str_eq(code, "profile_local_invalid_email") {
            recovery(
                OnboardingLocalProfileErrorKind::InvalidParams,
                OnboardingLocalProfileField::Email,
                wrap_reason("Server rejected the email: ", server_reason.as_str(), ". Edit it with /onboard email <address>."),
            )
        } else if str_eq(code, "invalid_params") {
            recovery(
                OnboardingLocalProfileErrorKind::InvalidParams,
                OnboardingLocalProfileField::Username,
                wrap_reason(
                    "Server rejected the profile fields as invalid: ",
                    server_reason.as_str(),
                    ". Edit them with /onboard name|username|email.",
                ),
            )
        } else {
            recovery(
                OnboardingLocalProfileErrorKind::InvalidParams,
                OnboardingLocalProfileField::Username,
                wrap_reason("profile/local/create failed: ", server_reason.as_str(), ""),
            )
        };
        proof {
            reveal_strlit("Local profile collision for '");
            reveal_strlit("': ");
            reveal_strlit(". Edit the fields with /onboard name|username|email and try again.");
            reveal_strlit("");
        }
        self.local_profile_create_pending = false;
        self.local_profile_create_pending_username = None;
        self.local_profile_created = false;
        self.local_profile_recovery = Some(rec);
    }
}

/// A profile that passes validation has every field the form needs.
pub proof fn law_valid_profile_is_ready(w: OnboardingWizardState)
    requires
        spec_validate_local_profile(w.name@, w.username@, w.email@).is_none(),
    ensures
        w.spec_has_name() && w.spec_has_username() && w.spec_has_email(),
{
}


proof fn lemma_first_colon_space_append(a: Seq<char>, b: Seq<char>)
    requires
        forall|i: int| 0 <= i < a.len() ==> a[i] != ':',
    ensures
        first_colon_space(a + b) == a.len() + first_colon_space(b),
    decreases a.len(),
{
    if a.len() > 0 {
        lemma_first_colon_space_append(a.drop_first(), b);
        assert((a + b).drop_first() =~= a.drop_first() + b);
        if a.len() == 1 && b.len() == 0 {
            assert((a + b).len() == 1);
        }
    } else {
        assert(a + b =~= b);
    }
}

/// Stripping undoes the prefix that an error response puts in front of a
/// tracked request's failure (`"<method> request <id> failed: "`), as
/// long as the id holds no `:`: what remains is the server's reason,
/// trimmed.
pub proof fn law_strip_undoes_request_prefix(method: Seq<char>, id: Seq<char>, reason: Seq<char>)
    requires
        forall|i: int| 0 <= i < id.len() ==> id[i] != ':',
    ensures
        spec_strip_method_prefix(method + " request "@ + id + " failed: "@ + reason, method) == trim(reason),
{
    reveal_strlit(" request ");
    reveal_strlit(" request");
    reveal_strlit(" failed: ");
    reveal_strlit(" failed");
    reveal_strlit(": ");
    let message = method + " request "@ + id + " failed: "@ + reason;
    let prefix = method + " request"@;
    let head = seq![' '] + id + " failed"@;
    let tail = ": "@ + reason;
    assert(message =~= prefix + (head + tail));
    assert(prefix.is_prefix_of(message)) by {
        assert(message.subrange(0, prefix.len() as int) =~= prefix);
    }
    let rest = message.skip(prefix.len() as int);
    assert(rest =~= head + tail);
    assert forall|i: int| 0 <= i < head.len() implies head[i] != ':' by {
        if 1 <= i < 1 + id.len() {
            assert(head[i] == id[i - 1]);
        }
    }
    lemma_first_colon_space_append(head, tail);
    assert(first_colon_space(tail) == 0);
    assert(rest.skip(head.len() as int + 2) =~= reason);
}

/// Parameters of `profile/llm/upsert`.
pub struct ProfileLlmUpsertParams {
    pub profile_id: Option<String>,
    pub selection: LlmSelectionConfig,
    pub api_key: Option<SecretString>,
    pub set_primary: bool,
}

/// Parameters of `profile/llm/test`.
pub struct ProfileLlmTestParams {
    pub profile_id: Option<String>,
    pub selection: LlmSelectionConfig,
    pub api_key: Option<SecretString>,
}

/// Parameters of `profile/llm/fetch_models`.
pub struct ProfileLlmFetchModelsParams {
    pub profile_id: Option<String>,
    pub selection: LlmSelectionConfig,
    pub api_key: Option<SecretString>,
}

/// The profile to act for: the staged id when it is not blank, else the
/// current one.
pub open spec fn spec_effective_profile_id(staged: Option<String>, current: Option<&str>) -> Option<Seq<char>> {
    match staged {
        Some(p) if trim(p@).len() > 0 => Some(p@),
        _ => match current {
            Some(c) => Some(c@),
            None => None,
        },
    }
}

pub open spec fn secret_same(a: Option<SecretString>, b: Option<SecretString>) -> bool {
    match (a, b) {
        (Some(x), Some(y)) => x.spec_value() == y.spec_value(),
        (None, None) => true,
        _ => false,
    }
}

fn copy_secret(s: &Option<SecretString>) -> (r: Option<SecretString>)
    ensures
        secret_same(*s, r),
{
    match s {
        Some(x) => Some(x.duplicate()),
        None => None,
    }
}

impl OnboardingWizardState {
    /// Record an `auth/verify` result: verified when the server accepted
    /// the code, and its token kept when it sent one.
    pub fn apply_auth_verify(&mut self, result: &AuthVerifyResult)
        ensures
            final(self).auth_verified == result.ok,
            match result.token {
                Some(t) => final(self).auth_token matches Some(k) && k.spec_value() == t.spec_value(),
                None => final(self).auth_token == old(self).auth_token,
            },
            final(self).profile_id == old(self).profile_id,
    {
        self.auth_verified = result.ok;
        if let Some(token) = &result.token {
            self.auth_token = Some(token.duplicate());
        }
    }

    /// Record an `auth/me` result: when it names a profile, that profile
    /// is taken and the user counts as verified; otherwise nothing changes.
    pub fn apply_auth_me(&mut self, result: &AuthMeResult)
        ensures
            match spec_auth_me_profile_id(*result) {
                Some(id) => final(self).profile_id matches Some(p) && p@ == id && final(self).auth_verified,
                None => final(self).profile_id == old(self).profile_id
                    && final(self).auth_verified == old(self).auth_verified,
            },
    {
        if let Some(profile_id) = auth_me_profile_id(result) {
            self.profile_id = Some(String::from_str(profile_id));
            self.auth_verified = true;
        }
    }

    /// The parameters to save the staged provider as the primary one, once
    /// the selection is ready.
    pub fn build_upsert_params(&self, current_profile: Option<&str>) -> (r: Option<ProfileLlmUpsertParams>)
        ensures
            r is Some <==> self.spec_selection_ready(),
            r matches Some(p) ==> opt_string_view(p.profile_id) == spec_effective_profile_id(self.profile_id, current_profile)
                && selection_same(self.provider, p.selection) && secret_same(self.api_key, p.api_key)
                && p.set_primary,
    {
        self.build_upsert_params_with_primary(current_profile, true)
    }

    /// The parameters to save the staged provider as a fallback, once the
    /// selection is ready.
    pub fn build_fallback_upsert_params(&self, current_profile: Option<&str>) -> (r: Option<ProfileLlmUpsertParams>)
        ensures
            r is Some <==> self.spec_selection_ready(),
            r matches Some(p) ==> opt_string_view(p.profile_id) == spec_effective_profile_id(self.profile_id, current_profile)
                && selection_same(self.provider, p.selection) && secret_same(self.api_key, p.api_key)
                && !p.set_primary,
    {
        self.build_upsert_params_with_primary(current_profile, false)
    }

    fn build_upsert_params_with_primary(&self, current_profile: Option<&str>, set_primary: bool) -> (r: Option<
        ProfileLlmUpsertParams,
    >)
        ensures
            r is Some <==> self.spec_selection_ready(),
            r matches Some(p) ==> opt_string_view(p.profile_id) == spec_effective_profile_id(self.profile_id, current_profile)
                && selection_same(self.provider, p.selection) && secret_same(self.api_key, p.api_key)
                && p.set_primary == set_primary,
    {
        if self.selection_ready() {
            Some(ProfileLlmUpsertParams {
                profile_id: self.effective_profile_id(current_profile),
                selection: self.provider.duplicate(),
                api_key: copy_secret(&self.api_key),
                set_primary,
            })
        } else {
            None
        }
    }

    /// The parameters to test the staged provider, once the selection is
    /// ready.
    pub fn build_test_params(&self, current_profile: Option<&str>) -> (r: Option<ProfileLlmTestParams>)
        ensures
            r is Some <==> self.spec_selection_ready(),
            r matches Some(p) ==> opt_string_view(p.profile_id) == spec_effective_profile_id(self.profile_id, current_profile)
                && selection_same(self.provider, p.selection) && secret_same(self.api_key, p.api_key),
    {
        if self.selection_ready() {
            Some(ProfileLlmTestParams {
                profile_id: self.effective_profile_id(current_profile),
                selection: self.provider.duplicate(),
                api_key: copy_secret(&self.api_key),
            })
        } else {
            None
        }
    }

    /// The parameters to list the staged provider's models, once the
    /// selection is ready.
    pub fn build_fetch_models_params(&self, current_profile: Option<&str>) -> (r: Option<ProfileLlmFetchModelsParams>)
        ensures
            r is Some <==> self.spec_selection_ready(),
            r matches Some(p) ==> opt_string_view(p.profile_id) == spec_effective_profile_id(self.profile_id, current_profile)
                && selection_same(self.provider, p.selection) && secret_same(self.api_key, p.api_key),
    {
        if self.selection_ready() {
            Some(ProfileLlmFetchModelsParams {
                profile_id: self.effective_profile_id(current_profile),
                selection: self.provider.duplicate(),
                api_key: copy_secret(&self.api_key),
            })
        } else {
            None
        }
    }
}

} // verus!

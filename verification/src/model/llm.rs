//! The model providers configured on a profile, as `profile/llm/list` and
//! the mutations report them, and how they show in the model list.

use vstd::prelude::*;
use crate::text::{trim, opt_string_view, copy_opt_string};
use crate::json::{JsonValue, opt_json_same, copy_opt_json, str_eq};
use crate::model::onboarding::{LlmRouteConfig, route_same, non_empty};
use crate::model::protocol_types::{ModelStatus, RuntimePolicyStamp, stamp_same};

verus! {

/// One configured provider: which family and model, how it is reached,
/// and whether it is selected.
#[derive(Debug)]
pub struct LlmConfiguredProvider {
    pub provider: String,
    pub model: String,
    pub family_id: Option<String>,
    pub model_id: Option<String>,
    pub route: Option<LlmRouteConfig>,
    pub route_id: Option<String>,
    pub base_url: Option<String>,
    pub api_key_env: Option<String>,
    pub has_api_key: bool,
    pub selected: bool,
    pub available: Option<bool>,
    pub model_hints: Option<JsonValue>,
    pub cost_per_m: Option<JsonValue>,
    pub strong: Option<bool>,
}

/// The primary provider and the fallbacks, as the nested `llm` block
/// carries them.
#[derive(Debug)]
pub struct LlmProfileState {
    pub primary: Option<LlmConfiguredProvider>,
    pub fallbacks: Vec<LlmConfiguredProvider>,
}

/// Result of `profile/llm/list`.
#[derive(Debug)]
pub struct ProfileLlmListResult {
    pub profile_id: Option<String>,
    pub primary: Option<LlmConfiguredProvider>,
    pub fallbacks: Vec<LlmConfiguredProvider>,
    pub llm: Option<LlmProfileState>,
    pub runtime_policy_stamp: Option<RuntimePolicyStamp>,
}

/// Result of a provider mutation (upsert, delete, select, test).
#[derive(Debug)]
pub struct ProfileLlmMutationResult {
    pub profile_id: Option<String>,
    pub primary: Option<LlmConfiguredProvider>,
    pub fallbacks: Vec<LlmConfiguredProvider>,
    pub applied: bool,
    pub llm: Option<LlmProfileState>,
    pub runtime_policy_stamp: Option<RuntimePolicyStamp>,
    pub message: Option<String>,
    pub error: Option<String>,
}

/// `first` unless it is blank, else `fallback`, else `default`.
pub open spec fn first_non_blank(first: Seq<char>, fallback: Option<String>, default: Seq<char>) -> Seq<char> {
    if trim(first).len() > 0 {
        first
    } else {
        match fallback {
            Some(f) => f@,
            None => default,
        }
    }
}

/// The provider's name: its provider, else its family, else `unknown`.
pub open spec fn provider_label(p: LlmConfiguredProvider) -> Seq<char> {
    first_non_blank(p.provider@, p.family_id, "unknown"@)
}

/// The model's name: its model, else its model id, else `unknown`.
pub open spec fn model_label(p: LlmConfiguredProvider) -> Seq<char> {
    first_non_blank(p.model@, p.model_id, "unknown"@)
}

/// The route: the explicit route id, else a non-blank id of the route.
pub open spec fn route_label(p: LlmConfiguredProvider) -> Option<Seq<char>> {
    match p.route_id {
        Some(r) => Some(r@),
        None => match p.route {
            Some(rc) => if trim(rc.route_id@).len() > 0 { Some(rc.route_id@) } else { None },
            None => None,
        },
    }
}

/// `s` is how provider `p` shows in the model list: its model id (else
/// the model name), its provider name, the title `provider / model`, its
/// family and route, and its selection and availability.
pub open spec fn is_status_of(p: LlmConfiguredProvider, s: ModelStatus) -> bool {
    &&& s.model@ == (match p.model_id {
        Some(m) => m@,
        None => model_label(p),
    })
    &&& s.provider@ == provider_label(p)
    &&& s.title matches Some(t) && t@ == provider_label(p) + " / "@ + model_label(p)
    &&& opt_string_view(s.family) == opt_string_view(p.family_id)
    &&& opt_string_view(s.route) == route_label(p)
    &&& s.selected == p.selected
    &&& s.available == p.available
    &&& s.queue_mode is None
    &&& s.qoe_policy is None
}

/// Whether two providers hold the same configuration.
pub open spec fn provider_same(a: LlmConfiguredProvider, b: LlmConfiguredProvider) -> bool {
    &&& a.provider@ == b.provider@
    &&& a.model@ == b.model@
    &&& opt_string_view(a.family_id) == opt_string_view(b.family_id)
    &&& opt_string_view(a.model_id) == opt_string_view(b.model_id)
    &&& match (a.route, b.route) {
        (Some(x), Some(y)) => route_same(x, y),
        (None, None) => true,
        _ => false,
    }
    &&& opt_string_view(a.route_id) == opt_string_view(b.route_id)
    &&& opt_string_view(a.base_url) == opt_string_view(b.base_url)
    &&& opt_string_view(a.api_key_env) == opt_string_view(b.api_key_env)
    &&& a.has_api_key == b.has_api_key
    &&& a.selected == b.selected
    &&& a.available == b.available
    &&& opt_json_same(a.model_hints, b.model_hints)
    &&& opt_json_same(a.cost_per_m, b.cost_per_m)
    &&& a.strong == b.strong
}

pub open spec fn opt_provider_same(a: Option<LlmConfiguredProvider>, b: Option<LlmConfiguredProvider>) -> bool {
    match (a, b) {
        (Some(x), Some(y)) => provider_same(x, y),
        (None, None) => true,
        _ => false,
    }
}

pub open spec fn providers_same(a: Seq<LlmConfiguredProvider>, b: Seq<LlmConfiguredProvider>) -> bool {
    a.len() == b.len() && forall|i: int| 0 <= i < a.len() ==> provider_same(#[trigger] a[i], b[i])
}

pub open spec fn state_same(a: Option<LlmProfileState>, b: Option<LlmProfileState>) -> bool {
    match (a, b) {
        (Some(x), Some(y)) => opt_provider_same(x.primary, y.primary) && providers_same(x.fallbacks@, y.fallbacks@),
        (None, None) => true,
        _ => false,
    }
}

pub open spec fn opt_stamp_same(a: Option<RuntimePolicyStamp>, b: Option<RuntimePolicyStamp>) -> bool {
    match (a, b) {
        (Some(x), Some(y)) => stamp_same(x, y),
        (None, None) => true,
        _ => false,
    }
}

/// The primary provider: the top-level one, else the nested one.
pub open spec fn spec_primary(primary: Option<LlmConfiguredProvider>, llm: Option<LlmProfileState>) -> Option<LlmConfiguredProvider> {
    match primary {
        Some(p) => Some(p),
        None => match llm {
            Some(s) => s.primary,
            None => None,
        },
    }
}

/// The fallbacks: the top-level list unless it is empty, else the nested
/// one.
pub open spec fn spec_fallbacks(fallbacks: Seq<LlmConfiguredProvider>, llm: Option<LlmProfileState>) -> Seq<LlmConfiguredProvider> {
    if fallbacks.len() > 0 {
        fallbacks
    } else {
        match llm {
            Some(s) => s.fallbacks@,
            None => fallbacks,
        }
    }
}

/// The providers in list order: the primary, then the fallbacks.
pub open spec fn listed_providers(primary: Option<LlmConfiguredProvider>, rest: Seq<LlmConfiguredProvider>) -> Seq<LlmConfiguredProvider> {
    match primary {
        Some(p) => seq![p] + rest,
        None => rest,
    }
}

pub open spec fn are_statuses_of(ps: Seq<LlmConfiguredProvider>, ss: Seq<ModelStatus>) -> bool {
    ps.len() == ss.len() && forall|i: int| 0 <= i < ps.len() ==> is_status_of(#[trigger] ps[i], ss[i])
}

proof fn lemma_status_respects_same(a: LlmConfiguredProvider, b: LlmConfiguredProvider, s: ModelStatus)
    requires
        provider_same(a, b),
        is_status_of(b, s),
    ensures
        is_status_of(a, s),
{
}

impl LlmConfiguredProvider {
    /// How the provider shows in the model list (see [`is_status_of`]).
    pub fn to_model_status(&self) -> (r: ModelStatus)
        ensures
            is_status_of(*self, r),
    {
        let provider = match non_empty(self.provider.clone()) {
            Some(p) => p,
            None => match &self.family_id {
                Some(f) => f.clone(),
                None => String::from_str("unknown"),
            },
        };
        let model = match non_empty(self.model.clone()) {
            Some(m) => m,
            None => match &self.model_id {
                Some(m) => m.clone(),
                None => String::from_str("unknown"),
            },
        };
        let route = match &self.route_id {
            Some(r) => Some(r.clone()),
            None => match &self.route {
                Some(rc) => non_empty(rc.route_id.clone()),
                None => None,
            },
        };
        let mut title = provider.clone();
        title.append(" / ");
        title.append(model.as_str());
        let model_name = match &self.model_id {
            Some(m) => m.clone(),
            None => model.clone(),
        };
        ModelStatus {
            model: model_name,
            provider: provider,
            title: Some(title),
            family: copy_opt_string(&self.family_id),
            route: route,
            selected: self.selected,
            available: self.available,
            queue_mode: None,
            qoe_policy: None,
        }
    }

    /// A copy of the provider.
    pub fn duplicate(&self) -> (r: Self)
        ensures
            provider_same(*self, r),
    {
        LlmConfiguredProvider {
            provider: self.provider.clone(),
            model: self.model.clone(),
            family_id: copy_opt_string(&self.family_id),
            model_id: copy_opt_string(&self.model_id),
            route: match &self.route {
                Some(r) => Some(r.duplicate()),
                None => None,
            },
            route_id: copy_opt_string(&self.route_id),
            base_url: copy_opt_string(&self.base_url),
            api_key_env: copy_opt_string(&self.api_key_env),
            has_api_key: self.has_api_key,
            selected: self.selected,
            available: self.available,
            model_hints: copy_opt_json(&self.model_hints),
            cost_per_m: copy_opt_json(&self.cost_per_m),
            strong: self.strong,
        }
    }
}

fn copy_opt_provider(p: &Option<LlmConfiguredProvider>) -> (r: Option<LlmConfiguredProvider>)
    ensures
        opt_provider_same(*p, r),
{
    match p {
        Some(x) => Some(x.duplicate()),
        None => None,
    }
}

fn copy_providers(v: &Vec<LlmConfiguredProvider>) -> (r: Vec<LlmConfiguredProvider>)
    ensures
        providers_same(v@, r@),
{
    let mut out: Vec<LlmConfiguredProvider> = Vec::new();
    let mut i: usize = 0;
    while i < v.len()
        invariant
            i <= v@.len(),
            out@.len() == i,
            forall|k: int| 0 <= k < i ==> provider_same(#[trigger] v@[k], out@[k]),
        decreases v.len() - i,
    {
        out.push(v[i].duplicate());
        i += 1;
    }
    out
}

fn copy_state(s: &Option<LlmProfileState>) -> (r: Option<LlmProfileState>)
    ensures
        state_same(*s, r),
{
    match s {
        Some(x) => Some(LlmProfileState { primary: copy_opt_provider(&x.primary), fallbacks: copy_providers(&x.fallbacks) }),
        None => None,
    }
}

/// The statuses of the primary provider (if any) followed by the
/// fallbacks.
fn statuses(primary: Option<&LlmConfiguredProvider>, rest: &[LlmConfiguredProvider]) -> (r: Vec<ModelStatus>)
    ensures
        are_statuses_of(
            listed_providers(
                match primary {
                    Some(p) => Some(*p),
                    None => None,
                },
                rest@,
            ),
            r@,
        ),
{
    let mut out: Vec<ModelStatus> = Vec::new();
    let ghost head: Seq<LlmConfiguredProvider> = match primary {
        Some(p) => seq![*p],
        None => Seq::empty(),
    };
    if let Some(p) = primary {
        out.push(p.to_model_status());
    }
    let mut i: usize = 0;
    while i < rest.len()
        invariant
            i <= rest@.len(),
            out@.len() == head.len() + i,
            are_statuses_of(head + rest@.take(i as int), out@),
        decreases rest.len() - i,
    {
        let s = rest[i].to_model_status();
        let ghost before = out@;
        out.push(s);
        proof {
            assert(head + rest@.take(i + 1) =~= (head + rest@.take(i as int)).push(rest@[i as int]));
            assert(out@ =~= before.push(s));
        }
        i += 1;
    }
    proof {
        assert(rest@.take(rest@.len() as int) =~= rest@);
        assert(listed_providers(
            match primary {
                Some(p) => Some(*p),
                None => None,
            },
            rest@,
        ) =~= head + rest@);
    }
    out
}

impl ProfileLlmListResult {
    /// The primary provider (see [`spec_primary`]).
    pub fn primary_provider(&self) -> (r: Option<&LlmConfiguredProvider>)
        ensures
            match r {
                Some(p) => spec_primary(self.primary, self.llm) == Some(*p),
                None => spec_primary(self.primary, self.llm) is None,
            },
    {
        match &self.primary {
            Some(p) => Some(p),
            None => match &self.llm {
                Some(s) => match &s.primary {
                    Some(p) => Some(p),
                    None => None,
                },
                None => None,
            },
        }
    }

    /// The fallbacks (see [`spec_fallbacks`]).
    pub fn fallback_providers(&self) -> (r: &[LlmConfiguredProvider])
        ensures
            r@ == spec_fallbacks(self.fallbacks@, self.llm),
    {
        if self.fallbacks.len() > 0 {
            self.fallbacks.as_slice()
        } else {
            match &self.llm {
                Some(s) => s.fallbacks.as_slice(),
                None => self.fallbacks.as_slice(),
            }
        }
    }

    /// The model list: the primary provider, then the fallbacks.
    pub fn models(&self) -> (r: Vec<ModelStatus>)
        ensures
            are_statuses_of(
                listed_providers(spec_primary(self.primary, self.llm), spec_fallbacks(self.fallbacks@, self.llm)),
                r@,
            ),
    {
        statuses(self.primary_provider(), self.fallback_providers())
    }
}

impl ProfileLlmMutationResult {
    /// The same providers as a list result.
    pub fn to_list_result(&self) -> (r: ProfileLlmListResult)
        ensures
            opt_string_view(r.profile_id) == opt_string_view(self.profile_id),
            opt_provider_same(self.primary, r.primary),
            providers_same(self.fallbacks@, r.fallbacks@),
            state_same(self.llm, r.llm),
            opt_stamp_same(self.runtime_policy_stamp, r.runtime_policy_stamp),
    {
        ProfileLlmListResult {
            profile_id: copy_opt_string(&self.profile_id),
            primary: copy_opt_provider(&self.primary),
            fallbacks: copy_providers(&self.fallbacks),
            llm: copy_state(&self.llm),
            runtime_policy_stamp: match &self.runtime_policy_stamp {
                Some(s) => Some(s.duplicate()),
                None => None,
            },
        }
    }

    /// The model list of the mutated profile: the primary provider, then
    /// the fallbacks.
    pub fn models(&self) -> (r: Vec<ModelStatus>)
        ensures
            are_statuses_of(
                listed_providers(spec_primary(self.primary, self.llm), spec_fallbacks(self.fallbacks@, self.llm)),
                r@,
            ),
    {
        let list = self.to_list_result();
        let r = list.models();
        proof {
            let mine = listed_providers(spec_primary(self.primary, self.llm), spec_fallbacks(self.fallbacks@, self.llm));
            let theirs = listed_providers(spec_primary(list.primary, list.llm), spec_fallbacks(list.fallbacks@, list.llm));
            assert(mine.len() == theirs.len());
            assert forall|i: int| 0 <= i < mine.len() implies is_status_of(#[trigger] mine[i], r@[i]) by {
                assert(provider_same(mine[i], theirs[i]));
                lemma_status_respects_same(mine[i], theirs[i], r@[i]);
            }
        }
        r
    }
}

/// Result of `profile/llm/catalog`: the model families by id.
#[derive(Debug)]
pub struct ProfileLlmCatalogResult {
    pub families: Vec<(String, JsonValue)>,
}

/// Index of the first member named `key`.
pub open spec fn member_index(fields: Seq<(String, JsonValue)>, key: Seq<char>, j: int) -> Option<int>
    decreases fields.len() - j,
{
    if j < 0 || j >= fields.len() {
        None
    } else if fields[j].0@ == key {
        Some(j)
    } else {
        member_index(fields, key, j + 1)
    }
}

/// The families a catalog reply carries: the members of its `families`
/// object; else, when `families` is missing or not an object, the
/// top-level members without it; nothing for a reply that is not an
/// object.
pub open spec fn spec_catalog_families(value: JsonValue) -> Seq<(String, JsonValue)> {
    match value {
        JsonValue::Object(fields, _) => match member_index(fields@, "families"@, 0) {
            Some(i) => match fields@[i].1 {
                JsonValue::Object(inner, _) => inner@,
                _ => fields@.remove(i),
            },
            None => fields@,
        },
        _ => Seq::empty(),
    }
}

impl ProfileLlmCatalogResult {
    /// Read a catalog reply (see [`spec_catalog_families`]).
    pub fn from_json(value: JsonValue) -> (r: Self)
        ensures
            r.families@ == spec_catalog_families(value),
    {
        match value {
            JsonValue::Object(fields, _text) => {
                let ghost orig = fields@;
                let mut fields = fields;
                let mut i: usize = 0;
                while i < fields.len() && !str_eq(fields[i].0.as_str(), "families")
                    invariant
                        i <= fields@.len(),
                        fields@ == orig,
                        member_index(orig, "families"@, 0) == member_index(orig, "families"@, i as int),
                    decreases fields.len() - i,
                {
                    i += 1;
                }
                if i == fields.len() {
                    return ProfileLlmCatalogResult { families: fields };
                }
                let (_key, member) = fields.remove(i);
                match member {
                    JsonValue::Object(inner, _) => ProfileLlmCatalogResult { families: inner },
                    _ => ProfileLlmCatalogResult { families: fields },
                }
            },
            _ => ProfileLlmCatalogResult { families: Vec::new() },
        }
    }
}

} // verus!

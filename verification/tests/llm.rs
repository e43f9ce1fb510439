use octos_tui::transport::{auth_me_event, auth_verify_event};
use octos_tui::json::{json_clone, JsonNumber, JsonValue};
use octos_tui::model::auth::{auth_me_email, auth_me_profile_id, AppUiAuthToken, AuthMeResult, AuthVerifyResult, SecretString};
use octos_tui::model::llm::{
    LlmConfiguredProvider, LlmProfileState, ProfileLlmCatalogResult, ProfileLlmListResult, ProfileLlmMutationResult,
};
use octos_tui::model::onboarding::{LlmRouteConfig, OnboardingWizardState};
use serde_json::Value;

fn to_json(v: &Value) -> JsonValue {
    match v {
        Value::Null => JsonValue::Null,
        Value::Bool(b) => JsonValue::Bool(*b),
        Value::Number(n) => JsonValue::Number(JsonNumber { repr: n.to_string(), integral: n.is_i64() || n.is_u64() }),
        Value::String(s) => JsonValue::String(s.clone()),
        Value::Array(items) => JsonValue::Array(items.iter().map(to_json).collect(), v.to_string()),
        Value::Object(map) => JsonValue::Object(map.iter().map(|(k, x)| (k.clone(), to_json(x))).collect(), v.to_string()),
    }
}

fn json(text: &str) -> JsonValue {
    to_json(&serde_json::from_str::<Value>(text).expect("test JSON"))
}

fn provider(provider: &str, model: &str) -> LlmConfiguredProvider {
    LlmConfiguredProvider {
        provider: provider.to_string(),
        model: model.to_string(),
        family_id: None,
        model_id: None,
        route: None,
        route_id: None,
        base_url: None,
        api_key_env: None,
        has_api_key: false,
        selected: false,
        available: None,
        model_hints: None,
        cost_per_m: None,
        strong: None,
    }
}

#[test]
fn provider_status_prefers_explicit_names_and_falls_back() {
    let mut p = provider("openai", "gpt-4o");
    p.selected = true;
    p.available = Some(true);
    let s = p.to_model_status();
    assert_eq!(s.model, "gpt-4o");
    assert_eq!(s.provider, "openai");
    assert_eq!(s.title.as_deref(), Some("openai / gpt-4o"));
    assert!(s.selected);
    assert_eq!(s.available, Some(true));
    assert_eq!(s.route, None);

    let mut blank = provider("  ", "");
    blank.family_id = Some("anthropic".to_string());
    blank.model_id = Some("sonnet-x".to_string());
    blank.route = Some(LlmRouteConfig {
        route_id: "primary".to_string(),
        label: None,
        base_url: None,
        api_key_env: None,
        api_type: None,
    });
    let s = blank.to_model_status();
    assert_eq!(s.provider, "anthropic");
    assert_eq!(s.model, "sonnet-x");
    assert_eq!(s.title.as_deref(), Some("anthropic / sonnet-x"));
    assert_eq!(s.family.as_deref(), Some("anthropic"));
    assert_eq!(s.route.as_deref(), Some("primary"));

    let unknown = provider("", "").to_model_status();
    assert_eq!(unknown.title.as_deref(), Some("unknown / unknown"));
    assert_eq!(unknown.model, "unknown");
}

#[test]
fn explicit_route_id_wins_and_model_id_names_the_model() {
    let mut p = provider("openai", "display name");
    p.model_id = Some("gpt-x".to_string());
    p.route_id = Some("r1".to_string());
    let s = p.to_model_status();
    assert_eq!(s.model, "gpt-x");
    assert_eq!(s.title.as_deref(), Some("openai / display name"));
    assert_eq!(s.route.as_deref(), Some("r1"));
}

#[test]
fn model_list_is_primary_then_fallbacks_from_either_place() {
    let flat = ProfileLlmListResult {
        profile_id: None,
        primary: Some(provider("a", "m1")),
        fallbacks: vec![provider("b", "m2")],
        llm: None,
        runtime_policy_stamp: None,
    };
    let names: Vec<String> = flat.models().into_iter().map(|s| s.provider).collect();
    assert_eq!(names, vec!["a", "b"]);

    let nested = ProfileLlmListResult {
        profile_id: None,
        primary: None,
        fallbacks: Vec::new(),
        llm: Some(LlmProfileState { primary: Some(provider("c", "m3")), fallbacks: vec![provider("d", "m4"), provider("e", "m5")] }),
        runtime_policy_stamp: None,
    };
    assert_eq!(nested.primary_provider().map(|p| p.provider.as_str()), Some("c"));
    assert_eq!(nested.fallback_providers().len(), 2);
    let names: Vec<String> = nested.models().into_iter().map(|s| s.provider).collect();
    assert_eq!(names, vec!["c", "d", "e"]);

    let empty = ProfileLlmListResult { profile_id: None, primary: None, fallbacks: Vec::new(), llm: None, runtime_policy_stamp: None };
    assert!(empty.models().is_empty());
}

#[test]
fn mutation_result_lists_its_providers() {
    let mut hinted = provider("b", "m2");
    hinted.model_hints = Some(json(r#"{"context":128000,"tags":["fast"]}"#));
    let mutation = ProfileLlmMutationResult {
        profile_id: Some("p1".to_string()),
        primary: Some(provider("a", "m1")),
        fallbacks: vec![hinted],
        applied: true,
        llm: None,
        runtime_policy_stamp: None,
        message: Some("saved".to_string()),
        error: None,
    };
    let list = mutation.to_list_result();
    assert_eq!(list.profile_id.as_deref(), Some("p1"));
    assert_eq!(list.fallbacks.len(), 1);
    assert!(matches!(&list.fallbacks[0].model_hints, Some(JsonValue::Object(fields, _)) if fields.len() == 2));
    let titles: Vec<Option<String>> = mutation.models().into_iter().map(|s| s.title).collect();
    assert_eq!(titles, vec![Some("a / m1".to_string()), Some("b / m2".to_string())]);
}

#[test]
fn json_copies_keep_every_member() {
    let v = json(r#"{"a":[1,2.5,"x",null,true],"b":{"c":"d"}}"#);
    let c = json_clone(&v);
    match (&v, &c) {
        (JsonValue::Object(xs, t), JsonValue::Object(ys, u)) => {
            assert_eq!(t, u);
            assert_eq!(xs.len(), ys.len());
            assert_eq!(xs[0].0, ys[0].0);
        }
        _ => panic!("expected objects"),
    }
}

#[test]
fn catalog_reads_families_or_the_bare_map() {
    let wrapped = ProfileLlmCatalogResult::from_json(json(r#"{"families":{"openai":{},"anthropic":{}}}"#));
    let ids: Vec<&str> = wrapped.families.iter().map(|(k, _)| k.as_str()).collect();
    assert_eq!(ids, vec!["anthropic", "openai"]);
    let bare = ProfileLlmCatalogResult::from_json(json(r#"{"openai":{}}"#));
    assert_eq!(bare.families.len(), 1);
    let odd = ProfileLlmCatalogResult::from_json(json(r#"{"families":3,"openai":{}}"#));
    let ids: Vec<&str> = odd.families.iter().map(|(k, _)| k.as_str()).collect();
    assert_eq!(ids, vec!["openai"]);
    assert!(ProfileLlmCatalogResult::from_json(json("[1]")).families.is_empty());
}

#[test]
fn auth_me_reads_both_shapes() {
    let dashboard = AuthMeResult::Dashboard {
        user: json(r#"{"email":"ada@example.com","profile_id":"from-user"}"#),
        profile: Some(json(r#"{"profile":{"id":"nested"},"id":"flat"}"#)),
        portal: JsonValue::Null,
    };
    assert_eq!(auth_me_email(&dashboard), Some("ada@example.com"));
    assert_eq!(auth_me_profile_id(&dashboard), Some("nested"));
    let flat = AuthMeResult::Dashboard {
        user: json(r#"{"profile_id":"from-user"}"#),
        profile: Some(json(r#"{"id":"flat"}"#)),
        portal: JsonValue::Null,
    };
    assert_eq!(auth_me_profile_id(&flat), Some("flat"));
    assert_eq!(auth_me_email(&flat), None);
    let user_only = AuthMeResult::Dashboard { user: json(r#"{"profile_id":"from-user"}"#), profile: None, portal: JsonValue::Null };
    assert_eq!(auth_me_profile_id(&user_only), Some("from-user"));
    let legacy = AuthMeResult::Legacy { email: Some("x@y.z".to_string()), profile_id: None };
    assert_eq!(auth_me_email(&legacy), Some("x@y.z"));
    assert_eq!(auth_me_profile_id(&legacy), None);
}

#[test]
fn wizard_applies_verify_and_me() {
    let mut w = OnboardingWizardState::default();
    w.apply_auth_verify(&AuthVerifyResult {
        ok: true,
        token: Some(AppUiAuthToken::new("tok".to_string())),
        user: None,
        message: None,
    });
    assert!(w.auth_verified);
    assert_eq!(w.auth_token.as_ref().map(|t| t.expose_for_transport()), Some("tok"));
    w.apply_auth_verify(&AuthVerifyResult { ok: false, token: None, user: None, message: None });
    assert!(!w.auth_verified);
    assert_eq!(w.auth_token.as_ref().map(|t| t.expose_for_transport()), Some("tok"));
    w.apply_auth_me(&AuthMeResult::Legacy { email: None, profile_id: None });
    assert!(!w.auth_verified);
    w.apply_auth_me(&AuthMeResult::Legacy { email: None, profile_id: Some("prof".to_string()) });
    assert!(w.auth_verified);
    assert_eq!(w.profile_id.as_deref(), Some("prof"));
}

#[test]
fn provider_params_need_a_ready_selection() {
    let mut w = OnboardingWizardState::default();
    assert!(w.build_upsert_params(Some("cur")).is_none());
    assert!(w.build_test_params(None).is_none());
    w.provider.family_id = "openai".to_string();
    w.provider.model_id = "gpt-4o".to_string();
    w.provider.route.route_id = "default".to_string();
    w.api_key = Some(SecretString::new("sk-x".to_string()));
    let up = w.build_upsert_params(Some("cur")).expect("ready");
    assert_eq!(up.profile_id.as_deref(), Some("cur"));
    assert_eq!(up.selection.model_id, "gpt-4o");
    assert_eq!(up.api_key.as_ref().map(|k| k.expose_for_transport()), Some("sk-x"));
    assert!(up.set_primary);
    assert!(!w.build_fallback_upsert_params(None).expect("ready").set_primary);
    w.profile_id = Some("staged".to_string());
    assert_eq!(w.build_test_params(Some("cur")).expect("ready").profile_id.as_deref(), Some("staged"));
    assert_eq!(w.build_fetch_models_params(None).expect("ready").selection.family_id, "openai");
}

#[test]
fn auth_events_say_what_happened() {
    let verified = auth_verify_event(AuthVerifyResult { ok: true, token: None, user: None, message: None });
    assert_eq!(verified.message, "OTP verified");
    let failed = auth_verify_event(AuthVerifyResult { ok: false, token: None, user: None, message: None });
    assert_eq!(failed.message, "OTP verify failed");
    let told = auth_verify_event(AuthVerifyResult { ok: false, token: None, user: None, message: Some("expired".to_string()) });
    assert_eq!(told.message, "expired");

    let me = auth_me_event(AuthMeResult::Legacy { email: Some("x@y.z".to_string()), profile_id: Some("p1".to_string()) });
    assert_eq!(me.message, "Authenticated account: x@y.z (p1)");
    let unknown = auth_me_event(AuthMeResult::Legacy { email: None, profile_id: None });
    assert_eq!(unknown.message, "Authenticated account: unknown account (no profile)");
    let dashboard = auth_me_event(AuthMeResult::Dashboard {
        user: json(r#"{"email":"ada@example.com"}"#),
        profile: Some(json(r#"{"profile":{"id":"nested"}}"#)),
        portal: JsonValue::Null,
    });
    assert_eq!(dashboard.message, "Authenticated account: ada@example.com (nested)");
}

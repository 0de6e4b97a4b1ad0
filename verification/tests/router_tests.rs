use openmusic::error::AIError;
use openmusic::router::{AIProviderManager, AttemptOutcome};
use openmusic::types::{AIConfig, AIResponse};

fn manager_with(names: &[&str], default: &str) -> AIProviderManager {
    AIProviderManager {
        providers: names.iter().map(|n| n.to_string()).collect(),
        default_provider: default.to_string(),
    }
}

fn response(content: &str, provider: &str, tokens: Option<u32>) -> AIResponse {
    AIResponse { content: content.to_string(), provider: provider.to_string(), tokens }
}

#[test]
fn default_config_registers_proxy_only() {
    let m = AIProviderManager::new(AIConfig::default());
    assert_eq!(m.list_providers(), vec!["cliproxyapi".to_string()]);
    assert_eq!(m.get_default_provider(), "cliproxyapi");
}

#[test]
fn openai_key_registers_fallback() {
    let mut config = AIConfig::default();
    config.openai_api_key = Some("sk-test".to_string());
    let m = AIProviderManager::new(config);
    assert_eq!(m.list_providers(), vec!["cliproxyapi".to_string(), "openai".to_string()]);
}

#[test]
fn empty_openai_key_is_ignored() {
    let mut config = AIConfig::default();
    config.openai_api_key = Some(String::new());
    let m = AIProviderManager::new(config);
    assert_eq!(m.list_providers(), vec!["cliproxyapi".to_string()]);
}

#[test]
fn first_available_adapter_wins() {
    let m = manager_with(&["a", "b", "c"], "a");
    let outcomes = vec![
        AttemptOutcome::Succeeded(response("from a", "a", None)),
        AttemptOutcome::Succeeded(response("from b", "b", None)),
        AttemptOutcome::Failed(AIError::ApiError("boom".to_string())),
    ];
    let got = m.complete(&outcomes).expect("first adapter should answer");
    assert_eq!(got.content, "from a");
    assert_eq!(got.provider, "a");
}

#[test]
fn default_is_tried_first() {
    let m = manager_with(&["a", "b"], "b");
    let outcomes = vec![
        AttemptOutcome::Succeeded(response("from a", "a", None)),
        AttemptOutcome::Succeeded(response("from b", "b", None)),
    ];
    let got = m.complete(&outcomes).expect("default should answer");
    assert_eq!(got.provider, "b");
    assert_eq!(m.trial_order(), vec![1, 0]);
}

#[test]
fn unavailable_adapter_is_skipped_and_later_one_never_invoked() {
    let m = manager_with(&["a", "b", "c"], "a");
    let session = m.begin_complete().expect("providers registered");
    let mut session = session;
    assert_eq!(session.current_candidate().as_deref(), Some("a"));
    assert!(session.report(AttemptOutcome::Unavailable).is_none());
    assert_eq!(session.current_candidate().as_deref(), Some("b"));
    let done = session
        .report(AttemptOutcome::Succeeded(response("from b", "b", Some(3))))
        .expect("a success decides the call");
    let got = done.expect("the decided result is the success");
    assert_eq!(got.content, "from b");
    // The session never surfaced "c": the call was decided before it.
}

#[test]
fn fallback_passes_hard_failure() {
    let m = manager_with(&["a", "b"], "a");
    let outcomes = vec![
        AttemptOutcome::Failed(AIError::ApiError("x".to_string())),
        AttemptOutcome::Succeeded(response("from b", "b", None)),
    ];
    let got = m.complete(&outcomes).expect("second adapter should answer");
    assert_eq!(got.provider, "b");
}

#[test]
fn all_unavailable_lists_every_adapter_in_order() {
    let m = manager_with(&["alpha", "beta", "gamma"], "alpha");
    let outcomes = vec![
        AttemptOutcome::Unavailable,
        AttemptOutcome::Unavailable,
        AttemptOutcome::Unavailable,
    ];
    let err = m.complete(&outcomes).expect_err("nothing was tried");
    let text = err.message();
    assert_eq!(
        text,
        "Provider not available: All providers failed: \
         alpha (unavailable) → beta (unavailable) → gamma (unavailable)"
    );
    let a = text.find("alpha").unwrap();
    let b = text.find("beta").unwrap();
    let c = text.find("gamma").unwrap();
    assert!(a < b && b < c);
}

#[test]
fn exhausted_order_fails_with_last_error() {
    let m = manager_with(&["a", "b"], "a");
    let outcomes = vec![
        AttemptOutcome::Failed(AIError::ApiError("first".to_string())),
        AttemptOutcome::Failed(AIError::Network("second".to_string())),
    ];
    let err = m.complete(&outcomes).expect_err("every adapter failed");
    assert_eq!(err.message(), "Network error: second");
}

#[test]
fn empty_registration_fails_immediately() {
    let m = manager_with(&[], "a");
    let outcomes: Vec<AttemptOutcome> = Vec::new();
    let err = m.complete(&outcomes).expect_err("no providers configured");
    assert_eq!(err.message(), "Provider not available: No providers configured");
}

#[test]
fn duplicate_registration_is_rejected() {
    let mut m = AIProviderManager::new(AIConfig::default());
    m.register_provider("local".to_string()).expect("new name");
    let err = m.register_provider("local".to_string()).expect_err("duplicate");
    assert_eq!(err.message(), "Invalid configuration: Provider 'local' is already registered");
    let err = m.register_provider("cliproxyapi".to_string()).expect_err("duplicate of built-in");
    assert_eq!(
        err.message(),
        "Invalid configuration: Provider 'cliproxyapi' is already registered"
    );
    assert_eq!(m.list_providers(), vec!["cliproxyapi".to_string(), "local".to_string()]);
}

#[test]
fn set_default_to_unknown_name_fails_and_keeps_default() {
    let mut m = manager_with(&["a", "b"], "a");
    let err = m.set_default_provider("ghost".to_string()).expect_err("no adapter named ghost");
    assert_eq!(err.message(), "Provider not available: Provider 'ghost' not found");
    assert_eq!(m.get_default_provider(), "a");
}

#[test]
fn set_default_to_known_name_succeeds() {
    let mut m = manager_with(&["a", "b"], "a");
    m.set_default_provider("b".to_string()).expect("b is registered");
    assert_eq!(m.get_default_provider(), "b");
}

#[test]
fn availability_query_of_unknown_name_is_false() {
    let m = manager_with(&["a", "b"], "a");
    let probes = vec![true, true];
    assert!(!m.is_provider_available("ghost", &probes));
    assert!(m.is_provider_available("b", &probes));
    let probes = vec![true, false];
    assert!(!m.is_provider_available("b", &probes));
}

#[test]
fn single_adapter_scenario_returns_its_payload() {
    let m = manager_with(&["X"], "X");
    let outcomes = vec![AttemptOutcome::Succeeded(response("hello", "X", Some(7)))];
    let got = m.complete(&outcomes).expect("the one adapter answers");
    assert_eq!(got.content, "hello");
    assert_eq!(got.provider, "X");
    assert_eq!(got.tokens, Some(7));
}

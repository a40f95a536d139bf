use openrustclaw_cli::models::{
    openrouter_route_strategy, provider_key_source, provider_setup_error, resolve_model_with_fallback,
    ModelProfileSpec, ProviderKeySource, RouteStrategy,
};

fn profile(id: &str, provider: &str, model: &str, fallbacks: &[&str]) -> ModelProfileSpec {
    ModelProfileSpec {
        id: id.to_string(),
        provider: provider.to_string(),
        model: model.to_string(),
        fallback_order: fallbacks.iter().map(|s| s.to_string()).collect(),
    }
}

fn failures_without_keys(profiles: &[ModelProfileSpec]) -> Vec<Option<String>> {
    profiles
        .iter()
        .map(|p| provider_setup_error(&provider_key_source(&p.provider, None, None, None), false))
        .collect()
}

#[test]
fn model_resolution_uses_fallback_order() {
    let profiles = vec![profile("primary", "unsupported", "x", &["local"]), profile("local", "ollama", "llama3.1", &[])];
    let failures = failures_without_keys(&profiles);
    let resolved = resolve_model_with_fallback("primary", &profiles, &failures).expect("model");
    assert_eq!(resolved.selected_profile_id, "local");
    assert_eq!(resolved.fallback_path, vec!["primary", "local"]);
    assert_eq!(resolved.requested_profile_id, "primary");
    assert_eq!(resolved.provider, "ollama");
    assert_eq!(resolved.model, "llama3.1");
    assert_eq!(resolved.warnings, vec!["primary: unsupported provider 'unsupported'"]);
}

#[test]
fn fallback_walk_is_breadth_first_and_skips_tried_profiles() {
    let profiles = vec![
        profile("a", "anthropic", "m", &["b", "c", "a"]),
        profile("b", "openai", "m", &["a", "d"]),
        profile("c", "ollama", "local", &[]),
        profile("d", "ollama", "other", &[]),
    ];
    let failures = failures_without_keys(&profiles);
    let resolved = resolve_model_with_fallback("a", &profiles, &failures).expect("model");
    assert_eq!(resolved.selected_profile_id, "c");
    assert_eq!(resolved.fallback_path, vec!["a", "b", "c"]);
    assert_eq!(
        resolved.warnings,
        vec![
            "a: ANTHROPIC_API_KEY environment variable not set",
            "b: OPENAI_API_KEY environment variable not set"
        ]
    );
}

#[test]
fn fallback_walk_reports_unknown_and_exhausted_profiles() {
    let profiles = vec![profile("a", "openrouter", "m", &["missing"])];
    let failures = failures_without_keys(&profiles);
    let err = resolve_model_with_fallback("a", &profiles, &failures).err().unwrap();
    assert_eq!(err, "Unknown model profile 'missing'");
    let err = resolve_model_with_fallback("zzz", &profiles, &failures).err().unwrap();
    assert_eq!(err, "Unknown model profile 'zzz'");

    let looping = vec![profile("a", "gemini", "m", &["b"]), profile("b", "Nope", "m", &["a"])];
    let failures = failures_without_keys(&looping);
    let err = resolve_model_with_fallback("a", &looping, &failures).err().unwrap();
    assert_eq!(
        err,
        "Failed to resolve executable model profile 'a': a: GEMINI_API_KEY or GOOGLE_API_KEY environment variable not set; b: unsupported provider 'nope'"
    );
}

#[test]
fn provider_key_sources_follow_settings() {
    assert!(matches!(
        provider_key_source("Anthropic", None, None, None),
        ProviderKeySource::EnvVar(ref n) if n == "ANTHROPIC_API_KEY"
    ));
    assert!(matches!(
        provider_key_source("openai", None, Some("MY_OPENAI"), None),
        ProviderKeySource::EnvVar(ref n) if n == "MY_OPENAI"
    ));
    assert!(matches!(provider_key_source("OLLAMA", None, None, None), ProviderKeySource::NoKey));
    assert!(matches!(provider_key_source("google", None, None, None), ProviderKeySource::GeminiOrGoogle));
    assert!(matches!(
        provider_key_source("Mistral", None, None, None),
        ProviderKeySource::Unsupported(ref n) if n == "mistral"
    ));
    let source = provider_key_source("openrouter", None, None, Some("ROUTER_KEY"));
    assert_eq!(provider_setup_error(&source, true), None);
    assert_eq!(
        provider_setup_error(&source, false).as_deref(),
        Some("ROUTER_KEY environment variable not set")
    );
    assert_eq!(provider_setup_error(&ProviderKeySource::NoKey, false), None);
}

#[test]
fn route_strategy_names() {
    assert_eq!(openrouter_route_strategy("price"), RouteStrategy::Price);
    assert_eq!(openrouter_route_strategy("throughput"), RouteStrategy::Throughput);
    assert_eq!(openrouter_route_strategy("online"), RouteStrategy::WebSearch);
    assert_eq!(openrouter_route_strategy("web_search"), RouteStrategy::WebSearch);
    assert_eq!(openrouter_route_strategy("anything"), RouteStrategy::Quality);
}

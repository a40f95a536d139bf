use openrustclaw_cli::onboarding::{
    configured_model_for_provider, manual_model_source, model_menu, shortlist_choice, ConfiguredModels,
};
use openrustclaw_cli::probes::{
    catalog_probe, discovered_models, extract_provider_model_ids, failed_status_probe, missing_key_error,
    ollama_catalog_probe, ollama_tags_url, remote_probe_request, strip_trailing_slashes, summarize_limit_headers,
    CatalogEntry, ProbeAuth, ProbeKey, ProbeSettings,
};

fn settings() -> ProbeSettings {
    ProbeSettings {
        anthropic_key_env: None,
        anthropic_api_version: "2023-06-01".to_string(),
        openai_key_env: Some("MY_OPENAI".to_string()),
        openrouter_key_env: None,
        gemini_key_env: None,
        gemini_base_url: Some("https://gemini.example/v1//".to_string()),
        ollama_base_url: "http://localhost:11434/".to_string(),
    }
}

fn entry(id: Option<&str>, name: Option<&str>) -> CatalogEntry {
    CatalogEntry { id: id.map(|s| s.to_string()), name: name.map(|s| s.to_string()) }
}

#[test]
fn probe_requests_follow_provider_settings() {
    let s = settings();
    let a = remote_probe_request("anthropic", &s).unwrap();
    assert_eq!(a.url, "https://api.anthropic.com/v1/models");
    assert!(matches!(a.key, ProbeKey::EnvVar(ref n) if n == "ANTHROPIC_API_KEY"));
    assert!(matches!(a.auth, ProbeAuth::Bearer));
    assert_eq!(a.extra_headers, vec![("anthropic-version".to_string(), "2023-06-01".to_string())]);
    let o = remote_probe_request("openai", &s).unwrap();
    assert!(matches!(o.key, ProbeKey::EnvVar(ref n) if n == "MY_OPENAI"));
    let g = remote_probe_request("gemini", &s).unwrap();
    assert_eq!(g.url, "https://gemini.example/v1/models");
    assert!(matches!(g.auth, ProbeAuth::Header(ref h) if h == "x-goog-api-key"));
    assert_eq!(missing_key_error(&g.key), "GEMINI_API_KEY or GOOGLE_API_KEY environment variable not set");
    assert_eq!(missing_key_error(&a.key), "ANTHROPIC_API_KEY environment variable not set");
    assert!(remote_probe_request("ollama", &s).is_none());
    assert_eq!(ollama_tags_url(&s.ollama_base_url), "http://localhost:11434/api/tags");
    assert_eq!(strip_trailing_slashes("a/b///"), "a/b");
}

#[test]
fn probe_outcomes_from_answers() {
    let failed = failed_status_probe("openai", 401, "401 Unauthorized", "  bad key \n", None);
    assert!(!failed.healthy);
    assert_eq!(failed.issue_kind.as_deref(), Some("auth"));
    assert_eq!(failed.issue.as_deref(), Some("Provider `openai` health probe returned 401 Unauthorized: bad key"));

    let ids = vec!["gpt-4o".to_string(), "gpt-5".to_string()];
    let ok = catalog_probe("openai", "gpt-5", &ids, Some("x-ratelimit-remaining=9".to_string()));
    assert!(ok.healthy);
    assert_eq!(ok.model_available, Some(true));
    assert_eq!(ok.limit_snapshot.as_deref(), Some("x-ratelimit-remaining=9"));
    let missing = catalog_probe("openai", "o9", &ids, None);
    assert!(!missing.healthy);
    assert_eq!(missing.issue.as_deref(), Some("Configured model 'o9' is not listed by provider `openai`"));

    let local = ollama_catalog_probe("llama3.1", &vec!["qwen".to_string()], None);
    assert_eq!(local.issue_kind.as_deref(), Some("model_unavailable"));
    assert_eq!(local.issue.as_deref(), Some("Configured model 'llama3.1' is not listed by the local Ollama catalog"));
}

#[test]
fn catalog_entries_name_models_per_provider() {
    let entries = vec![entry(Some("m-1"), None), entry(None, Some("models/gemini-pro")), entry(Some("m-2"), Some("x"))];
    assert_eq!(extract_provider_model_ids("openai", &entries), vec!["m-1", "m-2"]);
    assert_eq!(extract_provider_model_ids("gemini", &entries), vec!["gemini-pro", "x"]);
    assert!(extract_provider_model_ids("ollama", &entries).is_empty());
    let nested = vec![entry(None, Some("models/models/flash"))];
    assert_eq!(extract_provider_model_ids("gemini", &nested), vec!["flash"]);

    let data = vec![entry(Some("b"), None), entry(Some("a"), None), entry(Some("b"), None)];
    let models = vec![entry(None, Some("llama")), entry(None, Some("models/qwen"))];
    assert_eq!(discovered_models("anthropic", &data, &models, Vec::new()), vec!["a", "b"]);
    assert_eq!(discovered_models("ollama", &data, &models, Vec::new()), vec!["llama", "models/qwen"]);
    assert_eq!(discovered_models("gemini", &data, &models, Vec::new()), vec!["llama", "qwen"]);
    assert_eq!(
        discovered_models("cursor", &data, &models, vec!["z".to_string(), "auto".to_string()]),
        vec!["auto", "z"]
    );
    assert!(discovered_models("mystery", &data, &models, Vec::new()).is_empty());
}

#[test]
fn limit_headers_are_sorted_and_joined() {
    let headers = vec![
        ("X-RateLimit-Remaining".to_string(), Some("10".to_string())),
        ("content-type".to_string(), Some("json".to_string())),
        ("anthropic-quota-left".to_string(), Some("5".to_string())),
        ("x-rate-limit-reset".to_string(), None),
    ];
    assert_eq!(
        summarize_limit_headers(&headers).as_deref(),
        Some("anthropic-quota-left=5, x-ratelimit-remaining=10")
    );
    assert!(summarize_limit_headers(&vec![("server".to_string(), Some("x".to_string()))]).is_none());
}

#[test]
fn model_menu_marks_the_recommended_model() {
    let shortlist = vec!["a".to_string(), "rec".to_string(), "c".to_string()];
    let (labels, default) = model_menu(&shortlist, "rec");
    assert_eq!(labels, vec!["a", "rec - Recommended", "c", "Enter a model manually"]);
    assert_eq!(default, 1);
    let (_, first) = model_menu(&shortlist, "zzz");
    assert_eq!(first, 0);
    assert_eq!(shortlist_choice(&shortlist, 2).as_deref(), Some("c"));
    assert!(shortlist_choice(&shortlist, 3).is_none());
    assert_eq!(manual_model_source("rec", "rec"), "recommended_fallback");
    assert_eq!(manual_model_source("mine", "rec"), "manual_entry");
    let models = ConfiguredModels {
        anthropic: "sonnet".to_string(),
        openai: "gpt".to_string(),
        codex: "codex-mini".to_string(),
        openrouter: "router".to_string(),
        gemini: "gem".to_string(),
        ollama: "llama".to_string(),
    };
    assert_eq!(configured_model_for_provider(&models, "codex"), "codex-mini");
    assert_eq!(configured_model_for_provider(&models, "cursor"), "auto");
    assert_eq!(configured_model_for_provider(&models, "other"), "");
}

use openrustclaw_cli::runtime::{
    provider_health_entry, runtime_health_report, scan_model_for_provider, ProviderHealthProbe, ProvidersSettings,
    RuntimeArtifactHealth,
};

fn providers() -> ProvidersSettings {
    ProvidersSettings {
        default_provider: "anthropic".to_string(),
        fallback_chain: vec!["openai".to_string()],
        control_plane_provider: None,
        control_plane_fallback_chain: vec!["openai".to_string(), "ollama".to_string()],
        anthropic_model: "sonnet".to_string(),
        openai_model: "gpt".to_string(),
        openrouter_model: "router".to_string(),
        gemini_model: "gem".to_string(),
        ollama_model: "llama".to_string(),
    }
}

fn probe(healthy: bool) -> ProviderHealthProbe {
    ProviderHealthProbe {
        healthy,
        issue_kind: if healthy { None } else { Some("auth".to_string()) },
        issue: None,
        model_available: Some(healthy),
        limit_snapshot: None,
    }
}

fn artifacts() -> RuntimeArtifactHealth {
    RuntimeArtifactHealth {
        artifact_count: 0,
        persona_artifact_count: 0,
        registry_path: "/ws/.claw/artifacts/registry.json".to_string(),
        model_family: "anthropic".to_string(),
        included_for_default_model: 0,
    }
}

#[test]
fn health_entries_from_probes_and_errors() {
    let p = providers();
    let ok = provider_health_entry("anthropic", &p, Ok(probe(true)));
    assert_eq!(ok.role, "primary");
    assert_eq!(ok.model, "sonnet");
    assert!(ok.configured && ok.healthy);
    assert_eq!(ok.recommendation.as_deref(), Some("configured task/runtime primary"));

    let missing = provider_health_entry("openai", &p, Err("OPENAI_API_KEY environment variable not set".to_string()));
    assert!(!missing.configured);
    assert!(!missing.healthy);
    assert_eq!(missing.issue_kind.as_deref(), Some("not_configured"));
    assert_eq!(missing.issue.as_deref(), Some("OPENAI_API_KEY environment variable not set"));
    assert_eq!(missing.role, "control_plane_fallback_1");

    let down = provider_health_entry("ollama", &p, Err("connection refused".to_string()));
    assert!(down.configured);
    assert_eq!(down.issue_kind.as_deref(), Some("probe_failed"));
    assert_eq!(scan_model_for_provider(&p, "mistral"), "");
}

#[test]
fn degraded_scan_recommends_healthy_fallback() {
    let p = providers();
    let entries = vec![
        provider_health_entry("anthropic", &p, Ok(probe(false))),
        provider_health_entry("openai", &p, Ok(probe(false))),
        provider_health_entry("ollama", &p, Ok(probe(true))),
    ];
    let report = runtime_health_report(
        "2026-01-01T00:00:00Z".to_string(),
        "config/default.toml",
        &p,
        entries,
        None,
        artifacts(),
    );
    assert_eq!(report.control_plane_provider.as_deref(), Some("anthropic"));
    assert!(report.startup_fallback_valid);
    assert!(report.degraded_control_plane_mode);
    assert_eq!(report.recommended_control_plane_provider.as_deref(), Some("ollama"));
    assert_eq!(
        report.failover_recommendations[0],
        "Use `ollama` as the current control-plane provider for onboarding, config edits, and model-switch operations."
    );
    assert_eq!(report.providers.len(), 3);
}

#[test]
fn healthy_primary_is_recommended_and_not_degraded() {
    let p = providers();
    let entries = vec![
        provider_health_entry("anthropic", &p, Ok(probe(true))),
        provider_health_entry("openai", &p, Ok(probe(false))),
        provider_health_entry("ollama", &p, Ok(probe(false))),
    ];
    let report = runtime_health_report("t".to_string(), "c", &p, entries, None, artifacts());
    assert!(!report.startup_fallback_valid);
    assert!(!report.degraded_control_plane_mode);
    assert_eq!(report.recommended_control_plane_provider.as_deref(), Some("anthropic"));
    assert!(report.failover_recommendations.iter().any(|r| r.starts_with("No healthy control-plane fallback")));

    let none_healthy = vec![provider_health_entry("anthropic", &p, Ok(probe(false)))];
    let report = runtime_health_report("t".to_string(), "c", &p, none_healthy, None, artifacts());
    assert!(report.recommended_control_plane_provider.is_none());
    assert!(!report.degraded_control_plane_mode);
}

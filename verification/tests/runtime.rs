use openrustclaw_cli::runtime::{
    build_failover_recommendations, build_runtime_operator_warnings, check_runtime_lock_free,
    classify_provider_error, classify_provider_status, control_plane_provider_order, default_model_for_provider,
    effective_control_plane_action_provider, enabled_channels, health_scan_provider_order,
    infer_gateway_network_mode, install_runtime_user_service, launchd_domain_target, parse_dotenv_entries,
    preferred_service_manager, provider_model_for, provider_recommendation, provider_runtime_role,
    render_user_launchd_service_plist, render_user_systemd_service_unit, resolve_runtime_config_path,
    runtime_backup_root_for, runtime_beacon_path_for, runtime_health_path_for, runtime_lock_path_for,
    runtime_lock_status, runtime_release_root_for, runtime_reload_state_path_for, runtime_status,
    vault_path_for, ChannelSwitches, GatewaySettings, ProvidersSettings, RuntimeHealthProviderEntry,
    RuntimeLockRecord, RuntimeServiceManager, RuntimeSettings,
};

fn providers() -> ProvidersSettings {
    ProvidersSettings {
        default_provider: "anthropic".to_string(),
        fallback_chain: vec!["openai".to_string(), "ollama".to_string()],
        control_plane_provider: Some("openrouter".to_string()),
        control_plane_fallback_chain: vec!["ollama".to_string(), "anthropic".to_string()],
        anthropic_model: "sonnet".to_string(),
        openai_model: "gpt".to_string(),
        openrouter_model: "router".to_string(),
        gemini_model: "gem".to_string(),
        ollama_model: "llama".to_string(),
    }
}

fn entry(provider: &str, healthy: bool, issue_kind: Option<&str>) -> RuntimeHealthProviderEntry {
    RuntimeHealthProviderEntry {
        provider: provider.to_string(),
        role: "x".to_string(),
        model: "m".to_string(),
        configured: true,
        healthy,
        issue_kind: issue_kind.map(|s| s.to_string()),
        recommendation: None,
        issue: None,
        model_available: None,
        limit_snapshot: None,
    }
}

#[test]
fn render_systemd_unit_uses_explicit_config_path() {
    let unit = render_user_systemd_service_unit("/tmp/openrustclaw", "/srv/ws", "config/default.toml");
    assert!(unit.contains("ExecStart=\"/tmp/openrustclaw\" start --config"));
    assert!(unit.contains("/srv/ws/config/default.toml"));
    assert!(unit.contains("WorkingDirectory=/srv/ws"));
}

#[test]
fn render_launchd_plist_uses_explicit_config_path() {
    let plist = render_user_launchd_service_plist(
        "/tmp/openrustclaw",
        "/srv/ws",
        "config/default.toml",
        "/srv/ws/.claw/logs/runtime.log",
    );
    assert!(plist.contains("<string>/tmp/openrustclaw</string>"));
    assert!(plist.contains("<string>start</string>"));
    assert!(plist.contains("<string>--config</string>"));
    assert!(plist.contains("/srv/ws/config/default.toml"));
    assert!(plist.contains("/srv/ws/.claw/logs/runtime.log"));
}

#[test]
fn runtime_status_includes_gateway_network_metadata() {
    let settings = RuntimeSettings {
        gateway: GatewaySettings {
            network_mode: "lan".to_string(),
            host: "0.0.0.0".to_string(),
            port: 19999,
            allowed_origins: vec!["https://console.example.com".to_string()],
        },
        providers: providers(),
        trusted_proxy_token_env: Some("OPENRUSTCLAW_TRUSTED_PROXY_TOKEN".to_string()),
    };
    let status = runtime_status(&settings, "/ws/config/runtime.toml", "/ws", true, false);
    assert_eq!(status.network_mode, "lan");
    assert_eq!(status.gateway_host, "0.0.0.0");
    assert_eq!(status.gateway_port, 19999);
    assert_eq!(status.allowed_origins, vec!["https://console.example.com"]);
    assert!(status.trusted_proxy_enabled);
    assert_eq!(status.control_plane_provider.as_deref(), Some("openrouter"));
    assert_eq!(status.control_plane_fallback_chain, vec!["ollama".to_string(), "anthropic".to_string()]);
    assert_eq!(status.control_plane_action_provider, "openrouter");
    assert_eq!(status.control_plane_action_model, "router");
    assert_eq!(status.vault_path, "/ws/.claw/control/runtime-vault.json");
    assert!(!status.vault_unlocked);
}

#[test]
fn runtime_lock_status_reports_active_and_stale_records() {
    let record = || RuntimeLockRecord {
        acquired_at: "t".to_string(),
        process_id: 4242,
        gateway_addr: "127.0.0.1:8080".to_string(),
        config_path: "config/default.toml".to_string(),
    };
    let active = runtime_lock_status("/ws", Some(record()), true);
    assert!(active.present);
    assert!(active.active);
    assert!(!active.stale);
    let stale = runtime_lock_status("/ws", Some(record()), false);
    assert!(stale.present);
    assert!(!stale.active);
    assert!(stale.stale);
    let absent = runtime_lock_status("/ws", None, true);
    assert!(!absent.present && !absent.active && !absent.stale);
    assert_eq!(absent.path, "/ws/.claw/control/runtime-lock.json");
}

#[test]
fn lock_held_by_live_other_process_is_refused() {
    let rec = RuntimeLockRecord {
        acquired_at: "t".to_string(),
        process_id: 7,
        gateway_addr: "127.0.0.1:1".to_string(),
        config_path: "c".to_string(),
    };
    assert!(check_runtime_lock_free("/ws", Some(&rec), true, 8).is_err());
    assert!(check_runtime_lock_free("/ws", Some(&rec), true, 7).is_ok());
    assert!(check_runtime_lock_free("/ws", Some(&rec), false, 8).is_ok());
    assert_eq!(
        check_runtime_lock_free("/ws", Some(&rec), true, 8).err().unwrap(),
        "Runtime lock is already held by pid 7 at 127.0.0.1:1; remove '/ws/.claw/control/runtime-lock.json' only if that process is gone"
    );
}

#[test]
fn runtime_paths() {
    assert_eq!(vault_path_for("/w"), "/w/.claw/control/runtime-vault.json");
    assert_eq!(runtime_health_path_for("/w"), "/w/.claw/control/runtime-health.json");
    assert_eq!(runtime_reload_state_path_for("/w"), "/w/.claw/control/runtime-reload-state.json");
    assert_eq!(runtime_beacon_path_for("/w"), "/w/.claw/control/runtime-beacon.json");
    assert_eq!(runtime_backup_root_for("/w"), "/w/.claw/runtime-backups");
    assert_eq!(runtime_release_root_for("/w"), "/w/.claw/runtime-releases");
    assert_eq!(runtime_lock_path_for("/w"), "/w/.claw/control/runtime-lock.json");
    assert_eq!(resolve_runtime_config_path("/w", "/etc/c.toml"), "/etc/c.toml");
    assert_eq!(resolve_runtime_config_path("/w", "c.toml"), "/w/c.toml");
}

#[test]
fn provider_lanes_and_roles() {
    let p = providers();
    assert_eq!(provider_model_for(&p, "gemini"), "gem");
    assert_eq!(provider_model_for(&p, "unknown"), "sonnet");
    assert_eq!(default_model_for_provider(&p), "sonnet");
    assert_eq!(effective_control_plane_action_provider(&p), "openrouter");
    let mut blank = providers();
    blank.control_plane_provider = Some("  ".to_string());
    assert_eq!(effective_control_plane_action_provider(&blank), "anthropic");
    assert_eq!(control_plane_provider_order(&p), vec!["openrouter", "ollama", "anthropic"]);
    assert_eq!(health_scan_provider_order(&p), vec!["anthropic", "openai", "ollama", "openrouter"]);
    assert_eq!(provider_runtime_role("anthropic", &p), "primary");
    assert_eq!(provider_runtime_role("openrouter", &p), "control_plane_primary");
    assert_eq!(provider_runtime_role("ollama", &p), "control_plane_fallback_1");
    assert_eq!(provider_runtime_role("openai", &p), "fallback_1");
    assert_eq!(provider_runtime_role("gemini", &p), "fallback_0");
    assert_eq!(provider_recommendation("ollama", &p).as_deref(), Some("configured control-plane fallback"));
    assert_eq!(provider_recommendation("anthropic", &p).as_deref(), Some("configured control-plane fallback"));
    assert_eq!(provider_recommendation("gemini", &p), None);
}

#[test]
fn enabled_channels_only_returns_enabled_entries() {
    let c = ChannelSwitches {
        telegram: true,
        discord: false,
        slack: true,
        whatsapp: false,
        teams: false,
        mattermost: false,
        google_chat: false,
        google_meet: false,
        gmail_pubsub: false,
        signal: false,
        matrix: false,
        imessage: true,
    };
    assert_eq!(enabled_channels(&c), vec!["telegram", "slack", "imessage"]);
}

#[test]
fn provider_issues_are_classified() {
    assert_eq!(classify_provider_status(401), "auth");
    assert_eq!(classify_provider_status(402), "billing");
    assert_eq!(classify_provider_status(404), "model_unavailable");
    assert_eq!(classify_provider_status(429), "rate_limited");
    assert_eq!(classify_provider_status(503), "provider_unavailable");
    assert_eq!(classify_provider_status(400), "probe_failed");
    assert_eq!(classify_provider_error("OPENAI_API_KEY environment variable not set"), "not_configured");
    assert_eq!(classify_provider_error("HTTP 401 Unauthorized"), "auth");
    assert_eq!(classify_provider_error("Insufficient credit"), "billing");
    assert_eq!(classify_provider_error("Rate limit reached"), "rate_limited");
    assert_eq!(classify_provider_error("model not listed"), "model_unavailable");
    assert_eq!(classify_provider_error("boom"), "probe_failed");
}

#[test]
fn failover_guidance_and_warnings() {
    let p = providers();
    let chain = control_plane_provider_order(&p);
    let entries = vec![entry("openrouter", false, Some("auth")), entry("ollama", true, None)];
    let recs = build_failover_recommendations(&p, &chain, &entries, Some("ollama"));
    assert_eq!(recs.len(), 1);
    assert!(recs[0].starts_with("Use `ollama`"));
    let warnings = build_runtime_operator_warnings(&p, &chain, &entries, Some("ollama"), None);
    assert_eq!(warnings.len(), 2);
    assert_eq!(warnings[0], "Configured control-plane provider `openrouter` is not currently healthy.");
    assert_eq!(
        warnings[1],
        "Provider `openrouter` reported an authentication or access error during the latest health scan."
    );
    let previous = vec![entry("openrouter", true, None)];
    let with_prev = build_runtime_operator_warnings(&p, &chain, &entries, None, Some(&previous));
    assert_eq!(with_prev.len(), 4);
    assert_eq!(
        with_prev[3],
        "Provider `openrouter` regressed from healthy to `auth` since the last persisted runtime-health scan."
    );
    let dup = vec!["a".to_string(), "b".to_string(), "a".to_string()];
    let w = build_runtime_operator_warnings(&p, &dup, &vec![], Some("a"), None);
    assert!(w.iter().any(|s| s.contains("contains duplicates")));
}

#[test]
fn services_and_defaults() {
    assert_eq!(preferred_service_manager(true, true, true), RuntimeServiceManager::LaunchdUser);
    assert_eq!(preferred_service_manager(false, true, false), RuntimeServiceManager::Unsupported);
    assert!(install_runtime_user_service(RuntimeServiceManager::Unsupported).is_err());
    assert_eq!(launchd_domain_target(), "gui/$(id -u)");
    let (mode, note) = infer_gateway_network_mode(Some("0.0.0.0"));
    assert_eq!(mode, "lan");
    assert_eq!(note, "gateway.network_mode inferred as `lan` from gateway.host = `0.0.0.0`");
    assert_eq!(infer_gateway_network_mode(None).0, "loopback");
    assert_eq!(infer_gateway_network_mode(Some("example.com")).0, "remote");
}

#[test]
fn dotenv_entries_are_parsed() {
    let raw = "# comment\nA=1\n\n  B = \"two words\" \r\nC='x'\nnot an entry\nD==e\n";
    let entries = parse_dotenv_entries(raw);
    assert_eq!(
        entries,
        vec![
            ("A".to_string(), "1".to_string()),
            ("B".to_string(), "two words".to_string()),
            ("C".to_string(), "x".to_string()),
            ("D".to_string(), "=e".to_string()),
        ]
    );
}

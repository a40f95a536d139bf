use openrustclaw_cli::runtime::{
    recommended_runtime_rollback_path,
    restore_runtime_entries, restore_summary, runtime_beacon_from_health, RuntimeArtifactHealth, RuntimeHealthReport,
    RuntimeLockGuard, RuntimeLockRecord,
};

fn names(items: &[&str]) -> Vec<String> {
    items.iter().map(|s| s.to_string()).collect()
}

#[test]
fn a_complete_backup_restores_every_entry() {
    let entries = names(&[".env", "config", ".claw/control"]);
    let (restored, missing) = restore_runtime_entries("/ws/.claw/runtime-backups/1", &entries, &vec![true, true, true]);
    assert_eq!(restored, entries);
    assert!(missing.is_none());
}

#[test]
fn a_restore_stops_at_the_first_missing_copy() {
    let entries = names(&[".env", "config", ".claw/control"]);
    let (restored, missing) = restore_runtime_entries("/b", &entries, &vec![true, false, false]);
    assert_eq!(restored, names(&[".env"]));
    assert_eq!(missing.as_deref(), Some("Backup '/b' is missing expected entry '/b/workspace/config'"));
}

#[test]
fn a_restore_summary_keeps_its_parts() {
    let s = restore_summary("/b", "/ws/pre".to_string(), names(&[".env"]), "2026-01-01T00:00:00Z".to_string());
    assert_eq!(s.backup_path, "/b");
    assert_eq!(s.pre_restore_backup_path, "/ws/pre");
    assert_eq!(s.entries, names(&[".env"]));
}

#[test]
fn a_lock_guard_releases_only_its_own_lock() {
    let guard = RuntimeLockGuard::new("/ws", 42);
    assert_eq!(guard.path, "/ws/.claw/control/runtime-lock.json");
    let ours = RuntimeLockRecord {
        acquired_at: "t".to_string(),
        process_id: 42,
        gateway_addr: "127.0.0.1:1".to_string(),
        config_path: "c".to_string(),
    };
    let theirs = RuntimeLockRecord {
        acquired_at: "t".to_string(),
        process_id: 7,
        gateway_addr: "127.0.0.1:1".to_string(),
        config_path: "c".to_string(),
    };
    assert!(guard.releases(Some(&ours)));
    assert!(!guard.releases(Some(&theirs)));
    assert!(!guard.releases(None));
}

#[test]
fn a_beacon_reports_a_non_negative_uptime() {
    let health = sample_health();
    let b = runtime_beacon_from_health(&health, "now".to_string(), 9, "0.0.0.0:1", Some("start".to_string()), Some(-5), true);
    assert_eq!(b.uptime_seconds, Some(0));
    assert_eq!(b.default_provider, health.default_provider);
    let b = runtime_beacon_from_health(&health, "now".to_string(), 9, "0.0.0.0:1", None, None, false);
    assert_eq!(b.uptime_seconds, None);
    let b = runtime_beacon_from_health(&health, "now".to_string(), 9, "0.0.0.0:1", None, Some(42), false);
    assert_eq!(b.uptime_seconds, Some(42));
}

fn sample_health() -> RuntimeHealthReport {
    RuntimeHealthReport {
        generated_at: "t".to_string(),
        config_path: "config/default.toml".to_string(),
        default_provider: "anthropic".to_string(),
        fallback_chain: vec![],
        control_plane_provider: None,
        control_plane_fallback_chain: vec![],
        recommended_control_plane_provider: Some("openai".to_string()),
        startup_fallback_valid: true,
        degraded_control_plane_mode: false,
        failover_recommendations: vec![],
        operator_warnings: vec![],
        providers: vec![],
        artifacts: RuntimeArtifactHealth {
            artifact_count: 0,
            persona_artifact_count: 0,
            registry_path: "r".to_string(),
            model_family: "m".to_string(),
            included_for_default_model: 0,
        },
    }
}

#[test]
fn the_rollback_path_keeps_the_executable_name() {
    let p = recommended_runtime_rollback_path("/ws", Some("openrustclaw-bin"), "20260101000000");
    assert!(p.starts_with("/ws/"));
    assert!(p.ends_with("/rollback-20260101000000/openrustclaw-bin"));
    let q = recommended_runtime_rollback_path("/ws", None, "1");
    assert!(q.ends_with("/rollback-1/openrustclaw"));
}

use openrustclaw_cli::runtime::{
    backup_destination, backup_runtime_state, collect_runtime_backup_entries, join_strings,
    runtime_lock_status, runtime_operator_ops_summary, runtime_service_install_status, RuntimeLockRecord,
    RuntimeServiceManager,
};

fn record() -> RuntimeLockRecord {
    RuntimeLockRecord {
        acquired_at: "t".to_string(),
        process_id: 4242,
        gateway_addr: "127.0.0.1:18789".to_string(),
        config_path: "config/default.toml".to_string(),
    }
}

#[test]
fn systemd_install_status_lists_user_commands() {
    let status = runtime_service_install_status(
        RuntimeServiceManager::SystemdUser,
        Some("/home/u/.config/systemd/user/openrustclaw.service".to_string()),
        true,
        true,
        "/usr/bin/openrustclaw",
        "/ws",
        "config/default.toml",
    );
    assert_eq!(status.service_manager, "systemd-user");
    assert_eq!(status.service_label, "openrustclaw.service");
    assert!(status.supported);
    assert!(status.installed);
    assert_eq!(status.config_path, "/ws/config/default.toml");
    assert_eq!(status.daemon_reload_command.as_deref(), Some("systemctl --user daemon-reload"));
    assert_eq!(status.enable_command.as_deref(), Some("systemctl --user enable openrustclaw.service"));
    assert_eq!(status.restart_command.as_deref(), Some("systemctl --user restart openrustclaw.service"));
}

#[test]
fn launchd_install_status_bootstraps_from_plist_path() {
    let status = runtime_service_install_status(
        RuntimeServiceManager::LaunchdUser,
        Some("/Users/u/Library/LaunchAgents/dev.openrustclaw.openrustclaw.plist".to_string()),
        true,
        false,
        "/usr/local/bin/openrustclaw",
        "/ws",
        "/etc/claw.toml",
    );
    assert_eq!(status.service_manager, "launchd-user");
    assert!(!status.installed);
    assert_eq!(status.config_path, "/etc/claw.toml");
    assert_eq!(
        status.start_command.as_deref(),
        Some("launchctl bootstrap gui/$(id -u) \"/Users/u/Library/LaunchAgents/dev.openrustclaw.openrustclaw.plist\"")
    );
    assert_eq!(
        status.stop_command.as_deref(),
        Some("launchctl bootout gui/$(id -u)/dev.openrustclaw.openrustclaw")
    );
}

#[test]
fn unsupported_install_status_has_no_commands() {
    let status = runtime_service_install_status(
        RuntimeServiceManager::Unsupported,
        Some("/x".to_string()),
        true,
        true,
        "/bin/claw",
        "/ws",
        "c.toml",
    );
    assert_eq!(status.service_manager, "unsupported");
    assert!(!status.supported);
    assert!(!status.installed);
    assert!(status.service_path.is_none());
    assert!(status.restart_command.is_none());
}

#[test]
fn unsupported_systemd_host_offers_no_commands() {
    let status =
        runtime_service_install_status(RuntimeServiceManager::SystemdUser, None, false, true, "/bin/claw", "/ws", "c");
    assert!(!status.installed);
    assert!(status.start_command.is_none());
}

#[test]
fn runtime_operator_ops_summary_reports_recovery_guidance() {
    let service =
        runtime_service_install_status(RuntimeServiceManager::SystemdUser, None, true, false, "/bin/claw", "/ws", "c");
    let lock = runtime_lock_status("/ws", None, false);
    let (actions, ready) = runtime_operator_ops_summary(
        &service,
        &lock,
        "config/default.toml",
        false,
        &Vec::new(),
        false,
        false,
        Some("anthropic"),
        "anthropic",
        true,
        &Vec::new(),
        "/ws",
    );
    assert!(!ready);
    assert_eq!(actions.len(), 5);
    assert_eq!(
        actions[0],
        "Install the workspace runtime service with `openrustclaw runtime services install --config config/default.toml` before relying on unattended restarts."
    );
    assert_eq!(
        actions[1],
        "Runtime lock is clear; maintenance operations can proceed without an active owner record."
    );
    assert_eq!(actions[2], "Runtime config matches the last applied snapshot; no reload work is pending.");
    assert!(actions.iter().any(|entry| entry.contains("openrustclaw runtime backup")));
    assert!(actions.iter().any(|entry| entry.contains("/ws/.claw/runtime-backups")));
    assert!(actions.iter().any(|entry| entry.contains("openrustclaw runtime upgrade-plan")));
}

#[test]
fn ops_summary_reports_active_lock_degraded_plane_and_warnings() {
    let service = runtime_service_install_status(
        RuntimeServiceManager::SystemdUser,
        Some("/u/openrustclaw.service".to_string()),
        true,
        true,
        "/bin/claw",
        "/ws",
        "c",
    );
    let lock = runtime_lock_status("/ws", Some(record()), true);
    let reasons = vec!["gateway.port changed".to_string(), "storage moved".to_string()];
    let warnings = vec!["w1".to_string(), "w2".to_string()];
    let (actions, ready) = runtime_operator_ops_summary(
        &service, &lock, "c.toml", true, &reasons, true, true, None, "openai", true, &warnings, "/ws",
    );
    assert!(!ready);
    assert_eq!(actions[0], "Managed restart is available with `systemctl --user restart openrustclaw.service`.");
    assert_eq!(
        actions[1],
        "Runtime lock is active for PID 4242; stop or drain the running process before upgrade or rollback."
    );
    assert_eq!(actions[2], "Current config delta requires restart: gateway.port changed | storage moved.");
    assert_eq!(
        actions[3],
        "Control plane is degraded; promote healthy provider `openai` before risky runtime changes."
    );
    assert_eq!(actions[4], "Review runtime warnings: w1 | w2");
    assert_eq!(actions.len(), 7);
}

#[test]
fn ops_summary_is_ready_when_installed_and_unlocked() {
    let service = runtime_service_install_status(
        RuntimeServiceManager::SystemdUser,
        Some("/u/openrustclaw.service".to_string()),
        true,
        true,
        "/bin/claw",
        "/ws",
        "c",
    );
    let lock = runtime_lock_status("/ws", Some(record()), false);
    let (actions, ready) = runtime_operator_ops_summary(
        &service, &lock, "c.toml", false, &Vec::new(), true, false, None, "openai", false, &Vec::new(), "/ws",
    );
    assert!(ready);
    assert_eq!(
        actions[1],
        "Runtime lock is stale; confirm the old process is gone and refresh the runtime through the managed restart path."
    );
    assert_eq!(
        actions[2],
        "Current config delta is live-reload safe via `openrustclaw runtime reload --config c.toml` or the Control UI reload action."
    );
    assert_eq!(
        actions[3],
        "No healthy fallback control-plane provider is currently available; avoid risky restarts until provider health is restored."
    );
}

#[test]
fn backup_destination_names_directory_by_stamp_and_reason() {
    assert_eq!(
        backup_destination("/ws", None, "20240101120000", Some("pre-upgrade")),
        "/ws/.claw/runtime-backups/20240101120000-pre-upgrade"
    );
    assert_eq!(backup_destination("/ws", None, "20240101120000", None), "/ws/.claw/runtime-backups/20240101120000");
    assert_eq!(backup_destination("/ws", Some("/tmp/b"), "20240101120000", Some("x")), "/tmp/b");
}

#[test]
fn backup_entries_skip_earlier_backups_and_sort_claw_entries() {
    let names = vec![
        "tasks".to_string(),
        "runtime-backups".to_string(),
        "control".to_string(),
        "onboard-backups".to_string(),
        "artifacts".to_string(),
    ];
    let entries = collect_runtime_backup_entries(true, true, &names);
    assert_eq!(
        entries,
        vec![".env", "config", ".claw/artifacts", ".claw/control", ".claw/tasks"]
    );
    let bare = collect_runtime_backup_entries(false, false, &Vec::new());
    assert!(bare.is_empty());
}

#[test]
fn backup_refuses_existing_destination() {
    let err = backup_runtime_state("/ws/b", true, vec![".env".to_string()], "t".to_string()).err().unwrap();
    assert_eq!(err, "Backup destination '/ws/b' already exists");
    let ok = backup_runtime_state("/ws/b", false, vec![".env".to_string()], "t".to_string()).ok().unwrap();
    assert_eq!(ok.backup_path, "/ws/b");
    assert_eq!(ok.entries, vec![".env".to_string()]);
    assert_eq!(ok.created_at, "t");
}

#[test]
fn join_strings_puts_separator_between_parts() {
    let parts = vec!["a".to_string(), "b".to_string(), "c".to_string()];
    assert_eq!(join_strings(&parts, ", "), "a, b, c");
    assert_eq!(join_strings(&Vec::new(), ", "), "");
}

use openrustclaw_cli::onboarding::{
    channel_bootstrap_assessment, completion_summary_lines, OnboardingState, delegated_backend_assessment, direct_provider_lane_statuses,
    DelegatedBackendContract,
};
use openrustclaw_cli::services::{ChannelProbeEntry, ChannelProbeStatus};

fn probe(platform: &str, status: ChannelProbeStatus, detail: &str) -> ChannelProbeEntry {
    ChannelProbeEntry {
        platform: platform.to_string(),
        enabled: true,
        status,
        probe_kind: "config".to_string(),
        detail: detail.to_string(),
    }
}

#[test]
fn channel_bootstrap_follows_first_probe_of_platform() {
    let entries = vec![
        probe("slack", ChannelProbeStatus::Failed, "slack token rejected"),
        probe("telegram", ChannelProbeStatus::Warning, "webhook not set"),
        probe("telegram", ChannelProbeStatus::Ready, "later probe"),
    ];
    let t = channel_bootstrap_assessment("telegram", &entries);
    assert_eq!(t.status, "warning");
    assert!(t.blocking);
    assert_eq!(t.detail, "webhook not set");
    let s = channel_bootstrap_assessment("slack", &entries);
    assert_eq!(s.status, "blocked");
    assert!(s.blocking);
    let ok = channel_bootstrap_assessment("discord", &vec![probe("discord", ChannelProbeStatus::Ready, "bot online")]);
    assert_eq!(ok.status, "ready");
    assert!(!ok.blocking);
    let missing = channel_bootstrap_assessment("matrix", &entries);
    assert_eq!(missing.status, "blocked");
    assert_eq!(missing.detail, "No `matrix` channel probe result was produced after setup.");
    assert!(missing.issue_kind.is_none());
}

#[test]
fn delegated_backend_assessment_reads_the_contract() {
    let err = delegated_backend_assessment("codex_cli", None, 0).err().unwrap();
    assert_eq!(err, "delegated backend `codex_cli` is not discoverable");

    let ready = delegated_backend_assessment(
        "codex_cli",
        Some(DelegatedBackendContract { execution_eligible: true, readiness_reason: None }),
        3,
    )
    .unwrap();
    assert_eq!(ready.status, "ready");
    assert_eq!(
        ready.detail,
        "Delegated backend `codex_cli` is installed, signed in, and currently exposes 3 discoverable model option(s)."
    );
    assert_eq!(ready.verification_stage.as_deref(), Some("delegated_backend_contract"));

    let idle = delegated_backend_assessment(
        "gemini_cli",
        Some(DelegatedBackendContract { execution_eligible: true, readiness_reason: None }),
        0,
    )
    .unwrap();
    assert!(idle.detail.ends_with("ready for bounded routed execution once operator policy allows it."));

    let blocked = delegated_backend_assessment(
        "gemini_cli",
        Some(DelegatedBackendContract { execution_eligible: false, readiness_reason: None }),
        0,
    )
    .unwrap();
    assert_eq!(blocked.status, "blocked");
    assert!(blocked.blocking);
    assert_eq!(blocked.detail, "Delegated backend `gemini_cli` is visible, but not ready yet.");
    assert_eq!(blocked.issue_kind.as_deref(), Some("delegated_backend_unavailable"));
    assert_eq!(
        blocked.suggested_action.as_deref(),
        Some("Sign in to `gemini_cli` locally or review its documented CLI surface, then rerun onboarding.")
    );
    let reasoned = delegated_backend_assessment(
        "x",
        Some(DelegatedBackendContract { execution_eligible: false, readiness_reason: Some("not signed in".to_string()) }),
        0,
    )
    .unwrap();
    assert_eq!(reasoned.detail, "not signed in");
}

#[test]
fn direct_lanes_report_keys_and_local_runtime() {
    let lanes = direct_provider_lane_statuses(true, false, false, false, true, false);
    let view: Vec<(&str, bool, &str)> =
        lanes.iter().map(|l| (l.provider_id.as_str(), l.available, l.status_label.as_str())).collect();
    assert_eq!(
        view,
        vec![
            ("anthropic", true, "configured"),
            ("openai", false, "not configured"),
            ("openrouter", false, "not configured"),
            ("gemini", true, "configured"),
            ("ollama", false, "not detected"),
        ]
    );
    let local = direct_provider_lane_statuses(false, false, false, false, false, true);
    assert_eq!(local[4].status_label, "available");
}

#[test]
fn completion_summary_lists_the_configuration() {
    let lines = completion_summary_lines(&OnboardingState::default());
    assert_eq!(
        lines,
        vec![
            "  Deployment Mode: solo (default)",
            "  Deployment Path: solo_starter",
            "  Path: Standard",
            "  Gateway: ✗ Not configured",
            "  Channels: None",
            "  Model: ✗ Not configured",
            "  Runtime Mode: solo_claw (default)",
            "  Skills: None",
            "  System Service: ✗ Not installed",
        ]
    );
    let mut state = OnboardingState::default();
    state.gateway_configured = true;
    state.channels_configured = vec!["telegram".to_string(), "slack".to_string()];
    state.preferred_provider = Some("anthropic".to_string());
    state.selected_primary_model = Some("sonnet".to_string());
    state.skills_installed = vec!["a".to_string(), "b".to_string()];
    state.daemon_installed = true;
    let lines = completion_summary_lines(&state);
    assert_eq!(lines[3], "  Gateway: ✓ Configured");
    assert_eq!(lines[4], "  Channels: telegram, slack");
    assert_eq!(lines[6], "  Provider: anthropic");
    assert_eq!(lines[7], "  Primary Model: sonnet");
    assert_eq!(lines[9], "  Skills: 2 installed");
    assert_eq!(lines[10], "  System Service: ✓ Installed");
}

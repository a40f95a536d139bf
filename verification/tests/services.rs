use openrustclaw_cli::services::{
    channel_health_monitor_path_for, channel_probe_path_for, failed_entry, probe_gmail, probe_google_chat,
    probe_google_meet, probe_imessage, probe_key_path_like, probe_signal, probe_teams, probe_token_present,
    probe_whatsapp, ready_entry, warning_entry, ChannelProbeStatus, IMessageBridge,
};

#[test]
fn probe_whatsapp_requires_credentials_for_ready_status() {
    let warning = probe_whatsapp("/tmp/bridge.js", true, true, false);
    assert_eq!(warning.status, ChannelProbeStatus::Warning);
    assert!(warning.detail.contains("pairing is not complete"));
    let ready = probe_whatsapp("/tmp/bridge.js", true, true, true);
    assert_eq!(ready.status, ChannelProbeStatus::Ready);
    assert!(ready.detail.contains("credentials are present"));
    let missing = probe_whatsapp("/nope.js", false, false, false);
    assert_eq!(missing.status, ChannelProbeStatus::Failed);
    assert_eq!(missing.detail, "bridge path '/nope.js' does not exist");
}

#[test]
fn entries_carry_their_status() {
    assert_eq!(ready_entry("a", "k", "d".to_string()).status, ChannelProbeStatus::Ready);
    assert_eq!(warning_entry("a", "k", "d".to_string()).status, ChannelProbeStatus::Warning);
    let f = failed_entry("a", "k", "d".to_string());
    assert_eq!(f.status, ChannelProbeStatus::Failed);
    assert!(f.enabled);
    assert_eq!(f.platform, "a");
}

#[test]
fn config_readiness_probes() {
    assert!(probe_key_path_like("token:abc", false));
    assert!(probe_key_path_like("env:KEY", false));
    assert!(!probe_key_path_like("/missing.json", false));
    assert_eq!(probe_teams("", "pw").status, ChannelProbeStatus::Failed);
    assert_eq!(probe_teams("id", "pw").status, ChannelProbeStatus::Ready);
    assert_eq!(probe_google_chat("/k.json", "p", false).status, ChannelProbeStatus::Warning);
    assert_eq!(probe_google_chat("env:K", "p", false).status, ChannelProbeStatus::Ready);
    assert_eq!(probe_google_chat(" ", "p", true).status, ChannelProbeStatus::Failed);
    assert_eq!(probe_google_meet("/k.json", "a@b", true).status, ChannelProbeStatus::Ready);
    assert_eq!(probe_gmail("/k.json", "p", "", true).status, ChannelProbeStatus::Failed);
    assert_eq!(probe_signal(None, false).status, ChannelProbeStatus::Ready);
    assert_eq!(probe_signal(Some("/opt/signal-cli"), false).detail, "signal-cli path '/opt/signal-cli' does not exist");
    assert_eq!(probe_signal(Some("signal-cli/"), false).status, ChannelProbeStatus::Ready);
    // Paths compare by their components, as `std::path::Path` compares them.
    assert_eq!(probe_signal(Some("signal-cli/./"), false).status, ChannelProbeStatus::Ready);
    assert_eq!(probe_signal(Some("signal-cli//."), false).status, ChannelProbeStatus::Ready);
    assert_eq!(probe_signal(Some("./signal-cli"), false).status, ChannelProbeStatus::Failed);
    assert_eq!(probe_signal(Some("signal-cli/.."), false).status, ChannelProbeStatus::Failed);
    assert_eq!(probe_signal(Some("signal-cli/.x"), false).status, ChannelProbeStatus::Failed);
    assert_eq!(probe_signal(Some("./signal-cli"), true).status, ChannelProbeStatus::Ready);
    assert_eq!(probe_imessage(&IMessageBridge::PrivateApi).status, ChannelProbeStatus::Warning);
    assert_eq!(probe_imessage(&IMessageBridge::MacOsDirect).status, ChannelProbeStatus::Ready);
    let bb = IMessageBridge::BlueBubbles { server_url: "".to_string(), password: "x".to_string() };
    assert_eq!(probe_imessage(&bb).status, ChannelProbeStatus::Failed);
    assert!(probe_token_present("telegram", " ", "telegram token is missing").is_some());
    assert!(probe_token_present("telegram", "t", "telegram token is missing").is_none());
}

#[test]
fn probe_paths() {
    assert_eq!(channel_probe_path_for("/w"), "/w/.claw/control/channel-probes.json");
    assert_eq!(channel_health_monitor_path_for("/w"), "/w/.claw/control/channel-health-monitor.json");
}

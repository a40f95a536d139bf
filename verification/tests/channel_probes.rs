use openrustclaw_cli::services::{
    channel_registry_counts, remote_channel_probe_entry, remote_channel_probe_request, ChannelAccountFlags,
    ChannelAuth, ChannelProbeStatus, ProbeHttpOutcome, RemoteChannel,
};

#[test]
fn channel_probe_requests_per_platform() {
    let t = remote_channel_probe_request(RemoteChannel::Telegram, Some("123:abc"), None).ok().unwrap();
    assert_eq!(t.url, "https://api.telegram.org/bot123:abc/getMe");
    assert!(!t.post);
    assert!(matches!(t.auth, ChannelAuth::InUrl));

    let d = remote_channel_probe_request(RemoteChannel::Discord, Some("tok"), Some("https://d.example/api/")).ok().unwrap();
    assert_eq!(d.url, "https://d.example/api/users/@me");
    assert!(matches!(d.auth, ChannelAuth::Authorization(ref v) if v == "Bot tok"));

    let s = remote_channel_probe_request(RemoteChannel::Slack, Some("xoxb"), None).ok().unwrap();
    assert_eq!(s.url, "https://slack.com/api/auth.test");
    assert!(s.post);
    assert!(matches!(s.auth, ChannelAuth::Bearer(ref v) if v == "xoxb"));

    let m = remote_channel_probe_request(RemoteChannel::Mattermost, Some("bot"), Some("https://mm.example//")).ok().unwrap();
    assert_eq!(m.url, "https://mm.example/api/v4/users/me");

    let x = remote_channel_probe_request(RemoteChannel::Matrix, Some("syt"), Some("https://matrix.example"))
        .ok()
        .unwrap();
    assert_eq!(x.url, "https://matrix.example/_matrix/client/v3/account/whoami");
}

#[test]
fn channel_probes_without_tokens() {
    let t = remote_channel_probe_request(RemoteChannel::Telegram, Some("   "), None).err().unwrap();
    assert_eq!(t.status, ChannelProbeStatus::Failed);
    assert_eq!(t.probe_kind, "remote_auth");
    assert_eq!(t.detail, "telegram token is missing");
    let s = remote_channel_probe_request(RemoteChannel::Slack, None, None).err().unwrap();
    assert_eq!(s.detail, "slack bot token is missing");
    let x = remote_channel_probe_request(RemoteChannel::Matrix, None, Some("https://m")).err().unwrap();
    assert_eq!(x.status, ChannelProbeStatus::Warning);
    assert_eq!(x.probe_kind, "config_readiness");
    assert_eq!(
        x.detail,
        "Matrix is enabled but no access token is configured; password-based live probe is skipped"
    );
}

#[test]
fn channel_probe_entries_from_answers() {
    let ok = remote_channel_probe_entry(RemoteChannel::Discord, ProbeHttpOutcome::Success);
    assert_eq!(ok.status, ChannelProbeStatus::Ready);
    assert_eq!(ok.detail, "Discord auth probe succeeded");
    assert_eq!(ok.platform, "discord");
    let denied =
        remote_channel_probe_entry(RemoteChannel::Telegram, ProbeHttpOutcome::Status("401 Unauthorized".to_string()));
    assert_eq!(denied.status, ChannelProbeStatus::Failed);
    assert_eq!(denied.detail, "Bot API probe failed with status 401 Unauthorized");
    let down = remote_channel_probe_entry(RemoteChannel::Matrix, ProbeHttpOutcome::Failure("timed out".to_string()));
    assert_eq!(down.detail, "timed out");
    assert_eq!(down.probe_kind, "remote_auth");
}

#[test]
fn registry_counts_by_flag() {
    let accounts = vec![
        ChannelAccountFlags { enabled: true, approved: true, blocked: false },
        ChannelAccountFlags { enabled: false, approved: true, blocked: true },
        ChannelAccountFlags { enabled: true, approved: false, blocked: false },
    ];
    let counts = channel_registry_counts(&accounts, &vec![true, false, true, true]);
    assert_eq!(counts.total_accounts, 3);
    assert_eq!(counts.enabled_accounts, 2);
    assert_eq!(counts.approved_accounts, 2);
    assert_eq!(counts.blocked_accounts, 1);
    assert_eq!(counts.total_bindings, 4);
    assert_eq!(counts.enabled_bindings, 3);
}

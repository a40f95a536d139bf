//! Service status reports and the readiness probes of channels whose
//! readiness is decided from their configuration and local files.

use vstd::prelude::*;

use crate::paths::{join, join_path};
use crate::text::{concat3, has_prefix, owned, starts_with, str_eq, trim_seq, is_blank};

verus! {

pub const DEFAULT_CHANNEL_PROBES_PATH: &'static str = ".claw/control/channel-probes.json";
pub const DEFAULT_CHANNEL_HEALTH_MONITOR_PATH: &'static str = ".claw/control/channel-health-monitor.json";

/// Session totals by state.
pub struct SessionCounts {
    pub total: i64,
    pub active: i64,
    pub archived: i64,
    pub closed: i64,
}

/// Accounts and bindings of the channel registry.
pub struct ChannelRegistryCounts {
    pub total_accounts: usize,
    pub enabled_accounts: usize,
    pub approved_accounts: usize,
    pub blocked_accounts: usize,
    pub total_bindings: usize,
    pub enabled_bindings: usize,
}

/// The sidecar process of the gateway.
pub struct SidecarServiceStatus {
    pub role: String,
    pub auto_start: bool,
    pub running: bool,
}

/// What `service status` reports.
pub struct ServiceStatusReport {
    pub generated_at: String,
    pub config_path: String,
    pub process_id: u32,
    pub started_at: Option<String>,
    pub uptime_seconds: Option<i64>,
    pub gateway_addr: String,
    pub listener_addr: String,
    pub advertised_addrs: Vec<String>,
    pub default_provider: String,
    pub fallback_chain: Vec<String>,
    pub enabled_channels: Vec<String>,
    pub sessions: SessionCounts,
    pub registry: ChannelRegistryCounts,
    pub sidecar: SidecarServiceStatus,
}

/// One scheduler run.
pub struct SchedulerRunSummary {
    pub id: String,
    pub job_id: String,
    pub name: String,
    pub status: String,
    pub retry_count: i64,
    pub started_at: String,
    pub completed_at: Option<String>,
    pub langsmith_trace_id: Option<String>,
}

/// What `service scheduler` reports.
pub struct SchedulerStatusReport {
    pub generated_at: String,
    pub poll_interval_ms: u64,
    pub lease_duration_secs: u64,
    pub total_jobs: i64,
    pub active_jobs: i64,
    pub paused_jobs: i64,
    pub completed_jobs: i64,
    pub due_jobs: i64,
    pub unresolved_dead_letters: i64,
    pub pending_runtime_events: i64,
    pub processed_runtime_events: i64,
    pub failed_runtime_events: i64,
    pub recent_runs: Vec<SchedulerRunSummary>,
}

/// The outcome of a channel probe.
#[derive(Clone, Copy, Debug, PartialEq, Eq, Structural)]
pub enum ChannelProbeStatus {
    Ready,
    Warning,
    Failed,
}

/// The probe of one enabled channel.
pub struct ChannelProbeEntry {
    pub platform: String,
    pub enabled: bool,
    pub status: ChannelProbeStatus,
    pub probe_kind: String,
    pub detail: String,
}

/// The health monitor's view of the channels.
pub struct ChannelHealthMonitorStatus {
    pub generated_at: String,
    pub health_monitor_enabled: bool,
    pub auto_restart_on_failure: bool,
    pub auto_restart_ready: bool,
    pub consecutive_failure_threshold: usize,
    pub current_consecutive_failures: usize,
    pub degraded: bool,
    pub failing_platforms: Vec<String>,
    pub last_failure_at: Option<String>,
    pub last_healthy_at: Option<String>,
    pub restart_requested: bool,
    pub restart_reason: Option<String>,
}

/// All channel probes of a scan and the monitor's conclusion.
pub struct ChannelProbeReport {
    pub generated_at: String,
    pub entries: Vec<ChannelProbeEntry>,
    pub monitor: ChannelHealthMonitorStatus,
}

/// The cached channel-probe report of a workspace.
pub fn channel_probe_path_for(workspace_root: &str) -> (r: String)
    ensures
        r@ == join_path(workspace_root@, DEFAULT_CHANNEL_PROBES_PATH@),
{
    join(workspace_root, DEFAULT_CHANNEL_PROBES_PATH)
}

/// The persisted health-monitor status of a workspace.
pub fn channel_health_monitor_path_for(workspace_root: &str) -> (r: String)
    ensures
        r@ == join_path(workspace_root@, DEFAULT_CHANNEL_HEALTH_MONITOR_PATH@),
{
    join(workspace_root, DEFAULT_CHANNEL_HEALTH_MONITOR_PATH)
}

/// A probe entry of an enabled channel with the given outcome.
pub open spec fn probe_fits(
    e: ChannelProbeEntry,
    platform: Seq<char>,
    status: ChannelProbeStatus,
    kind: Seq<char>,
    detail: Seq<char>,
) -> bool {
    &&& e.platform@ == platform
    &&& e.enabled
    &&& e.status == status
    &&& e.probe_kind@ == kind
    &&& e.detail@ == detail
}

/// A passing probe of an enabled channel.
pub fn ready_entry(platform: &str, probe_kind: &str, detail: String) -> (r: ChannelProbeEntry)
    ensures
        probe_fits(r, platform@, ChannelProbeStatus::Ready, probe_kind@, detail@),
{
    ChannelProbeEntry {
        platform: owned(platform),
        enabled: true,
        status: ChannelProbeStatus::Ready,
        probe_kind: owned(probe_kind),
        detail,
    }
}

/// A probe of an enabled channel that needs attention.
pub fn warning_entry(platform: &str, probe_kind: &str, detail: String) -> (r: ChannelProbeEntry)
    ensures
        probe_fits(r, platform@, ChannelProbeStatus::Warning, probe_kind@, detail@),
{
    ChannelProbeEntry {
        platform: owned(platform),
        enabled: true,
        status: ChannelProbeStatus::Warning,
        probe_kind: owned(probe_kind),
        detail,
    }
}

/// A failing probe of an enabled channel.
pub fn failed_entry(platform: &str, probe_kind: &str, detail: String) -> (r: ChannelProbeEntry)
    ensures
        probe_fits(r, platform@, ChannelProbeStatus::Failed, probe_kind@, detail@),
{
    ChannelProbeEntry {
        platform: owned(platform),
        enabled: true,
        status: ChannelProbeStatus::Failed,
        probe_kind: owned(probe_kind),
        detail,
    }
}

/// A credential reference that is usable: an inline `token:` or `env:`
/// reference, or a path that exists.
pub open spec fn key_reference_usable(value: Seq<char>, path_exists: bool) -> bool {
    has_prefix(value, "token:"@) || has_prefix(value, "env:"@) || path_exists
}

/// Whether a credential reference is usable; `path_exists` tells whether
/// `value`, read as a path, exists.
pub fn probe_key_path_like(value: &str, path_exists: bool) -> (r: bool)
    ensures
        r == key_reference_usable(value@, path_exists),
{
    starts_with(value, "token:") || starts_with(value, "env:") || path_exists
}

/// A setting that holds only whitespace counts as missing.
pub open spec fn blank(s: Seq<char>) -> bool {
    trim_seq(s).len() == 0
}

/// The Teams readiness probe.
pub fn probe_teams(app_id: &str, app_password: &str) -> (r: ChannelProbeEntry)
    ensures
        (blank(app_id@) || blank(app_password@)) ==> probe_fits(
            r,
            "teams"@,
            ChannelProbeStatus::Failed,
            "config_readiness"@,
            "teams app_id/app_password are required"@,
        ),
        !(blank(app_id@) || blank(app_password@)) ==> probe_fits(
            r,
            "teams"@,
            ChannelProbeStatus::Ready,
            "config_readiness"@,
            "Teams app credentials and webhook path are configured"@,
        ),
{
    if is_blank(app_id) || is_blank(app_password) {
        failed_entry("teams", "config_readiness", owned("teams app_id/app_password are required"))
    } else {
        ready_entry("teams", "config_readiness", owned("Teams app credentials and webhook path are configured"))
    }
}

/// The outcome of a service-account probe: failed when a required setting
/// is missing, a warning when the key is not usable yet, ready otherwise.
pub open spec fn key_probe_fits(
    e: ChannelProbeEntry,
    platform: Seq<char>,
    missing: bool,
    missing_detail: Seq<char>,
    key_usable: bool,
    ready_detail: Seq<char>,
) -> bool {
    if missing {
        probe_fits(e, platform, ChannelProbeStatus::Failed, "config_readiness"@, missing_detail)
    } else if !key_usable {
        probe_fits(
            e,
            platform,
            ChannelProbeStatus::Warning,
            "config_readiness"@,
            "service account key path does not exist yet"@,
        )
    } else {
        probe_fits(e, platform, ChannelProbeStatus::Ready, "config_readiness"@, ready_detail)
    }
}

fn key_probe(
    platform: &str,
    missing: bool,
    missing_detail: &str,
    key_usable: bool,
    ready_detail: &str,
) -> (r: ChannelProbeEntry)
    ensures
        key_probe_fits(r, platform@, missing, missing_detail@, key_usable, ready_detail@),
{
    if missing {
        failed_entry(platform, "config_readiness", owned(missing_detail))
    } else if !key_usable {
        warning_entry(platform, "config_readiness", owned("service account key path does not exist yet"))
    } else {
        ready_entry(platform, "config_readiness", owned(ready_detail))
    }
}

/// The Google Chat readiness probe; `key_exists` tells whether the key
/// setting names an existing file.
pub fn probe_google_chat(service_account_key: &str, project_id: &str, key_exists: bool) -> (r: ChannelProbeEntry)
    ensures
        key_probe_fits(
            r,
            "google_chat"@,
            blank(service_account_key@) || blank(project_id@),
            "service account key and project id are required"@,
            key_reference_usable(service_account_key@, key_exists),
            "Google Chat credentials are configured"@,
        ),
{
    let missing = is_blank(service_account_key) || is_blank(project_id);
    let usable = probe_key_path_like(service_account_key, key_exists);
    key_probe(
        "google_chat",
        missing,
        "service account key and project id are required",
        usable,
        "Google Chat credentials are configured",
    )
}

/// The Google Meet readiness probe.
pub fn probe_google_meet(service_account_key_path: &str, delegated_user_email: &str, key_exists: bool) -> (r:
    ChannelProbeEntry)
    ensures
        key_probe_fits(
            r,
            "google_meet"@,
            blank(service_account_key_path@) || blank(delegated_user_email@),
            "service account key path and delegated user email are required"@,
            key_reference_usable(service_account_key_path@, key_exists),
            "Google Meet credentials are configured"@,
        ),
{
    let missing = is_blank(service_account_key_path) || is_blank(delegated_user_email);
    let usable = probe_key_path_like(service_account_key_path, key_exists);
    key_probe(
        "google_meet",
        missing,
        "service account key path and delegated user email are required",
        usable,
        "Google Meet credentials are configured",
    )
}

/// The Gmail Pub/Sub readiness probe.
pub fn probe_gmail(service_account_key_path: &str, project_id: &str, user_email: &str, key_exists: bool) -> (r:
    ChannelProbeEntry)
    ensures
        key_probe_fits(
            r,
            "gmail_pubsub"@,
            blank(service_account_key_path@) || blank(project_id@) || blank(user_email@),
            "service account key path, project id, and user email are required"@,
            key_reference_usable(service_account_key_path@, key_exists),
            "Gmail Pub/Sub credentials are configured"@,
        ),
{
    let missing = is_blank(service_account_key_path) || is_blank(project_id) || is_blank(user_email);
    let usable = probe_key_path_like(service_account_key_path, key_exists);
    key_probe(
        "gmail_pubsub",
        missing,
        "service account key path, project id, and user email are required",
        usable,
        "Gmail Pub/Sub credentials are configured",
    )
}

/// The WhatsApp readiness probe, from what exists on disk: the bridge
/// script, the session directory and its `creds.json`.
pub fn probe_whatsapp(bridge_path: &str, bridge_exists: bool, session_exists: bool, creds_exist: bool) -> (r:
    ChannelProbeEntry)
    ensures
        !bridge_exists ==> probe_fits(
            r,
            "whatsapp"@,
            ChannelProbeStatus::Failed,
            "local_runtime"@,
            "bridge path '"@ + bridge_path@ + "' does not exist"@,
        ),
        bridge_exists && creds_exist ==> probe_fits(
            r,
            "whatsapp"@,
            ChannelProbeStatus::Ready,
            "local_runtime"@,
            "Baileys bridge path exists and WhatsApp session credentials are present"@,
        ),
        bridge_exists && !creds_exist && session_exists ==> probe_fits(
            r,
            "whatsapp"@,
            ChannelProbeStatus::Warning,
            "local_runtime"@,
            "Baileys bridge path exists and session directory is present, but WhatsApp pairing is not complete yet"@,
        ),
        bridge_exists && !creds_exist && !session_exists ==> probe_fits(
            r,
            "whatsapp"@,
            ChannelProbeStatus::Warning,
            "local_runtime"@,
            "Baileys bridge path exists but session directory is not initialized yet"@,
        ),
{
    if !bridge_exists {
        return failed_entry("whatsapp", "local_runtime", concat3("bridge path '", bridge_path, "' does not exist"));
    }
    if creds_exist {
        ready_entry(
            "whatsapp",
            "local_runtime",
            owned("Baileys bridge path exists and WhatsApp session credentials are present"),
        )
    } else if session_exists {
        warning_entry(
            "whatsapp",
            "local_runtime",
            owned("Baileys bridge path exists and session directory is present, but WhatsApp pairing is not complete yet"),
        )
    } else {
        warning_entry(
            "whatsapp",
            "local_runtime",
            owned("Baileys bridge path exists but session directory is not initialized yet"),
        )
    }
}

/// `p` without trailing slashes.
pub open spec fn without_trailing_slashes(p: Seq<char>) -> Seq<char>
    decreases p.len(),
{
    if p.len() > 0 && p.last() == '/' {
        without_trailing_slashes(p.drop_last())
    } else {
        p
    }
}

/// Whether `r` adds nothing to a path as `std::path::Path` compares paths:
/// it is empty, or starts with `/` and holds only separators and `.`
/// components.
pub open spec fn only_separators_and_dots(r: Seq<char>) -> bool {
    r.len() == 0 || (r[0] == '/' && forall|i: int|
        0 <= i < r.len() ==> (#[trigger] r[i] == '/' || (r[i] == '.' && r[i - 1] == '/' && (i + 1 == r.len() || r[i
            + 1] == '/'))))
}

/// The default Signal CLI, found on the `PATH`: a path equal, as
/// `std::path::Path` compares paths by their components, to `signal-cli`.
pub open spec fn is_bare_signal_cli(p: Seq<char>) -> bool {
    p.len() >= 10 && p.take(10) == "signal-cli"@ && only_separators_and_dots(p.skip(10))
}

fn bare_signal_cli(p: &str) -> (r: bool)
    ensures
        r == is_bare_signal_cli(p@),
{
    let v = crate::text::chars_of(p);
    let n = v.len();
    if n < 10 {
        return false;
    }
    let mut head: Vec<char> = Vec::new();
    let mut k: usize = 0;
    while k < 10
        invariant
            k <= 10 <= n == v@.len(),
            head@ == v@.take(k as int),
        decreases 10 - k,
    {
        head.push(v[k]);
        assert(v@.take(k + 1) =~= v@.take(k as int).push(v@[k as int]));
        k = k + 1;
    }
    let head = crate::text::string_from_chars(&head);
    if !str_eq(head.as_str(), "signal-cli") {
        return false;
    }
    let ghost rest = v@.skip(10);
    if n == 10 {
        return true;
    }
    if v[10] != '/' {
        return false;
    }
    let mut i: usize = 10;
    while i < n
        invariant
            10 <= i <= n == v@.len(),
            v@ == p@,
            rest == v@.skip(10),
            rest[0] == '/',
            forall|j: int|
                0 <= j < i - 10 ==> (#[trigger] rest[j] == '/' || (rest[j] == '.' && rest[j - 1] == '/' && (j + 1
                    == rest.len() || rest[j + 1] == '/'))),
        decreases n - i,
    {
        let c = v[i];
        let ok = c == '/' || (c == '.' && v[i - 1] == '/' && (i + 1 == n || v[i + 1] == '/'));
        if !ok {
            proof {
                let j = i - 10;
                assert(rest.len() == n - 10);
                assert(rest[j] == v@[i as int]);
                if j > 0 {
                    assert(rest[j - 1] == v@[i - 1]);
                }
                if j + 1 < rest.len() {
                    assert(rest[j + 1] == v@[i + 1]);
                }
                assert(!(rest[j] == '/' || (rest[j] == '.' && rest[j - 1] == '/' && (j + 1 == rest.len() || rest[j
                    + 1] == '/'))));
                assert(!only_separators_and_dots(rest));
                assert(p@.skip(10) == rest);
            }
            return false;
        }
        i = i + 1;
    }
    true
}

/// The Signal readiness probe: ready when the configured CLI (by default
/// `signal-cli` on the `PATH`) exists or is the default; `path_exists`
/// tells whether the configured path exists.
pub fn probe_signal(signal_cli_path: Option<&str>, path_exists: bool) -> (r: ChannelProbeEntry)
    ensures
        ({
            let p = match signal_cli_path {
                Some(p) => p@,
                None => "signal-cli"@,
            };
            if path_exists || is_bare_signal_cli(p) {
                probe_fits(r, "signal"@, ChannelProbeStatus::Ready, "local_runtime"@, "Signal CLI path is configured"@)
            } else {
                probe_fits(
                    r,
                    "signal"@,
                    ChannelProbeStatus::Failed,
                    "local_runtime"@,
                    "signal-cli path '"@ + p + "' does not exist"@,
                )
            }
        }),
{
    let p = match signal_cli_path {
        Some(p) => p,
        None => "signal-cli",
    };
    if path_exists || bare_signal_cli(p) {
        ready_entry("signal", "local_runtime", owned("Signal CLI path is configured"))
    } else {
        failed_entry("signal", "local_runtime", concat3("signal-cli path '", p, "' does not exist"))
    }
}

/// How iMessage is bridged.
pub enum IMessageBridge {
    BlueBubbles { server_url: String, password: String },
    MacOsDirect,
    PrivateApi,
}

/// The iMessage readiness probe.
pub fn probe_imessage(bridge: &IMessageBridge) -> (r: ChannelProbeEntry)
    ensures
        match bridge {
            IMessageBridge::BlueBubbles { server_url, password } => if blank(server_url@) || blank(password@) {
                probe_fits(
                    r,
                    "imessage"@,
                    ChannelProbeStatus::Failed,
                    "config_readiness"@,
                    "BlueBubbles server_url and password are required"@,
                )
            } else {
                probe_fits(
                    r,
                    "imessage"@,
                    ChannelProbeStatus::Ready,
                    "config_readiness"@,
                    "BlueBubbles server credentials are configured"@,
                )
            },
            IMessageBridge::MacOsDirect => probe_fits(
                r,
                "imessage"@,
                ChannelProbeStatus::Ready,
                "local_runtime"@,
                "macOS direct mode selected"@,
            ),
            IMessageBridge::PrivateApi => probe_fits(
                r,
                "imessage"@,
                ChannelProbeStatus::Warning,
                "local_runtime"@,
                "private API mode requires local macOS validation"@,
            ),
        },
{
    match bridge {
        IMessageBridge::BlueBubbles { server_url, password } => {
            if is_blank(server_url.as_str()) || is_blank(password.as_str()) {
                failed_entry("imessage", "config_readiness", owned("BlueBubbles server_url and password are required"))
            } else {
                ready_entry("imessage", "config_readiness", owned("BlueBubbles server credentials are configured"))
            }
        },
        IMessageBridge::MacOsDirect => ready_entry("imessage", "local_runtime", owned("macOS direct mode selected")),
        IMessageBridge::PrivateApi => warning_entry(
            "imessage",
            "local_runtime",
            owned("private API mode requires local macOS validation"),
        ),
    }
}

/// The probe of a channel that needs a token before its live check: failed
/// without one, `None` when the live check should run.
pub fn probe_token_present(platform: &str, token: &str, missing_detail: &str) -> (r: Option<ChannelProbeEntry>)
    ensures
        blank(token@) ==> (r matches Some(e) && probe_fits(
            e,
            platform@,
            ChannelProbeStatus::Failed,
            "remote_auth"@,
            missing_detail@,
        )),
        !blank(token@) ==> r is None,
{
    if is_blank(token) {
        Some(failed_entry(platform, "remote_auth", owned(missing_detail)))
    } else {
        None
    }
}

// ---------------------------------------------------------------------
// Channels probed against their remote API

/// A channel whose readiness is checked against its remote API.
#[derive(PartialEq, Eq, Structural, Clone, Copy, Debug)]
pub enum RemoteChannel {
    Telegram,
    Discord,
    Slack,
    Mattermost,
    Matrix,
}

/// The platform name of a remote channel.
pub open spec fn remote_platform(c: RemoteChannel) -> Seq<char> {
    match c {
        RemoteChannel::Telegram => "telegram"@,
        RemoteChannel::Discord => "discord"@,
        RemoteChannel::Slack => "slack"@,
        RemoteChannel::Mattermost => "mattermost"@,
        RemoteChannel::Matrix => "matrix"@,
    }
}

fn platform_name(c: RemoteChannel) -> (r: &'static str)
    ensures
        r@ == remote_platform(c),
{
    match c {
        RemoteChannel::Telegram => "telegram",
        RemoteChannel::Discord => "discord",
        RemoteChannel::Slack => "slack",
        RemoteChannel::Mattermost => "mattermost",
        RemoteChannel::Matrix => "matrix",
    }
}

/// How a channel probe presents its token.
pub enum ChannelAuth {
    /// The token is part of the URL.
    InUrl,
    /// An `authorization` header with this value.
    Authorization(String),
    /// A bearer token.
    Bearer(String),
}

/// The request of a channel probe.
pub struct ChannelProbeRequest {
    pub url: String,
    pub post: bool,
    pub auth: ChannelAuth,
}

/// A token as plain values: `None` for one in the URL, else the kind of
/// header (`true` for a bearer token) with its value.
pub open spec fn channel_auth_view(a: ChannelAuth) -> Option<(bool, Seq<char>)> {
    match a {
        ChannelAuth::InUrl => None,
        ChannelAuth::Authorization(v) => Some((false, v@)),
        ChannelAuth::Bearer(v) => Some((true, v@)),
    }
}

/// The API root a channel is probed under when none is configured.
pub open spec fn default_api_root(c: RemoteChannel) -> Seq<char> {
    match c {
        RemoteChannel::Telegram => "https://api.telegram.org"@,
        RemoteChannel::Discord => "https://discord.com/api/v10"@,
        RemoteChannel::Slack => "https://slack.com/api"@,
        _ => seq![],
    }
}

/// What a probe reports when the token is missing.
pub open spec fn missing_token_detail(c: RemoteChannel) -> Seq<char> {
    match c {
        RemoteChannel::Telegram => "telegram token is missing"@,
        RemoteChannel::Discord => "discord bot token is missing"@,
        RemoteChannel::Slack => "slack bot token is missing"@,
        RemoteChannel::Mattermost => "mattermost bot token is missing"@,
        RemoteChannel::Matrix => "Matrix is enabled but no access token is configured; password-based live probe is skipped"@,
    }
}

/// The request of a channel probe: `(url, post, auth)`.
pub open spec fn channel_request_spec(c: RemoteChannel, token: Seq<char>, root: Seq<char>) -> (
    Seq<char>,
    bool,
    Option<(bool, Seq<char>)>,
) {
    match c {
        RemoteChannel::Telegram => (root + "/bot"@ + token + "/getMe"@, false, None),
        RemoteChannel::Discord => (root + "/users/@me"@, false, Some((false, "Bot "@ + token))),
        RemoteChannel::Slack => (root + "/auth.test"@, true, Some((true, token))),
        RemoteChannel::Mattermost => (root + "/api/v4/users/me"@, false, Some((true, token))),
        RemoteChannel::Matrix => (root + "/_matrix/client/v3/account/whoami"@, false, Some((true, token))),
    }
}

/// The probe of a channel before any request: Matrix without an access
/// token is a warning, any other channel without a token (or with a blank
/// one) has failed; else the request to send, under the configured API
/// root (or the channel's default) without trailing slashes.
pub open spec fn channel_probe_plan_fits(
    r: Result<ChannelProbeRequest, ChannelProbeEntry>,
    c: RemoteChannel,
    token: Option<Seq<char>>,
    base_url: Option<Seq<char>>,
) -> bool {
    let root = without_trailing_slashes(
        match base_url {
            Some(u) => u,
            None => default_api_root(c),
        },
    );
    let missing = match c {
        RemoteChannel::Matrix => token is None,
        _ => token is None || blank(token->0),
    };
    if missing {
        r matches Err(e) && probe_fits(
            e,
            remote_platform(c),
            if c == RemoteChannel::Matrix {
                ChannelProbeStatus::Warning
            } else {
                ChannelProbeStatus::Failed
            },
            if c == RemoteChannel::Matrix {
                "config_readiness"@
            } else {
                "remote_auth"@
            },
            missing_token_detail(c),
        )
    } else {
        r matches Ok(q) && (q.url@, q.post, channel_auth_view(q.auth)) == channel_request_spec(c, token->0, root)
    }
}

fn api_root(c: RemoteChannel, base_url: Option<&str>) -> (r: String)
    ensures
        r@ == without_trailing_slashes(
            match base_url {
                Some(u) => u@,
                None => default_api_root(c),
            },
        ),
{
    match base_url {
        Some(u) => crate::probes::strip_trailing_slashes(u),
        None => match c {
            RemoteChannel::Telegram => crate::probes::strip_trailing_slashes("https://api.telegram.org"),
            RemoteChannel::Discord => crate::probes::strip_trailing_slashes("https://discord.com/api/v10"),
            RemoteChannel::Slack => crate::probes::strip_trailing_slashes("https://slack.com/api"),
            _ => {
                proof {
                    reveal_strlit("");
                }
                assert(""@ =~= Seq::<char>::empty());
                crate::probes::strip_trailing_slashes("")
            },
        },
    }
}

/// The request of a channel probe, or the entry of a probe that could not
/// be sent for want of a token.
pub fn remote_channel_probe_request(c: RemoteChannel, token: Option<&str>, base_url: Option<&str>) -> (r: Result<
    ChannelProbeRequest,
    ChannelProbeEntry,
>)
    ensures
        channel_probe_plan_fits(r, c, crate::text::opt_str_view(token), crate::text::opt_str_view(base_url)),
{
    let platform = platform_name(c);
    let t = match token {
        None => {
            return Err(
                match c {
                    RemoteChannel::Matrix => warning_entry(
                        platform,
                        "config_readiness",
                        owned(
                            "Matrix is enabled but no access token is configured; password-based live probe is skipped",
                        ),
                    ),
                    RemoteChannel::Telegram => failed_entry(platform, "remote_auth", owned("telegram token is missing")),
                    RemoteChannel::Discord => failed_entry(
                        platform,
                        "remote_auth",
                        owned("discord bot token is missing"),
                    ),
                    RemoteChannel::Slack => failed_entry(platform, "remote_auth", owned("slack bot token is missing")),
                    RemoteChannel::Mattermost => failed_entry(
                        platform,
                        "remote_auth",
                        owned("mattermost bot token is missing"),
                    ),
                },
            );
        },
        Some(t) => t,
    };
    match c {
        RemoteChannel::Matrix => {},
        _ => {
            match probe_token_present(
                platform,
                t,
                match c {
                    RemoteChannel::Telegram => "telegram token is missing",
                    RemoteChannel::Discord => "discord bot token is missing",
                    RemoteChannel::Slack => "slack bot token is missing",
                    _ => "mattermost bot token is missing",
                },
            ) {
                Some(e) => {
                    return Err(e);
                },
                None => {},
            }
        },
    }
    let root = api_root(c, base_url);
    let r = root.as_str();
    let req = match c {
        RemoteChannel::Telegram => ChannelProbeRequest {
            url: crate::text::concat5(r, "/bot", t, "/getMe", ""),
            post: false,
            auth: ChannelAuth::InUrl,
        },
        RemoteChannel::Discord => ChannelProbeRequest {
            url: crate::text::concat2(r, "/users/@me"),
            post: false,
            auth: ChannelAuth::Authorization(crate::text::concat2("Bot ", t)),
        },
        RemoteChannel::Slack => ChannelProbeRequest {
            url: crate::text::concat2(r, "/auth.test"),
            post: true,
            auth: ChannelAuth::Bearer(owned(t)),
        },
        RemoteChannel::Mattermost => ChannelProbeRequest {
            url: crate::text::concat2(r, "/api/v4/users/me"),
            post: false,
            auth: ChannelAuth::Bearer(owned(t)),
        },
        RemoteChannel::Matrix => ChannelProbeRequest {
            url: crate::text::concat2(r, "/_matrix/client/v3/account/whoami"),
            post: false,
            auth: ChannelAuth::Bearer(owned(t)),
        },
    };
    proof {
        reveal_strlit("");
    }
    Ok(req)
}

/// How the request of a probe went.
pub enum ProbeHttpOutcome {
    /// The answer had a success status.
    Success,
    /// The answer had another status, shown as this text.
    Status(String),
    /// No answer came; the error's text.
    Failure(String),
}

/// What a channel reports when its probe passed, and how its failed
/// status is introduced.
pub open spec fn probe_messages(c: RemoteChannel) -> (Seq<char>, Seq<char>) {
    match c {
        RemoteChannel::Telegram => ("Bot API auth probe succeeded"@, "Bot API probe failed with status "@),
        RemoteChannel::Discord => ("Discord auth probe succeeded"@, "Discord auth probe failed with status "@),
        RemoteChannel::Slack => ("Slack auth probe succeeded"@, "Slack auth probe failed with status "@),
        RemoteChannel::Mattermost => ("Mattermost auth probe succeeded"@, "Mattermost auth probe failed with status "@),
        RemoteChannel::Matrix => ("Matrix whoami probe succeeded"@, "Matrix whoami probe failed with status "@),
    }
}

/// The probe entry of a channel from how its request went.
pub fn remote_channel_probe_entry(c: RemoteChannel, outcome: ProbeHttpOutcome) -> (r: ChannelProbeEntry)
    ensures
        match outcome {
            ProbeHttpOutcome::Success => probe_fits(
                r,
                remote_platform(c),
                ChannelProbeStatus::Ready,
                "remote_auth"@,
                probe_messages(c).0,
            ),
            ProbeHttpOutcome::Status(s) => probe_fits(
                r,
                remote_platform(c),
                ChannelProbeStatus::Failed,
                "remote_auth"@,
                probe_messages(c).1 + s@,
            ),
            ProbeHttpOutcome::Failure(e) => probe_fits(
                r,
                remote_platform(c),
                ChannelProbeStatus::Failed,
                "remote_auth"@,
                e@,
            ),
        },
{
    let platform = platform_name(c);
    let (ok, failed) = match c {
        RemoteChannel::Telegram => ("Bot API auth probe succeeded", "Bot API probe failed with status "),
        RemoteChannel::Discord => ("Discord auth probe succeeded", "Discord auth probe failed with status "),
        RemoteChannel::Slack => ("Slack auth probe succeeded", "Slack auth probe failed with status "),
        RemoteChannel::Mattermost => ("Mattermost auth probe succeeded", "Mattermost auth probe failed with status "),
        RemoteChannel::Matrix => ("Matrix whoami probe succeeded", "Matrix whoami probe failed with status "),
    };
    match outcome {
        ProbeHttpOutcome::Success => ready_entry(platform, "remote_auth", owned(ok)),
        ProbeHttpOutcome::Status(s) => failed_entry(platform, "remote_auth", crate::text::concat2(failed, s.as_str())),
        ProbeHttpOutcome::Failure(e) => failed_entry(platform, "remote_auth", e),
    }
}

// ---------------------------------------------------------------------
// Channel registry

/// The flags of one channel account of the registry.
pub struct ChannelAccountFlags {
    pub enabled: bool,
    pub approved: bool,
    pub blocked: bool,
}

/// How many accounts carry a flag.
pub open spec fn count_accounts(v: Seq<ChannelAccountFlags>, f: spec_fn(ChannelAccountFlags) -> bool) -> nat
    decreases v.len(),
{
    if v.len() == 0 {
        0
    } else {
        count_accounts(v.drop_last(), f) + (if f(v.last()) { 1nat } else { 0nat })
    }
}

/// How many bindings are enabled.
pub open spec fn count_true(v: Seq<bool>) -> nat
    decreases v.len(),
{
    if v.len() == 0 {
        0
    } else {
        count_true(v.drop_last()) + (if v.last() { 1nat } else { 0nat })
    }
}

/// The registry counts of a service status: accounts in all and by flag,
/// bindings in all and enabled.
pub fn channel_registry_counts(accounts: &Vec<ChannelAccountFlags>, bindings_enabled: &Vec<bool>) -> (r:
    ChannelRegistryCounts)
    ensures
        r.total_accounts == accounts@.len(),
        r.enabled_accounts == count_accounts(accounts@, |a: ChannelAccountFlags| a.enabled),
        r.approved_accounts == count_accounts(accounts@, |a: ChannelAccountFlags| a.approved),
        r.blocked_accounts == count_accounts(accounts@, |a: ChannelAccountFlags| a.blocked),
        r.total_bindings == bindings_enabled@.len(),
        r.enabled_bindings == count_true(bindings_enabled@),
{
    let mut enabled: usize = 0;
    let mut approved: usize = 0;
    let mut blocked: usize = 0;
    let mut i: usize = 0;
    while i < accounts.len()
        invariant
            i <= accounts@.len(),
            enabled == count_accounts(accounts@.take(i as int), |a: ChannelAccountFlags| a.enabled),
            approved == count_accounts(accounts@.take(i as int), |a: ChannelAccountFlags| a.approved),
            blocked == count_accounts(accounts@.take(i as int), |a: ChannelAccountFlags| a.blocked),
            enabled <= i && approved <= i && blocked <= i,
        decreases accounts@.len() - i,
    {
        assert(accounts@.take(i + 1).drop_last() =~= accounts@.take(i as int));
        let a = &accounts[i];
        if a.enabled {
            enabled = enabled + 1;
        }
        if a.approved {
            approved = approved + 1;
        }
        if a.blocked {
            blocked = blocked + 1;
        }
        i = i + 1;
    }
    assert(accounts@.take(accounts@.len() as int) =~= accounts@);
    let mut on: usize = 0;
    let mut j: usize = 0;
    while j < bindings_enabled.len()
        invariant
            j <= bindings_enabled@.len(),
            on == count_true(bindings_enabled@.take(j as int)),
            on <= j,
        decreases bindings_enabled@.len() - j,
    {
        assert(bindings_enabled@.take(j + 1).drop_last() =~= bindings_enabled@.take(j as int));
        if bindings_enabled[j] {
            on = on + 1;
        }
        j = j + 1;
    }
    assert(bindings_enabled@.take(bindings_enabled@.len() as int) =~= bindings_enabled@);
    ChannelRegistryCounts {
        total_accounts: accounts.len(),
        enabled_accounts: enabled,
        approved_accounts: approved,
        blocked_accounts: blocked,
        total_bindings: bindings_enabled.len(),
        enabled_bindings: on,
    }
}

} // verus!

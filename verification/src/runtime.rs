//! Runtime management: the workspace's runtime files, provider lanes and
//! their roles, health classification, the runtime lock, user-service
//! definitions and `.env` entries.

use vstd::prelude::*;

use crate::paths::{join, join_path};
use crate::text::{
    clone_strings, concat2, concat3, concat5, contains, decimal, has_sub, is_blank, lower_seq, opt_clone,
    opt_string_view, owned, str_eq, strs, to_ascii_lowercase, trim, trim_seq, u64_text,
    vec_contains_str,
};

verus! {

pub const DEFAULT_VAULT_PATH: &'static str = ".claw/control/runtime-vault.json";
pub const DEFAULT_RUNTIME_HEALTH_PATH: &'static str = ".claw/control/runtime-health.json";
pub const DEFAULT_RUNTIME_RELOAD_STATE_PATH: &'static str = ".claw/control/runtime-reload-state.json";
pub const DEFAULT_RUNTIME_BEACON_PATH: &'static str = ".claw/control/runtime-beacon.json";
pub const DEFAULT_RUNTIME_BACKUP_ROOT: &'static str = ".claw/runtime-backups";
pub const DEFAULT_RUNTIME_RELEASE_ROOT: &'static str = ".claw/runtime-releases";
pub const DEFAULT_RUNTIME_LOCK_PATH: &'static str = ".claw/control/runtime-lock.json";
pub const DEFAULT_SYSTEMD_SERVICE_NAME: &'static str = "openrustclaw.service";
pub const DEFAULT_LAUNCHD_LABEL: &'static str = "dev.openrustclaw.openrustclaw";

// ---------------------------------------------------------------------
// Paths

/// The encrypted vault of a workspace.
pub fn vault_path_for(workspace_root: &str) -> (r: String)
    ensures
        r@ == join_path(workspace_root@, DEFAULT_VAULT_PATH@),
{
    join(workspace_root, DEFAULT_VAULT_PATH)
}

/// The cached runtime-health report of a workspace.
pub fn runtime_health_path_for(workspace_root: &str) -> (r: String)
    ensures
        r@ == join_path(workspace_root@, DEFAULT_RUNTIME_HEALTH_PATH@),
{
    join(workspace_root, DEFAULT_RUNTIME_HEALTH_PATH)
}

/// The applied-runtime snapshot of a workspace.
pub fn runtime_reload_state_path_for(workspace_root: &str) -> (r: String)
    ensures
        r@ == join_path(workspace_root@, DEFAULT_RUNTIME_RELOAD_STATE_PATH@),
{
    join(workspace_root, DEFAULT_RUNTIME_RELOAD_STATE_PATH)
}

/// The runtime beacon of a workspace.
pub fn runtime_beacon_path_for(workspace_root: &str) -> (r: String)
    ensures
        r@ == join_path(workspace_root@, DEFAULT_RUNTIME_BEACON_PATH@),
{
    join(workspace_root, DEFAULT_RUNTIME_BEACON_PATH)
}

/// The directory of runtime backups of a workspace.
pub fn runtime_backup_root_for(workspace_root: &str) -> (r: String)
    ensures
        r@ == join_path(workspace_root@, DEFAULT_RUNTIME_BACKUP_ROOT@),
{
    join(workspace_root, DEFAULT_RUNTIME_BACKUP_ROOT)
}

/// The directory of staged runtime releases of a workspace.
pub fn runtime_release_root_for(workspace_root: &str) -> (r: String)
    ensures
        r@ == join_path(workspace_root@, DEFAULT_RUNTIME_RELEASE_ROOT@),
{
    join(workspace_root, DEFAULT_RUNTIME_RELEASE_ROOT)
}

/// The runtime lock file of a workspace.
pub fn runtime_lock_path_for(workspace_root: &str) -> (r: String)
    ensures
        r@ == join_path(workspace_root@, DEFAULT_RUNTIME_LOCK_PATH@),
{
    join(workspace_root, DEFAULT_RUNTIME_LOCK_PATH)
}

/// A config path as the runtime reads it: absolute as given, otherwise
/// under the workspace.
pub fn resolve_runtime_config_path(workspace_root: &str, config_path: &str) -> (r: String)
    ensures
        (config_path@.len() > 0 && config_path@[0] == '/') ==> r@ == config_path@,
        !(config_path@.len() > 0 && config_path@[0] == '/') ==> r@ == join_path(workspace_root@, config_path@),
{
    join(workspace_root, config_path)
}

/// An artifact path as the runtime reads it: absolute as given, otherwise
/// under the workspace.
pub fn resolve_runtime_artifact_path(workspace_root: &str, artifact_path: &str) -> (r: String)
    ensures
        (artifact_path@.len() > 0 && artifact_path@[0] == '/') ==> r@ == artifact_path@,
        !(artifact_path@.len() > 0 && artifact_path@[0] == '/') ==> r@ == join_path(workspace_root@, artifact_path@),
{
    join(workspace_root, artifact_path)
}

// ---------------------------------------------------------------------
// Provider lanes

/// The provider settings of the effective configuration.
pub struct ProvidersSettings {
    pub default_provider: String,
    pub fallback_chain: Vec<String>,
    pub control_plane_provider: Option<String>,
    pub control_plane_fallback_chain: Vec<String>,
    pub anthropic_model: String,
    pub openai_model: String,
    pub openrouter_model: String,
    pub gemini_model: String,
    pub ollama_model: String,
}

/// The model configured for `provider`; an unknown provider reads the
/// Anthropic model.
pub open spec fn model_for(p: ProvidersSettings, provider: Seq<char>) -> Seq<char> {
    if provider == "anthropic"@ {
        p.anthropic_model@
    } else if provider == "openai"@ {
        p.openai_model@
    } else if provider == "openrouter"@ {
        p.openrouter_model@
    } else if provider == "ollama"@ {
        p.ollama_model@
    } else if provider == "gemini"@ {
        p.gemini_model@
    } else {
        p.anthropic_model@
    }
}

/// The model configured for `provider`.
pub fn provider_model_for(p: &ProvidersSettings, provider: &str) -> (r: String)
    ensures
        r@ == model_for(*p, provider@),
{
    if str_eq(provider, "anthropic") {
        p.anthropic_model.clone()
    } else if str_eq(provider, "openai") {
        p.openai_model.clone()
    } else if str_eq(provider, "openrouter") {
        p.openrouter_model.clone()
    } else if str_eq(provider, "ollama") {
        p.ollama_model.clone()
    } else if str_eq(provider, "gemini") {
        p.gemini_model.clone()
    } else {
        p.anthropic_model.clone()
    }
}

/// The model of the default provider.
pub fn default_model_for_provider(p: &ProvidersSettings) -> (r: String)
    ensures
        r@ == model_for(*p, p.default_provider@),
{
    provider_model_for(p, p.default_provider.as_str())
}

/// The provider that control-plane actions use: the configured
/// control-plane provider unless it is unset or blank, else the default.
pub open spec fn action_provider(p: ProvidersSettings) -> Seq<char> {
    match p.control_plane_provider {
        Some(c) => if trim_seq(c@).len() > 0 {
            c@
        } else {
            p.default_provider@
        },
        None => p.default_provider@,
    }
}

/// The provider that control-plane actions use.
pub fn effective_control_plane_action_provider(p: &ProvidersSettings) -> (r: String)
    ensures
        r@ == action_provider(*p),
{
    match &p.control_plane_provider {
        Some(c) => if !is_blank(c.as_str()) {
            c.clone()
        } else {
            p.default_provider.clone()
        },
        None => p.default_provider.clone(),
    }
}

/// The control-plane primary: the configured control-plane provider, else
/// the default provider.
pub open spec fn control_plane_primary(p: ProvidersSettings) -> Seq<char> {
    match p.control_plane_provider {
        Some(c) => c@,
        None => p.default_provider@,
    }
}

/// The control-plane lane in failover order: its primary, then its
/// fallbacks.
pub open spec fn control_plane_order(p: ProvidersSettings) -> Seq<Seq<char>> {
    seq![control_plane_primary(p)] + strs(p.control_plane_fallback_chain@)
}

fn push_text(v: &mut Vec<String>, s: String)
    ensures
        strs(final(v)@) == strs(old(v)@).push(s@),
{
    let ghost before = old(v)@;
    v.push(s);
    assert(strs(v@) =~= strs(before).push(s@));
}

fn append_all(v: &mut Vec<String>, w: &Vec<String>)
    ensures
        strs(final(v)@) == strs(old(v)@) + strs(w@),
{
    let ghost start = strs(old(v)@);
    let mut i: usize = 0;
    while i < w.len()
        invariant
            i <= w.len(),
            strs(v@) == start + strs(w@.take(i as int)),
        decreases w.len() - i,
    {
        push_text(v, w[i].clone());
        assert(strs(w@.take(i + 1)) =~= strs(w@.take(i as int)).push(w@[i as int]@));
        i = i + 1;
    }
    assert(w@.take(w.len() as int) =~= w@);
}

/// The control-plane lane in failover order.
pub fn control_plane_provider_order(p: &ProvidersSettings) -> (r: Vec<String>)
    ensures
        strs(r@) == control_plane_order(*p),
{
    let primary = match &p.control_plane_provider {
        Some(c) => c.clone(),
        None => p.default_provider.clone(),
    };
    let mut out: Vec<String> = Vec::new();
    push_text(&mut out, primary);
    append_all(&mut out, &p.control_plane_fallback_chain);
    assert(strs(out@) =~= control_plane_order(*p));
    out
}

/// `s` with each element after its first occurrence dropped.
pub open spec fn first_occurrences(s: Seq<Seq<char>>) -> Seq<Seq<char>>
    decreases s.len(),
{
    if s.len() == 0 {
        s
    } else {
        let prev = first_occurrences(s.drop_last());
        if prev.contains(s.last()) {
            prev
        } else {
            prev.push(s.last())
        }
    }
}

/// Every provider a health scan visits, once each, in order: the default,
/// the fallbacks, then the control-plane lane.
pub open spec fn scan_order(p: ProvidersSettings) -> Seq<Seq<char>> {
    first_occurrences(seq![p.default_provider@] + strs(p.fallback_chain@) + control_plane_order(p))
}

proof fn lemma_first_occurrences_contains(s: Seq<Seq<char>>, x: Seq<char>)
    ensures
        first_occurrences(s).contains(x) == s.contains(x),
    decreases s.len(),
{
    if s.len() > 0 {
        lemma_first_occurrences_contains(s.drop_last(), x);
        assert(s =~= s.drop_last().push(s.last()));
        if s.drop_last().contains(x) {
            let k = choose|k: int| 0 <= k < s.drop_last().len() && s.drop_last()[k] == x;
            assert(s[k] == x);
        }
        if s.contains(x) {
            let k = choose|k: int| 0 <= k < s.len() && s[k] == x;
            if k < s.len() - 1 {
                assert(s.drop_last()[k] == x);
            }
        }
        let prev = first_occurrences(s.drop_last());
        if !prev.contains(s.last()) {
            assert(prev.push(s.last())[prev.len() as int] == s.last());
            if prev.push(s.last()).contains(x) {
                let k = choose|k: int| 0 <= k < prev.push(s.last()).len() && prev.push(s.last())[k] == x;
                if k < prev.len() {
                    assert(prev[k] == x);
                }
            }
            if prev.contains(x) {
                let k = choose|k: int| 0 <= k < prev.len() && prev[k] == x;
                assert(prev.push(s.last())[k] == x);
            }
        }
    }
}

/// The distinct providers of `all`, in order of first occurrence.
pub(crate) fn dedup_in_order(all: &Vec<String>) -> (r: Vec<String>)
    ensures
        strs(r@) == first_occurrences(strs(all@)),
{
    let mut out: Vec<String> = Vec::new();
    let mut i: usize = 0;
    while i < all.len()
        invariant
            i <= all.len(),
            strs(out@) == first_occurrences(strs(all@.take(i as int))),
        decreases all.len() - i,
    {
        let x = &all[i];
        assert(strs(all@.take(i + 1)).drop_last() =~= strs(all@.take(i as int)));
        assert(strs(all@.take(i + 1)).last() == x@);
        if !vec_contains_str(&out, x.as_str()) {
            push_text(&mut out, x.clone());
        }
        i = i + 1;
    }
    assert(all@.take(all.len() as int) =~= all@);
    out
}

/// Every provider a health scan visits, once each, in order.
pub fn health_scan_provider_order(p: &ProvidersSettings) -> (r: Vec<String>)
    ensures
        strs(r@) == scan_order(*p),
{
    let mut all: Vec<String> = Vec::new();
    push_text(&mut all, p.default_provider.clone());
    append_all(&mut all, &p.fallback_chain);
    let cp = control_plane_provider_order(p);
    append_all(&mut all, &cp);
    assert(strs(all@) =~= seq![p.default_provider@] + strs(p.fallback_chain@) + control_plane_order(*p));
    dedup_in_order(&all)
}

/// The first index of `x` in `s`, if any.
pub open spec fn position_of(s: Seq<Seq<char>>, x: Seq<char>) -> Option<nat>
    decreases s.len(),
{
    if s.len() == 0 {
        None
    } else if s[0] == x {
        Some(0)
    } else {
        match position_of(s.drop_first(), x) {
            Some(i) => Some(i + 1),
            None => None,
        }
    }
}

fn position_in(v: &Vec<String>, x: &str) -> (r: Option<usize>)
    ensures
        r matches Some(i) ==> position_of(strs(v@), x@) == Some(i as nat) && i < v@.len(),
        r is None ==> position_of(strs(v@), x@) is None,
{
    let ghost s = strs(v@);
    let mut i: usize = 0;
    assert(s.skip(0) =~= s);
    while i < v.len()
        invariant
            i <= v.len(),
            s == strs(v@),
            position_of(s, x@) == match position_of(s.skip(i as int), x@) {
                Some(k) => Some((k + i) as nat),
                None => None::<nat>,
            },
        decreases v.len() - i,
    {
        assert(s.skip(i as int).drop_first() =~= s.skip(i + 1));
        if str_eq(v[i].as_str(), x) {
            return Some(i);
        }
        i = i + 1;
    }
    None
}

/// The role a provider plays in the runtime.
pub open spec fn runtime_role(provider: Seq<char>, p: ProvidersSettings) -> Seq<char> {
    let cp_pos = position_of(strs(p.control_plane_fallback_chain@), provider);
    let fb_pos = position_of(strs(p.fallback_chain@), provider);
    if provider == p.default_provider@ {
        "primary"@
    } else if opt_string_view(p.control_plane_provider) == Some(provider) {
        "control_plane_primary"@
    } else if cp_pos is Some {
        "control_plane_fallback_"@ + decimal(cp_pos.unwrap() + 1)
    } else if fb_pos is Some {
        "fallback_"@ + decimal(fb_pos.unwrap() + 1)
    } else {
        "fallback_0"@
    }
}

fn index_text(i: usize) -> (r: String)
    ensures
        r@ == decimal(i as nat),
{
    u64_text(i as u64)
}

/// The role a provider plays in the runtime: the primary, the control-plane
/// primary, the n-th control-plane fallback, or the n-th fallback (0 when
/// it is in no chain).
pub fn provider_runtime_role(provider: &str, p: &ProvidersSettings) -> (r: String)
    ensures
        r@ == runtime_role(provider@, *p),
{
    if str_eq(provider, p.default_provider.as_str()) {
        return owned("primary");
    }
    match &p.control_plane_provider {
        Some(c) => {
            if str_eq(c.as_str(), provider) {
                return owned("control_plane_primary");
            }
        },
        None => {},
    }
    match position_in(&p.control_plane_fallback_chain, provider) {
        Some(i) => {
            assert(p.control_plane_fallback_chain@.len() == p.control_plane_fallback_chain.len());
            let t = index_text(i + 1);
            return concat2("control_plane_fallback_", t.as_str());
        },
        None => {},
    }
    match position_in(&p.fallback_chain, provider) {
        Some(i) => {
            assert(p.fallback_chain@.len() == p.fallback_chain.len());
            let t = index_text(i + 1);
            concat2("fallback_", t.as_str())
        },
        None => owned("fallback_0"),
    }
}

/// Why a provider is recommended, when it is.
pub open spec fn recommendation_for(provider: Seq<char>, p: ProvidersSettings) -> Option<Seq<char>> {
    if opt_string_view(p.control_plane_provider) == Some(provider) {
        Some("configured control-plane primary"@)
    } else if strs(p.control_plane_fallback_chain@).contains(provider) {
        Some("configured control-plane fallback"@)
    } else if provider == p.default_provider@ {
        Some("configured task/runtime primary"@)
    } else {
        None
    }
}

/// Why a provider is recommended, when it is.
pub fn provider_recommendation(provider: &str, p: &ProvidersSettings) -> (r: Option<String>)
    ensures
        opt_string_view(r) == recommendation_for(provider@, *p),
{
    match &p.control_plane_provider {
        Some(c) => {
            if str_eq(c.as_str(), provider) {
                return Some(owned("configured control-plane primary"));
            }
        },
        None => {},
    }
    if vec_contains_str(&p.control_plane_fallback_chain, provider) {
        return Some(owned("configured control-plane fallback"));
    }
    if str_eq(provider, p.default_provider.as_str()) {
        return Some(owned("configured task/runtime primary"));
    }
    None
}

// ---------------------------------------------------------------------
// Channels

/// Which channels the configuration enables.
pub struct ChannelSwitches {
    pub telegram: bool,
    pub discord: bool,
    pub slack: bool,
    pub whatsapp: bool,
    pub teams: bool,
    pub mattermost: bool,
    pub google_chat: bool,
    pub google_meet: bool,
    pub gmail_pubsub: bool,
    pub signal: bool,
    pub matrix: bool,
    pub imessage: bool,
}

/// `[name]` when `on`, else nothing.
pub open spec fn when_on(on: bool, name: Seq<char>) -> Seq<Seq<char>> {
    if on {
        seq![name]
    } else {
        seq![]
    }
}

/// The enabled channels, in the fixed order the runtime lists them.
pub open spec fn enabled_channel_names(c: ChannelSwitches) -> Seq<Seq<char>> {
    when_on(c.telegram, "telegram"@) + when_on(c.discord, "discord"@) + when_on(c.slack, "slack"@)
        + when_on(c.whatsapp, "whatsapp"@) + when_on(c.teams, "teams"@) + when_on(c.mattermost, "mattermost"@)
        + when_on(c.google_chat, "google_chat"@) + when_on(c.google_meet, "google_meet"@) + when_on(
        c.gmail_pubsub,
        "gmail_pubsub"@,
    ) + when_on(c.signal, "signal"@) + when_on(c.matrix, "matrix"@) + when_on(c.imessage, "imessage"@)
}

fn push_if(v: &mut Vec<String>, on: bool, name: &str)
    ensures
        strs(final(v)@) == strs(old(v)@) + when_on(on, name@),
{
    if on {
        push_text(v, owned(name));
    }
    assert(strs(v@) =~= strs(old(v)@) + when_on(on, name@));
}

/// The enabled channels, in the fixed order the runtime lists them.
pub fn enabled_channels(c: &ChannelSwitches) -> (r: Vec<String>)
    ensures
        strs(r@) == enabled_channel_names(*c),
{
    let mut v: Vec<String> = Vec::new();
    push_if(&mut v, c.telegram, "telegram");
    push_if(&mut v, c.discord, "discord");
    push_if(&mut v, c.slack, "slack");
    push_if(&mut v, c.whatsapp, "whatsapp");
    push_if(&mut v, c.teams, "teams");
    push_if(&mut v, c.mattermost, "mattermost");
    push_if(&mut v, c.google_chat, "google_chat");
    push_if(&mut v, c.google_meet, "google_meet");
    push_if(&mut v, c.gmail_pubsub, "gmail_pubsub");
    push_if(&mut v, c.signal, "signal");
    push_if(&mut v, c.matrix, "matrix");
    push_if(&mut v, c.imessage, "imessage");
    assert(strs(v@) =~= enabled_channel_names(*c));
    v
}

// ---------------------------------------------------------------------
// Health classification

/// The issue kind of an HTTP status from a provider probe.
pub open spec fn status_issue(code: u16) -> Seq<char> {
    if code == 401 || code == 403 {
        "auth"@
    } else if code == 402 {
        "billing"@
    } else if code == 404 {
        "model_unavailable"@
    } else if code == 429 {
        "rate_limited"@
    } else if 500 <= code <= 599 {
        "provider_unavailable"@
    } else {
        "probe_failed"@
    }
}

/// The issue kind of an HTTP status from a provider probe.
pub fn classify_provider_status(code: u16) -> (r: &'static str)
    ensures
        r@ == status_issue(code),
{
    if code == 401 || code == 403 {
        "auth"
    } else if code == 402 {
        "billing"
    } else if code == 404 {
        "model_unavailable"
    } else if code == 429 {
        "rate_limited"
    } else if 500 <= code && code <= 599 {
        "provider_unavailable"
    } else {
        "probe_failed"
    }
}

/// The issue kind of a probe's error message, read case-insensitively.
pub open spec fn error_issue(message: Seq<char>) -> Seq<char> {
    let l = lower_seq(message);
    if has_sub(l, "environment variable not set"@) {
        "not_configured"@
    } else if has_sub(l, "auth"@) || has_sub(l, "unauthorized"@) || has_sub(l, "forbidden"@) {
        "auth"@
    } else if has_sub(l, "billing"@) || has_sub(l, "quota"@) || has_sub(l, "credit"@) {
        "billing"@
    } else if has_sub(l, "rate"@) && has_sub(l, "limit"@) {
        "rate_limited"@
    } else if has_sub(l, "not listed"@) || has_sub(l, "unknown model"@) {
        "model_unavailable"@
    } else {
        "probe_failed"@
    }
}

/// The issue kind of a probe's error message.
pub fn classify_provider_error(message: &str) -> (r: &'static str)
    ensures
        r@ == error_issue(message@),
{
    let lower = to_ascii_lowercase(message);
    let l = lower.as_str();
    if contains(l, "environment variable not set") {
        "not_configured"
    } else if contains(l, "auth") || contains(l, "unauthorized") || contains(l, "forbidden") {
        "auth"
    } else if contains(l, "billing") || contains(l, "quota") || contains(l, "credit") {
        "billing"
    } else if contains(l, "rate") && contains(l, "limit") {
        "rate_limited"
    } else if contains(l, "not listed") || contains(l, "unknown model") {
        "model_unavailable"
    } else {
        "probe_failed"
    }
}


// ---------------------------------------------------------------------
// Health scan

/// What probing a provider found.
pub struct ProviderHealthProbe {
    pub healthy: bool,
    pub issue_kind: Option<String>,
    pub issue: Option<String>,
    pub model_available: Option<bool>,
    pub limit_snapshot: Option<String>,
}

/// The model a health scan checks for `provider`: the configured one for
/// the five known providers, none for others.
pub open spec fn scan_model_for(p: ProvidersSettings, provider: Seq<char>) -> Seq<char> {
    if provider == "anthropic"@ {
        p.anthropic_model@
    } else if provider == "openai"@ {
        p.openai_model@
    } else if provider == "openrouter"@ {
        p.openrouter_model@
    } else if provider == "gemini"@ {
        p.gemini_model@
    } else if provider == "ollama"@ {
        p.ollama_model@
    } else {
        seq![]
    }
}

/// The model a health scan checks for `provider`.
pub fn scan_model_for_provider(p: &ProvidersSettings, provider: &str) -> (r: String)
    ensures
        r@ == scan_model_for(*p, provider@),
{
    if str_eq(provider, "anthropic") {
        p.anthropic_model.clone()
    } else if str_eq(provider, "openai") {
        p.openai_model.clone()
    } else if str_eq(provider, "openrouter") {
        p.openrouter_model.clone()
    } else if str_eq(provider, "gemini") {
        p.gemini_model.clone()
    } else if str_eq(provider, "ollama") {
        p.ollama_model.clone()
    } else {
        String::new()
    }
}

/// The health entry of `provider` from its probe, or from the error that
/// stopped the probe: such a provider is unhealthy, and counts as
/// configured unless its key was missing.
pub open spec fn health_entry_fits(
    e: RuntimeHealthProviderEntry,
    provider: Seq<char>,
    p: ProvidersSettings,
    probe: Result<ProviderHealthProbe, Seq<char>>,
) -> bool {
    &&& e.provider@ == provider
    &&& e.role@ == runtime_role(provider, p)
    &&& e.model@ == scan_model_for(p, provider)
    &&& opt_string_view(e.recommendation) == recommendation_for(provider, p)
    &&& match probe {
        Ok(probe) => {
            &&& e.configured
            &&& e.healthy == probe.healthy
            &&& e.issue_kind == probe.issue_kind
            &&& e.issue == probe.issue
            &&& e.model_available == probe.model_available
            &&& e.limit_snapshot == probe.limit_snapshot
        },
        Err(error) => {
            &&& e.configured == !has_sub(error, "environment variable not set"@)
            &&& !e.healthy
            &&& opt_string_view(e.issue_kind) == Some(error_issue(error))
            &&& opt_string_view(e.issue) == Some(error)
            &&& e.model_available is None
            &&& e.limit_snapshot is None
        },
    }
}

/// The health entry of one provider of a scan.
pub fn provider_health_entry(
    provider: &str,
    p: &ProvidersSettings,
    probe: Result<ProviderHealthProbe, String>,
) -> (r: RuntimeHealthProviderEntry)
    ensures
        health_entry_fits(
            r,
            provider@,
            *p,
            match probe {
                Ok(b) => Ok(b),
                Err(e) => Err(e@),
            },
        ),
{
    let role = provider_runtime_role(provider, p);
    let model = scan_model_for_provider(p, provider);
    let recommendation = provider_recommendation(provider, p);
    match probe {
        Ok(probe) => RuntimeHealthProviderEntry {
            provider: owned(provider),
            role,
            model,
            configured: true,
            healthy: probe.healthy,
            issue_kind: probe.issue_kind,
            recommendation,
            issue: probe.issue,
            model_available: probe.model_available,
            limit_snapshot: probe.limit_snapshot,
        },
        Err(error) => {
            let configured = !contains(error.as_str(), "environment variable not set");
            let kind = owned(classify_provider_error(error.as_str()));
            RuntimeHealthProviderEntry {
                provider: owned(provider),
                role,
                model,
                configured,
                healthy: false,
                issue_kind: Some(kind),
                recommendation,
                issue: Some(error),
                model_available: None,
                limit_snapshot: None,
            }
        },
    }
}

/// The first healthy entry, from the front, whose provider is in `lane`.
pub open spec fn first_healthy_in(s: Seq<RuntimeHealthProviderEntry>, lane: Seq<Seq<char>>) -> Option<Seq<char>>
    decreases s.len(),
{
    if s.len() == 0 {
        None
    } else if lane.contains(s[0].provider@) && s[0].healthy {
        Some(s[0].provider@)
    } else {
        first_healthy_in(s.drop_first(), lane)
    }
}

/// Whether the control-plane primary has a healthy entry.
pub open spec fn primary_healthy(p: ProvidersSettings, entries: Seq<RuntimeHealthProviderEntry>) -> bool {
    match entry_for(entries, control_plane_primary(p)) {
        Some(e) => e.healthy,
        None => false,
    }
}

/// The provider control-plane actions should use: the first healthy one
/// of the control-plane lane in scan order, else the primary when healthy.
pub open spec fn recommended_control_plane(p: ProvidersSettings, entries: Seq<RuntimeHealthProviderEntry>) -> Option<
    Seq<char>,
> {
    match first_healthy_in(entries, control_plane_order(p)) {
        Some(x) => Some(x),
        None => if primary_healthy(p, entries) {
            Some(control_plane_primary(p))
        } else {
            None
        },
    }
}

fn first_healthy_provider(entries: &Vec<RuntimeHealthProviderEntry>, lane: &Vec<String>) -> (r: Option<String>)
    ensures
        opt_string_view(r) == first_healthy_in(entries@, strs(lane@)),
{
    let mut i: usize = 0;
    assert(entries@.skip(0) =~= entries@);
    while i < entries.len()
        invariant
            i <= entries@.len(),
            first_healthy_in(entries@, strs(lane@)) == first_healthy_in(entries@.skip(i as int), strs(lane@)),
        decreases entries@.len() - i,
    {
        assert(entries@.skip(i as int)[0] == entries@[i as int]);
        assert(entries@.skip(i as int).drop_first() =~= entries@.skip(i + 1));
        if vec_contains_str(lane, entries[i].provider.as_str()) && entries[i].healthy {
            return Some(entries[i].provider.clone());
        }
        i = i + 1;
    }
    None
}

proof fn lemma_first_healthy_found(s: Seq<RuntimeHealthProviderEntry>, lane: Seq<Seq<char>>, i: int)
    requires
        0 <= i < s.len(),
        lane.contains(s[i].provider@),
        s[i].healthy,
    ensures
        first_healthy_in(s, lane) is Some,
    decreases s.len(),
{
    if !(lane.contains(s[0].provider@) && s[0].healthy) {
        assert(s.drop_first()[i - 1] == s[i]);
        lemma_first_healthy_found(s.drop_first(), lane, i - 1);
    }
}

/// Whenever a scan finds the control plane degraded, it names a healthy
/// provider of the control-plane lane to use instead.
pub proof fn law_degraded_scan_recommends_a_provider(p: ProvidersSettings, entries: Seq<RuntimeHealthProviderEntry>)
    requires
        !primary_healthy(p, entries) && healthy_fallback(p, entries),
    ensures
        recommended_control_plane(p, entries) is Some,
        first_healthy_in(entries, control_plane_order(p)) is Some,
{
    let i = choose|i: int|
        0 <= i < entries.len() && strs(p.control_plane_fallback_chain@).contains(#[trigger] entries[i].provider@)
            && entries[i].healthy;
    let k = choose|k: int|
        0 <= k < strs(p.control_plane_fallback_chain@).len() && strs(p.control_plane_fallback_chain@)[k]
            == entries[i].provider@;
    assert(control_plane_order(p)[k + 1] == entries[i].provider@);
    lemma_first_healthy_found(entries, control_plane_order(p), i);
}

/// Files of the workspace's artifact registry, as the scan summarizes them.
pub struct RuntimeArtifactHealth {
    pub artifact_count: usize,
    pub persona_artifact_count: usize,
    pub registry_path: String,
    pub model_family: String,
    pub included_for_default_model: usize,
}

/// The report of a runtime health scan.
pub struct RuntimeHealthReport {
    pub generated_at: String,
    pub config_path: String,
    pub default_provider: String,
    pub fallback_chain: Vec<String>,
    pub control_plane_provider: Option<String>,
    pub control_plane_fallback_chain: Vec<String>,
    pub recommended_control_plane_provider: Option<String>,
    pub startup_fallback_valid: bool,
    pub degraded_control_plane_mode: bool,
    pub failover_recommendations: Vec<String>,
    pub operator_warnings: Vec<String>,
    pub providers: Vec<RuntimeHealthProviderEntry>,
    pub artifacts: RuntimeArtifactHealth,
}

/// What a running gateway announces of itself.
pub struct RuntimeBeacon {
    pub generated_at: String,
    pub process_id: u32,
    pub gateway_addr: String,
    pub started_at: Option<String>,
    pub uptime_seconds: Option<i64>,
    pub sidecar_running: bool,
    pub default_provider: String,
    pub degraded_control_plane_mode: bool,
    pub recommended_control_plane_provider: Option<String>,
}

/// The beacon of a gateway from its latest health report: the uptime is
/// the time elapsed since it started (`elapsed_seconds`), never negative.
pub fn runtime_beacon_from_health(
    health: &RuntimeHealthReport,
    generated_at: String,
    process_id: u32,
    gateway_addr: &str,
    started_at: Option<String>,
    elapsed_seconds: Option<i64>,
    sidecar_running: bool,
) -> (r: RuntimeBeacon)
    ensures
        r.generated_at == generated_at,
        r.process_id == process_id,
        r.gateway_addr@ == gateway_addr@,
        r.started_at == started_at,
        r.uptime_seconds == (match elapsed_seconds {
            Some(e) => Some(if e < 0 { 0i64 } else { e }),
            None => None,
        }),
        r.sidecar_running == sidecar_running,
        r.default_provider@ == health.default_provider@,
        r.degraded_control_plane_mode == health.degraded_control_plane_mode,
        opt_string_view(r.recommended_control_plane_provider) == opt_string_view(
            health.recommended_control_plane_provider,
        ),
{
    let uptime_seconds = match elapsed_seconds {
        Some(e) => Some(if e < 0 { 0i64 } else { e }),
        None => None,
    };
    RuntimeBeacon {
        generated_at,
        process_id,
        gateway_addr: owned(gateway_addr),
        started_at,
        uptime_seconds,
        sidecar_running,
        default_provider: health.default_provider.clone(),
        degraded_control_plane_mode: health.degraded_control_plane_mode,
        recommended_control_plane_provider: crate::text::opt_clone(&health.recommended_control_plane_provider),
    }
}

/// The report of a scan whose provider entries, in scan order, are
/// `entries`: the control plane is degraded when its primary is not
/// healthy while a fallback is; the recommendations and warnings are those
/// of the scan, the warnings measured against the previous scan's entries.
pub fn runtime_health_report(
    generated_at: String,
    config_path: &str,
    p: &ProvidersSettings,
    entries: Vec<RuntimeHealthProviderEntry>,
    previous_providers: Option<&Vec<RuntimeHealthProviderEntry>>,
    artifacts: RuntimeArtifactHealth,
) -> (r: RuntimeHealthReport)
    ensures
        r.generated_at == generated_at,
        r.config_path@ == config_path@,
        r.default_provider@ == p.default_provider@,
        strs(r.fallback_chain@) == strs(p.fallback_chain@),
        opt_string_view(r.control_plane_provider) == Some(control_plane_primary(*p)),
        strs(r.control_plane_fallback_chain@) == strs(p.control_plane_fallback_chain@),
        r.startup_fallback_valid == healthy_fallback(*p, entries@),
        r.degraded_control_plane_mode == (!primary_healthy(*p, entries@) && healthy_fallback(*p, entries@)),
        opt_string_view(r.recommended_control_plane_provider) == recommended_control_plane(*p, entries@),
        strs(r.failover_recommendations@) == failover_recommendations(
            *p,
            control_plane_order(*p).len(),
            entries@,
            recommended_control_plane(*p, entries@),
        ),
        strs(r.operator_warnings@) == operator_warnings(
            *p,
            control_plane_order(*p),
            entries@,
            recommended_control_plane(*p, entries@),
            match previous_providers {
                Some(v) => Some(v@),
                None => None,
            },
        ),
        r.providers == entries,
        r.artifacts == artifacts,
{
    let chain = control_plane_provider_order(p);
    let primary = match &p.control_plane_provider {
        Some(c) => c.clone(),
        None => p.default_provider.clone(),
    };
    let startup_fallback_valid = has_healthy_fallback(p, &entries);
    let primary_ok = match find_provider_entry(&entries, primary.as_str()) {
        Some(e) => e.healthy,
        None => false,
    };
    let recommended = match first_healthy_provider(&entries, &chain) {
        Some(x) => Some(x),
        None => if primary_ok {
            Some(primary.clone())
        } else {
            None
        },
    };
    let failover = build_failover_recommendations(p, &chain, &entries, crate::text::opt_as_str(&recommended));
    let warnings = build_runtime_operator_warnings(
        p,
        &chain,
        &entries,
        crate::text::opt_as_str(&recommended),
        previous_providers,
    );
    RuntimeHealthReport {
        generated_at,
        config_path: owned(config_path),
        default_provider: p.default_provider.clone(),
        fallback_chain: clone_strings(&p.fallback_chain),
        control_plane_provider: Some(primary),
        control_plane_fallback_chain: clone_strings(&p.control_plane_fallback_chain),
        recommended_control_plane_provider: recommended,
        startup_fallback_valid,
        degraded_control_plane_mode: !primary_ok && startup_fallback_valid,
        failover_recommendations: failover,
        operator_warnings: warnings,
        providers: entries,
        artifacts,
    }
}

// ---------------------------------------------------------------------
// Failover guidance

/// One provider as the latest health scan found it.
pub struct RuntimeHealthProviderEntry {
    pub provider: String,
    pub role: String,
    pub model: String,
    pub configured: bool,
    pub healthy: bool,
    pub issue_kind: Option<String>,
    pub recommendation: Option<String>,
    pub issue: Option<String>,
    pub model_available: Option<bool>,
    pub limit_snapshot: Option<String>,
}

/// Some entry for a control-plane fallback provider is healthy.
pub open spec fn healthy_fallback(p: ProvidersSettings, entries: Seq<RuntimeHealthProviderEntry>) -> bool {
    exists|i: int|
        0 <= i < entries.len() && strs(p.control_plane_fallback_chain@).contains(#[trigger] entries[i].provider@)
            && entries[i].healthy
}

/// The failover recommendations of a health scan.
pub open spec fn failover_recommendations(
    p: ProvidersSettings,
    chain_len: nat,
    entries: Seq<RuntimeHealthProviderEntry>,
    recommended: Option<Seq<char>>,
) -> Seq<Seq<char>> {
    (match recommended {
        Some(r) => seq![
            "Use `"@ + r
                + "` as the current control-plane provider for onboarding, config edits, and model-switch operations."@,
        ],
        None => seq![],
    }) + (if chain_len < 2 {
        seq![
            "Configure `providers.control_plane_fallback_chain` so control-plane actions still work when the control-plane primary is unavailable."@,
        ]
    } else {
        seq![]
    }) + (if !strs(p.control_plane_fallback_chain@).contains("ollama"@) {
        seq![
            "Consider adding `ollama` to `providers.control_plane_fallback_chain` for a local/offline control-plane fallback."@,
        ]
    } else {
        seq![]
    }) + (if !healthy_fallback(p, entries) {
        seq![
            "No healthy control-plane fallback is currently available; configure or repair at least one fallback provider before the next model swap."@,
        ]
    } else {
        seq![]
    })
}

fn has_healthy_fallback(p: &ProvidersSettings, entries: &Vec<RuntimeHealthProviderEntry>) -> (r: bool)
    ensures
        r == healthy_fallback(*p, entries@),
{
    let mut i: usize = 0;
    while i < entries.len()
        invariant
            i <= entries.len(),
            forall|k: int|
                0 <= k < i ==> !(strs(p.control_plane_fallback_chain@).contains(#[trigger] entries@[k].provider@)
                    && entries@[k].healthy),
        decreases entries.len() - i,
    {
        if vec_contains_str(&p.control_plane_fallback_chain, entries[i].provider.as_str()) && entries[i].healthy {
            return true;
        }
        i = i + 1;
    }
    false
}

/// What to do so that control-plane actions survive a provider outage.
pub fn build_failover_recommendations(
    p: &ProvidersSettings,
    control_plane_chain: &Vec<String>,
    entries: &Vec<RuntimeHealthProviderEntry>,
    recommended_control_plane_provider: Option<&str>,
) -> (r: Vec<String>)
    ensures
        strs(r@) == failover_recommendations(
            *p,
            control_plane_chain@.len(),
            entries@,
            crate::text::opt_str_view(recommended_control_plane_provider),
        ),
{
    let mut out: Vec<String> = Vec::new();
    match recommended_control_plane_provider {
        Some(provider) => push_text(
            &mut out,
            concat3(
                "Use `",
                provider,
                "` as the current control-plane provider for onboarding, config edits, and model-switch operations.",
            ),
        ),
        None => {},
    }
    if control_plane_chain.len() < 2 {
        push_text(
            &mut out,
            owned("Configure `providers.control_plane_fallback_chain` so control-plane actions still work when the control-plane primary is unavailable."),
        );
    }
    if !vec_contains_str(&p.control_plane_fallback_chain, "ollama") {
        push_text(
            &mut out,
            owned("Consider adding `ollama` to `providers.control_plane_fallback_chain` for a local/offline control-plane fallback."),
        );
    }
    if !has_healthy_fallback(p, entries) {
        push_text(
            &mut out,
            owned("No healthy control-plane fallback is currently available; configure or repair at least one fallback provider before the next model swap."),
        );
    }
    assert(strs(out@) =~= failover_recommendations(
        *p,
        control_plane_chain@.len(),
        entries@,
        crate::text::opt_str_view(recommended_control_plane_provider),
    ));
    out
}

/// The first entry for `provider`, if any.
pub open spec fn entry_for(s: Seq<RuntimeHealthProviderEntry>, provider: Seq<char>) -> Option<RuntimeHealthProviderEntry>
    decreases s.len(),
{
    if s.len() == 0 {
        None
    } else if s[0].provider@ == provider {
        Some(s[0])
    } else {
        entry_for(s.drop_first(), provider)
    }
}

/// The first entry for `provider`, if any.
pub fn find_provider_entry<'a>(v: &'a Vec<RuntimeHealthProviderEntry>, provider: &str) -> (r: Option<&'a RuntimeHealthProviderEntry>)
    ensures
        match r {
            Some(e) => entry_for(v@, provider@) == Some(*e),
            None => entry_for(v@, provider@) is None,
        },
{
    let mut i: usize = 0;
    assert(v@.skip(0) =~= v@);
    while i < v.len()
        invariant
            i <= v.len(),
            entry_for(v@, provider@) == entry_for(v@.skip(i as int), provider@),
        decreases v.len() - i,
    {
        assert(v@.skip(i as int).drop_first() =~= v@.skip(i + 1));
        if str_eq(v[i].provider.as_str(), provider) {
            return Some(&v[i]);
        }
        i = i + 1;
    }
    None
}

/// Some value occurs twice in `s`.
pub open spec fn has_duplicates(s: Seq<Seq<char>>) -> bool {
    exists|i: int, j: int| 0 <= i < j < s.len() && s[i] == s[j]
}

fn contains_duplicates(v: &Vec<String>) -> (r: bool)
    ensures
        r == has_duplicates(strs(v@)),
{
    let ghost s = strs(v@);
    let mut j: usize = 0;
    while j < v.len()
        invariant
            j <= v.len(),
            s == strs(v@),
            forall|a: int, b: int| 0 <= a < b < j ==> s[a] != s[b],
        decreases v.len() - j,
    {
        let mut i: usize = 0;
        while i < j
            invariant
                i <= j < v.len(),
                s == strs(v@),
                forall|a: int, b: int| 0 <= a < b < j ==> s[a] != s[b],
                forall|a: int| 0 <= a < i ==> s[a] != s[j as int],
            decreases j - i,
        {
            if str_eq(v[i].as_str(), v[j].as_str()) {
                assert(s[i as int] == s[j as int]);
                return true;
            }
            i = i + 1;
        }
        j = j + 1;
    }
    false
}

/// The warning an entry's issue raises, if any.
pub open spec fn issue_warning(e: RuntimeHealthProviderEntry) -> Seq<Seq<char>> {
    match opt_string_view(e.issue_kind) {
        Some(k) => if k == "model_unavailable"@ {
            seq![
                "Configured model `"@ + e.model@ + "` is no longer listed by provider `"@ + e.provider@
                    + "`; update that lane before the next runtime cutover."@,
            ]
        } else if k == "auth"@ {
            seq![
                "Provider `"@ + e.provider@
                    + "` reported an authentication or access error during the latest health scan."@,
            ]
        } else if k == "billing"@ {
            seq!["Provider `"@ + e.provider@ + "` reported a billing or quota error during the latest health scan."@]
        } else if k == "rate_limited"@ {
            seq![
                "Provider `"@ + e.provider@
                    + "` is currently rate-limited; expect degraded failover behavior until the limit window resets."@,
            ]
        } else {
            seq![]
        },
        None => seq![],
    }
}

/// The warnings the issues of all entries raise, in entry order.
pub open spec fn issue_warnings(s: Seq<RuntimeHealthProviderEntry>) -> Seq<Seq<char>>
    decreases s.len(),
{
    if s.len() == 0 {
        seq![]
    } else {
        issue_warnings(s.drop_last()) + issue_warning(s.last())
    }
}

/// The regressions of an entry against its previous scan.
pub open spec fn regression_warning(e: RuntimeHealthProviderEntry, prev: RuntimeHealthProviderEntry) -> Seq<Seq<char>> {
    (if prev.model_available == Some(true) && e.model_available == Some(false) {
        seq![
            "Provider `"@ + e.provider@ + "` previously listed configured model `"@ + e.model@
                + "` but the latest scan does not; treat this as a removed or disabled model regression."@,
        ]
    } else {
        seq![]
    }) + (if prev.issue_kind is None && (opt_string_view(e.issue_kind) == Some("auth"@) || opt_string_view(
        e.issue_kind,
    ) == Some("billing"@)) {
        seq![
            "Provider `"@ + e.provider@ + "` regressed from healthy to `"@ + e.issue_kind->0@
                + "` since the last persisted runtime-health scan."@,
        ]
    } else {
        seq![]
    }) + (match (opt_string_view(prev.limit_snapshot), opt_string_view(e.limit_snapshot)) {
        (Some(a), Some(b)) => if a != b {
            seq![
                "Provider `"@ + e.provider@ + "` exposed different rate-limit headers since the last scan: `"@ + a
                    + "` -> `"@ + b + "`."@,
            ]
        } else {
            seq![]
        },
        _ => seq![],
    })
}

/// The regressions of all entries against the previous scan, in entry
/// order.
pub open spec fn regression_warnings(
    s: Seq<RuntimeHealthProviderEntry>,
    previous: Seq<RuntimeHealthProviderEntry>,
) -> Seq<Seq<char>>
    decreases s.len(),
{
    if s.len() == 0 {
        seq![]
    } else {
        regression_warnings(s.drop_last(), previous) + match entry_for(previous, s.last().provider@) {
            Some(prev) => regression_warning(s.last(), prev),
            None => seq![],
        }
    }
}

/// The warnings an operator sees after a health scan.
pub open spec fn operator_warnings(
    p: ProvidersSettings,
    chain: Seq<Seq<char>>,
    entries: Seq<RuntimeHealthProviderEntry>,
    recommended: Option<Seq<char>>,
    previous: Option<Seq<RuntimeHealthProviderEntry>>,
) -> Seq<Seq<char>> {
    let primary = control_plane_primary(p);
    let primary_healthy = match entry_for(entries, primary) {
        Some(e) => e.healthy,
        None => false,
    };
    (if !primary_healthy {
        seq!["Configured control-plane provider `"@ + primary + "` is not currently healthy."@]
    } else {
        seq![]
    }) + (if recommended is None {
        seq![
            "No healthy provider is currently available for the control-plane lane; onboarding and model-switch operations may fail until one recovers."@,
        ]
    } else {
        seq![]
    }) + (if has_duplicates(chain) {
        seq![
            "Control-plane provider order contains duplicates; simplify `providers.control_plane_fallback_chain` to keep failover intent clear."@,
        ]
    } else {
        seq![]
    }) + issue_warnings(entries) + match previous {
        Some(prev) => regression_warnings(entries, prev),
        None => seq![],
    }
}

fn issue_warning_of(e: &RuntimeHealthProviderEntry) -> (r: Vec<String>)
    ensures
        strs(r@) == issue_warning(*e),
{
    let mut out: Vec<String> = Vec::new();
    match &e.issue_kind {
        Some(k) => {
            let k = k.as_str();
            let p = e.provider.as_str();
            if str_eq(k, "model_unavailable") {
                push_text(
                    &mut out,
                    concat5(
                        "Configured model `",
                        e.model.as_str(),
                        "` is no longer listed by provider `",
                        p,
                        "`; update that lane before the next runtime cutover.",
                    ),
                );
            } else if str_eq(k, "auth") {
                push_text(
                    &mut out,
                    concat3("Provider `", p, "` reported an authentication or access error during the latest health scan."),
                );
            } else if str_eq(k, "billing") {
                push_text(
                    &mut out,
                    concat3("Provider `", p, "` reported a billing or quota error during the latest health scan."),
                );
            } else if str_eq(k, "rate_limited") {
                push_text(
                    &mut out,
                    concat3(
                        "Provider `",
                        p,
                        "` is currently rate-limited; expect degraded failover behavior until the limit window resets.",
                    ),
                );
            }
        },
        None => {},
    }
    assert(strs(out@) =~= issue_warning(*e));
    out
}

fn regression_warning_of(e: &RuntimeHealthProviderEntry, prev: &RuntimeHealthProviderEntry) -> (r: Vec<String>)
    ensures
        strs(r@) == regression_warning(*e, *prev),
{
    let mut out: Vec<String> = Vec::new();
    let p = e.provider.as_str();
    if prev.model_available == Some(true) && e.model_available == Some(false) {
        push_text(
            &mut out,
            concat5(
                "Provider `",
                p,
                "` previously listed configured model `",
                e.model.as_str(),
                "` but the latest scan does not; treat this as a removed or disabled model regression.",
            ),
        );
    }
    let ghost a = strs(out@);
    match &e.issue_kind {
        Some(k) => {
            if prev.issue_kind.is_none() && (str_eq(k.as_str(), "auth") || str_eq(k.as_str(), "billing")) {
                push_text(
                    &mut out,
                    concat5(
                        "Provider `",
                        p,
                        "` regressed from healthy to `",
                        k.as_str(),
                        "` since the last persisted runtime-health scan.",
                    ),
                );
            }
        },
        None => {},
    }
    let ghost b = strs(out@);
    match (&prev.limit_snapshot, &e.limit_snapshot) {
        (Some(old_limits), Some(new_limits)) => {
            if !str_eq(old_limits.as_str(), new_limits.as_str()) {
                let head = concat3(
                    "Provider `",
                    p,
                    "` exposed different rate-limit headers since the last scan: `",
                );
                push_text(
                    &mut out,
                    concat5(head.as_str(), old_limits.as_str(), "` -> `", new_limits.as_str(), "`."),
                );
            }
        },
        _ => {},
    }
    assert(strs(out@) =~= regression_warning(*e, *prev));
    out
}

fn lane_warnings(
    p: &ProvidersSettings,
    control_plane_chain: &Vec<String>,
    entries: &Vec<RuntimeHealthProviderEntry>,
    recommended_control_plane_provider: Option<&str>,
) -> (r: Vec<String>)
    ensures
        strs(r@) == operator_warnings(
            *p,
            strs(control_plane_chain@),
            entries@,
            crate::text::opt_str_view(recommended_control_plane_provider),
            None,
        ).take(operator_warnings(
            *p,
            strs(control_plane_chain@),
            entries@,
            crate::text::opt_str_view(recommended_control_plane_provider),
            None,
        ).len() - issue_warnings(entries@).len()),
{
    let ghost full = operator_warnings(
        *p,
        strs(control_plane_chain@),
        entries@,
        crate::text::opt_str_view(recommended_control_plane_provider),
        None,
    );
    let mut out: Vec<String> = Vec::new();
    let primary = match &p.control_plane_provider {
        Some(c) => c.clone(),
        None => p.default_provider.clone(),
    };
    let primary_healthy = match find_provider_entry(entries, primary.as_str()) {
        Some(e) => e.healthy,
        None => false,
    };
    if !primary_healthy {
        push_text(
            &mut out,
            concat3("Configured control-plane provider `", primary.as_str(), "` is not currently healthy."),
        );
    }
    if recommended_control_plane_provider.is_none() {
        push_text(
            &mut out,
            owned("No healthy provider is currently available for the control-plane lane; onboarding and model-switch operations may fail until one recovers."),
        );
    }
    if contains_duplicates(control_plane_chain) {
        push_text(
            &mut out,
            owned("Control-plane provider order contains duplicates; simplify `providers.control_plane_fallback_chain` to keep failover intent clear."),
        );
    }
    assert(full =~= strs(out@) + issue_warnings(entries@));
    assert(full.take(full.len() - issue_warnings(entries@).len()) =~= strs(out@));
    out
}

fn all_issue_warnings(entries: &Vec<RuntimeHealthProviderEntry>) -> (r: Vec<String>)
    ensures
        strs(r@) == issue_warnings(entries@),
{
    let mut out: Vec<String> = Vec::new();
    let mut i: usize = 0;
    while i < entries.len()
        invariant
            i <= entries.len(),
            strs(out@) == issue_warnings(entries@.take(i as int)),
        decreases entries.len() - i,
    {
        let w = issue_warning_of(&entries[i]);
        append_all(&mut out, &w);
        assert(entries@.take(i + 1).drop_last() =~= entries@.take(i as int));
        i = i + 1;
    }
    assert(entries@.take(entries.len() as int) =~= entries@);
    out
}

fn all_regression_warnings(
    entries: &Vec<RuntimeHealthProviderEntry>,
    prev: &Vec<RuntimeHealthProviderEntry>,
) -> (r: Vec<String>)
    ensures
        strs(r@) == regression_warnings(entries@, prev@),
{
    let mut out: Vec<String> = Vec::new();
    let mut j: usize = 0;
    while j < entries.len()
        invariant
            j <= entries.len(),
            strs(out@) == regression_warnings(entries@.take(j as int), prev@),
        decreases entries.len() - j,
    {
        let e = &entries[j];
        assert(entries@.take(j + 1).drop_last() =~= entries@.take(j as int));
        assert(entries@.take(j + 1).last() == entries@[j as int]);
        match find_provider_entry(prev, e.provider.as_str()) {
            Some(pe) => {
                let w = regression_warning_of(e, pe);
                append_all(&mut out, &w);
            },
            None => {
                assert(strs(out@) =~= strs(out@) + Seq::<Seq<char>>::empty());
            },
        }
        j = j + 1;
    }
    assert(entries@.take(entries.len() as int) =~= entries@);
    out
}

/// The warnings an operator sees after a health scan: an unhealthy
/// control-plane primary, no healthy control-plane provider, a repeated
/// provider in the control-plane order, each entry's reported issue, and,
/// against the previous scan, removed models, new auth or billing failures
/// and changed rate-limit headers.
pub fn build_runtime_operator_warnings(
    p: &ProvidersSettings,
    control_plane_chain: &Vec<String>,
    entries: &Vec<RuntimeHealthProviderEntry>,
    recommended_control_plane_provider: Option<&str>,
    previous_providers: Option<&Vec<RuntimeHealthProviderEntry>>,
) -> (r: Vec<String>)
    ensures
        strs(r@) == operator_warnings(
            *p,
            strs(control_plane_chain@),
            entries@,
            crate::text::opt_str_view(recommended_control_plane_provider),
            match previous_providers {
                Some(v) => Some(v@),
                None => None,
            },
        ),
{
    let ghost rec = crate::text::opt_str_view(recommended_control_plane_provider);
    let ghost chain = strs(control_plane_chain@);
    let mut out = lane_warnings(p, control_plane_chain, entries, recommended_control_plane_provider);
    let issues = all_issue_warnings(entries);
    append_all(&mut out, &issues);
    let ghost base = operator_warnings(*p, chain, entries@, rec, None);
    assert(base =~= base.take(base.len() - issue_warnings(entries@).len()) + issue_warnings(entries@));
    match previous_providers {
        Some(prev) => {
            let regressions = all_regression_warnings(entries, prev);
            append_all(&mut out, &regressions);
            assert(operator_warnings(*p, chain, entries@, rec, Some(prev@)) =~= base + regression_warnings(entries@, prev@));
        },
        None => {
            assert(base =~= base + Seq::<Seq<char>>::empty());
        },
    }
    out
}


// ---------------------------------------------------------------------
// Status

/// The gateway settings of the effective configuration.
pub struct GatewaySettings {
    pub network_mode: String,
    pub host: String,
    pub port: u16,
    pub allowed_origins: Vec<String>,
}

/// The runtime's effective settings as the status report reads them.
pub struct RuntimeSettings {
    pub gateway: GatewaySettings,
    pub providers: ProvidersSettings,
    pub trusted_proxy_token_env: Option<String>,
}

/// What `runtime status` reports.
pub struct RuntimeStatus {
    pub config_path: String,
    pub network_mode: String,
    pub gateway_host: String,
    pub gateway_port: u16,
    pub allowed_origins: Vec<String>,
    pub trusted_proxy_enabled: bool,
    pub default_provider: String,
    pub fallback_chain: Vec<String>,
    pub control_plane_provider: Option<String>,
    pub control_plane_fallback_chain: Vec<String>,
    pub control_plane_action_provider: String,
    pub control_plane_action_model: String,
    pub anthropic_model: String,
    pub openai_model: String,
    pub openrouter_model: String,
    pub gemini_model: String,
    pub ollama_model: String,
    pub vault_path: String,
    pub vault_present: bool,
    pub vault_unlocked: bool,
}

/// The status of a runtime with the given settings. The vault counts as
/// unlocked only when it is present and opened.
pub fn runtime_status(
    settings: &RuntimeSettings,
    config_path: &str,
    workspace_root: &str,
    vault_present: bool,
    vault_opened: bool,
) -> (r: RuntimeStatus)
    ensures
        r.config_path@ == config_path@,
        r.network_mode@ == settings.gateway.network_mode@,
        r.gateway_host@ == settings.gateway.host@,
        r.gateway_port == settings.gateway.port,
        strs(r.allowed_origins@) == strs(settings.gateway.allowed_origins@),
        r.trusted_proxy_enabled == (settings.trusted_proxy_token_env is Some),
        r.default_provider@ == settings.providers.default_provider@,
        strs(r.fallback_chain@) == strs(settings.providers.fallback_chain@),
        opt_string_view(r.control_plane_provider) == opt_string_view(settings.providers.control_plane_provider),
        strs(r.control_plane_fallback_chain@) == strs(settings.providers.control_plane_fallback_chain@),
        r.control_plane_action_provider@ == action_provider(settings.providers),
        r.control_plane_action_model@ == model_for(settings.providers, action_provider(settings.providers)),
        r.anthropic_model@ == settings.providers.anthropic_model@,
        r.openai_model@ == settings.providers.openai_model@,
        r.openrouter_model@ == settings.providers.openrouter_model@,
        r.gemini_model@ == settings.providers.gemini_model@,
        r.ollama_model@ == settings.providers.ollama_model@,
        r.vault_path@ == join_path(workspace_root@, DEFAULT_VAULT_PATH@),
        r.vault_present == vault_present,
        r.vault_unlocked == (vault_present && vault_opened),
{
    let p = &settings.providers;
    let action = effective_control_plane_action_provider(p);
    let model = provider_model_for(p, action.as_str());
    RuntimeStatus {
        config_path: owned(config_path),
        network_mode: settings.gateway.network_mode.clone(),
        gateway_host: settings.gateway.host.clone(),
        gateway_port: settings.gateway.port,
        allowed_origins: crate::text::clone_strings(&settings.gateway.allowed_origins),
        trusted_proxy_enabled: settings.trusted_proxy_token_env.is_some(),
        default_provider: p.default_provider.clone(),
        fallback_chain: crate::text::clone_strings(&p.fallback_chain),
        control_plane_provider: opt_clone(&p.control_plane_provider),
        control_plane_fallback_chain: crate::text::clone_strings(&p.control_plane_fallback_chain),
        control_plane_action_provider: action,
        control_plane_action_model: model,
        anthropic_model: p.anthropic_model.clone(),
        openai_model: p.openai_model.clone(),
        openrouter_model: p.openrouter_model.clone(),
        gemini_model: p.gemini_model.clone(),
        ollama_model: p.ollama_model.clone(),
        vault_path: vault_path_for(workspace_root),
        vault_present,
        vault_unlocked: vault_present && vault_opened,
    }
}

// ---------------------------------------------------------------------
// The runtime lock

/// The lock a running gateway holds on its workspace.
pub struct RuntimeLockRecord {
    pub acquired_at: String,
    pub process_id: u32,
    pub gateway_addr: String,
    pub config_path: String,
}

/// Whether a workspace's runtime lock is held, and by whom.
pub struct RuntimeLockStatus {
    pub path: String,
    pub present: bool,
    pub active: bool,
    pub stale: bool,
    pub process_id: Option<u32>,
    pub owner_alive: Option<bool>,
    pub acquired_at: Option<String>,
    pub gateway_addr: Option<String>,
    pub config_path: Option<String>,
}

/// The lock status of a workspace: absent without a record; with one,
/// active while its owner process is alive and stale once it is gone.
pub fn runtime_lock_status(
    workspace_root: &str,
    record: Option<RuntimeLockRecord>,
    owner_alive: bool,
) -> (r: RuntimeLockStatus)
    ensures
        r.path@ == join_path(workspace_root@, DEFAULT_RUNTIME_LOCK_PATH@),
        r.present == (record is Some),
        r.present ==> r.active != r.stale,
        record is None ==> !r.active && !r.stale && r.process_id is None && r.owner_alive is None
            && r.acquired_at is None && r.gateway_addr is None && r.config_path is None,
        record matches Some(rec) ==> (r.active == owner_alive && r.stale == !owner_alive
            && r.process_id == Some(rec.process_id) && r.owner_alive == Some(owner_alive)
            && r.acquired_at == Some(rec.acquired_at) && r.gateway_addr == Some(rec.gateway_addr)
            && r.config_path == Some(rec.config_path)),
{
    let path = runtime_lock_path_for(workspace_root);
    match record {
        None => RuntimeLockStatus {
            path,
            present: false,
            active: false,
            stale: false,
            process_id: None,
            owner_alive: None,
            acquired_at: None,
            gateway_addr: None,
            config_path: None,
        },
        Some(rec) => RuntimeLockStatus {
            path,
            present: true,
            active: owner_alive,
            stale: !owner_alive,
            process_id: Some(rec.process_id),
            owner_alive: Some(owner_alive),
            acquired_at: Some(rec.acquired_at),
            gateway_addr: Some(rec.gateway_addr),
            config_path: Some(rec.config_path),
        },
    }
}

/// The refusal to take a lock that a live process other than this one
/// holds.
pub open spec fn lock_held_message(pid: u32, gateway_addr: Seq<char>, path: Seq<char>) -> Seq<char> {
    "Runtime lock is already held by pid "@ + decimal(pid as nat) + " at "@ + gateway_addr + "; remove '"@ + path
        + "' only if that process is gone"@
}

/// Whether this process may take the workspace's runtime lock: always,
/// unless a live process other than this one holds it.
pub fn check_runtime_lock_free(
    workspace_root: &str,
    existing: Option<&RuntimeLockRecord>,
    existing_alive: bool,
    current_pid: u32,
) -> (r: Result<(), String>)
    ensures
        r is Err <==> (existing is Some && existing_alive && existing->0.process_id != current_pid),
        r matches Err(e) ==> e@ == lock_held_message(
            existing->0.process_id,
            existing->0.gateway_addr@,
            join_path(workspace_root@, DEFAULT_RUNTIME_LOCK_PATH@),
        ),
{
    match existing {
        Some(rec) => {
            if existing_alive && rec.process_id != current_pid {
                let path = runtime_lock_path_for(workspace_root);
                let pid = u64_text(rec.process_id as u64);
                let head = concat3("Runtime lock is already held by pid ", pid.as_str(), " at ");
                return Err(concat5(
                    head.as_str(),
                    rec.gateway_addr.as_str(),
                    "; remove '",
                    path.as_str(),
                    "' only if that process is gone",
                ));
            }
            Ok(())
        },
        None => Ok(()),
    }
}

/// The runtime lock this process took: where it lies and the process it
/// names.
pub struct RuntimeLockGuard {
    pub path: String,
    pub process_id: u32,
}

impl RuntimeLockGuard {
    /// The guard of a lock just taken by process `process_id`.
    pub fn new(workspace_root: &str, process_id: u32) -> (r: RuntimeLockGuard)
        ensures
            r.path@ == join_path(workspace_root@, DEFAULT_RUNTIME_LOCK_PATH@),
            r.process_id == process_id,
    {
        RuntimeLockGuard { path: runtime_lock_path_for(workspace_root), process_id }
    }

    /// Whether the lock file is to be removed when the guard goes: only
    /// when it still names this guard's process.
    pub fn releases(&self, stored: Option<&RuntimeLockRecord>) -> (r: bool)
        ensures
            r == (stored is Some && stored->0.process_id == self.process_id),
    {
        match stored {
            Some(rec) => rec.process_id == self.process_id,
            None => false,
        }
    }
}

// ---------------------------------------------------------------------
// User services

/// The service managers a host may offer.
#[derive(Clone, Copy, Debug, PartialEq, Eq, Structural)]
pub enum RuntimeServiceManager {
    Unsupported,
    SystemdUser,
    LaunchdUser,
}

/// The service manager to install under: launchd on macOS when a home
/// directory is known, systemd elsewhere when present.
pub fn preferred_service_manager(is_macos: bool, launchd_supported: bool, systemd_supported: bool) -> (r:
    RuntimeServiceManager)
    ensures
        is_macos && launchd_supported ==> r == RuntimeServiceManager::LaunchdUser,
        is_macos && !launchd_supported ==> r == RuntimeServiceManager::Unsupported,
        !is_macos && systemd_supported ==> r == RuntimeServiceManager::SystemdUser,
        !is_macos && !systemd_supported ==> r == RuntimeServiceManager::Unsupported,
{
    if is_macos {
        if launchd_supported {
            RuntimeServiceManager::LaunchdUser
        } else {
            RuntimeServiceManager::Unsupported
        }
    } else if systemd_supported {
        RuntimeServiceManager::SystemdUser
    } else {
        RuntimeServiceManager::Unsupported
    }
}

/// Which installer runs for a service manager; none is available without
/// one.
pub fn install_runtime_user_service(manager: RuntimeServiceManager) -> (r: Result<RuntimeServiceManager, String>)
    ensures
        manager == RuntimeServiceManager::Unsupported ==> (r matches Err(e)
            && e@ == "No supported user service manager was detected on this host"@),
        manager != RuntimeServiceManager::Unsupported ==> r == Ok::<RuntimeServiceManager, String>(manager),
{
    match manager {
        RuntimeServiceManager::Unsupported => Err(owned("No supported user service manager was detected on this host")),
        other => Ok(other),
    }
}

/// The launchd domain of the logged-in user.
pub fn launchd_domain_target() -> (r: String)
    ensures
        r@ == "gui/$(id -u)"@,
{
    owned("gui/$(id -u)")
}

/// The systemd user unit that starts the gateway.
pub open spec fn systemd_unit(exe: Seq<char>, config: Seq<char>, workdir: Seq<char>) -> Seq<char> {
    "[Unit]\nDescription=OpenRustClaw Gateway\nAfter=network.target\n\n[Service]\nType=simple\nExecStart=\""@ + exe
        + "\" start --config \""@ + config + "\"\nRestart=on-failure\nRestartSec=5\nWorkingDirectory="@ + workdir
        + "\n\n[Install]\nWantedBy=default.target\n"@
}

/// The systemd user unit that starts the gateway from `current_exe` with
/// the workspace's config.
pub fn render_user_systemd_service_unit(current_exe: &str, workspace_root: &str, config_path: &str) -> (r: String)
    ensures
        r@ == systemd_unit(current_exe@, join_path(workspace_root@, config_path@), workspace_root@),
{
    let config = resolve_runtime_config_path(workspace_root, config_path);
    let a = concat3(
        "[Unit]\nDescription=OpenRustClaw Gateway\nAfter=network.target\n\n[Service]\nType=simple\nExecStart=\"",
        current_exe,
        "\" start --config \"",
    );
    let b = concat3(a.as_str(), config.as_str(), "\"\nRestart=on-failure\nRestartSec=5\nWorkingDirectory=");
    concat3(b.as_str(), workspace_root, "\n\n[Install]\nWantedBy=default.target\n")
}

/// The launchd agent that starts the gateway.
pub open spec fn launchd_plist(exe: Seq<char>, config: Seq<char>, workdir: Seq<char>, log: Seq<char>) -> Seq<char> {
    "<?xml version=\"1.0\" encoding=\"UTF-8\"?>\n<!DOCTYPE plist PUBLIC \"-//Apple//DTD PLIST 1.0//EN\" \"http://www.apple.com/DTDs/PropertyList-1.0.dtd\">\n<plist version=\"1.0\">\n<dict>\n  <key>Label</key>\n  <string>"@
        + DEFAULT_LAUNCHD_LABEL@ + "</string>\n  <key>ProgramArguments</key>\n  <array>\n    <string>"@ + exe
        + "</string>\n    <string>start</string>\n    <string>--config</string>\n    <string>"@ + config
        + "</string>\n  </array>\n  <key>WorkingDirectory</key>\n  <string>"@ + workdir
        + "</string>\n  <key>RunAtLoad</key>\n  <true/>\n  <key>KeepAlive</key>\n  <dict>\n    <key>SuccessfulExit</key>\n    <false/>\n  </dict>\n  <key>StandardOutPath</key>\n  <string>"@
        + log + "</string>\n  <key>StandardErrorPath</key>\n  <string>"@ + log + "</string>\n</dict>\n</plist>\n"@
}

/// The launchd agent that starts the gateway from `current_exe` with the
/// workspace's config, logging to `log_path`.
pub fn render_user_launchd_service_plist(
    current_exe: &str,
    workspace_root: &str,
    config_path: &str,
    log_path: &str,
) -> (r: String)
    ensures
        r@ == launchd_plist(current_exe@, join_path(workspace_root@, config_path@), workspace_root@, log_path@),
{
    let config = resolve_runtime_config_path(workspace_root, config_path);
    let a = concat3(
        "<?xml version=\"1.0\" encoding=\"UTF-8\"?>\n<!DOCTYPE plist PUBLIC \"-//Apple//DTD PLIST 1.0//EN\" \"http://www.apple.com/DTDs/PropertyList-1.0.dtd\">\n<plist version=\"1.0\">\n<dict>\n  <key>Label</key>\n  <string>",
        DEFAULT_LAUNCHD_LABEL,
        "</string>\n  <key>ProgramArguments</key>\n  <array>\n    <string>",
    );
    let b = concat3(
        a.as_str(),
        current_exe,
        "</string>\n    <string>start</string>\n    <string>--config</string>\n    <string>",
    );
    let c = concat3(b.as_str(), config.as_str(), "</string>\n  </array>\n  <key>WorkingDirectory</key>\n  <string>");
    let d = concat3(
        c.as_str(),
        workspace_root,
        "</string>\n  <key>RunAtLoad</key>\n  <true/>\n  <key>KeepAlive</key>\n  <dict>\n    <key>SuccessfulExit</key>\n    <false/>\n  </dict>\n  <key>StandardOutPath</key>\n  <string>",
    );
    let e = concat3(d.as_str(), log_path, "</string>\n  <key>StandardErrorPath</key>\n  <string>");
    concat3(e.as_str(), log_path, "</string>\n</dict>\n</plist>\n")
}

// ---------------------------------------------------------------------
// Configuration defaults

/// The network mode a gateway host implies: loopback for the local
/// addresses, lan for the wildcard address, remote otherwise.
pub open spec fn network_mode_for(host: Seq<char>) -> Seq<char> {
    if host == "127.0.0.1"@ || host == "localhost"@ {
        "loopback"@
    } else if host == "0.0.0.0"@ {
        "lan"@
    } else {
        "remote"@
    }
}

/// The network mode inferred for a gateway host that names none, and the
/// note that records the inference. An unset host counts as `127.0.0.1`.
pub fn infer_gateway_network_mode(host: Option<&str>) -> (r: (String, String))
    ensures
        ({
            let h = match host {
                Some(h) => h@,
                None => "127.0.0.1"@,
            };
            r.0@ == network_mode_for(h) && r.1@ == "gateway.network_mode inferred as `"@ + network_mode_for(h)
                + "` from gateway.host = `"@ + h + "`"@
        }),
{
    let h = match host {
        Some(h) => h,
        None => "127.0.0.1",
    };
    let mode = if str_eq(h, "127.0.0.1") || str_eq(h, "localhost") {
        "loopback"
    } else if str_eq(h, "0.0.0.0") {
        "lan"
    } else {
        "remote"
    };
    let note = concat5("gateway.network_mode inferred as `", mode, "` from gateway.host = `", h, "`");
    (owned(mode), note)
}


// ---------------------------------------------------------------------
// `.env` files

/// The pieces of `s` between newlines, as `str::split('\n')` gives them.
pub open spec fn split_newlines(s: Seq<char>) -> Seq<Seq<char>>
    decreases s.len(),
{
    if s.len() == 0 {
        seq![seq![]]
    } else {
        let prev = split_newlines(s.drop_last());
        if s.last() == '\n' {
            prev.push(seq![])
        } else {
            prev.update(prev.len() - 1, prev.last().push(s.last()))
        }
    }
}

pub proof fn lemma_split_nonempty(s: Seq<char>)
    ensures
        split_newlines(s).len() >= 1,
    decreases s.len(),
{
    if s.len() > 0 {
        lemma_split_nonempty(s.drop_last());
    }
}

/// The first index of `c` in `t`, if any.
pub open spec fn char_position(t: Seq<char>, c: char) -> Option<nat>
    decreases t.len(),
{
    if t.len() == 0 {
        None
    } else if t[0] == c {
        Some(0)
    } else {
        match char_position(t.drop_first(), c) {
            Some(i) => Some(i + 1),
            None => None,
        }
    }
}

/// The raw value of a trimmed `KEY=value` line: what follows the first
/// `=`, trimmed.
pub open spec fn raw_value(t: Seq<char>, i: nat) -> Seq<char> {
    trim_seq(t.skip(i as int + 1))
}

/// A value wrapped in a pair of double or single quotes.
pub open spec fn quoted(v: Seq<char>) -> bool {
    v.len() > 0 && ((v[0] == '"' && v.last() == '"') || (v[0] == '\'' && v.last() == '\''))
}

/// The entry a line of a `.env` file defines: blank lines, comments and
/// lines without `=` define none; otherwise the trimmed key before the
/// first `=` and the trimmed value after it, without surrounding quotes.
pub open spec fn dotenv_line(line: Seq<char>) -> Option<(Seq<char>, Seq<char>)> {
    let t = trim_seq(line);
    if t.len() == 0 || t[0] == '#' {
        None
    } else {
        match char_position(t, '=') {
            None => None,
            Some(i) => {
                let v = raw_value(t, i);
                Some((trim_seq(t.take(i as int)), if quoted(v) { v.subrange(1, v.len() - 1) } else { v }))
            },
        }
    }
}

/// A line whose value is a single quote character, which the quote
/// stripping cannot slice.
pub open spec fn lone_quote_line(line: Seq<char>) -> bool {
    let t = trim_seq(line);
    t.len() > 0 && t[0] != '#' && match char_position(t, '=') {
        None => false,
        Some(i) => raw_value(t, i).len() == 1 && quoted(raw_value(t, i)),
    }
}

/// The entries of a sequence of lines, in order.
pub open spec fn dotenv_entries_of(lines: Seq<Seq<char>>) -> Seq<(Seq<char>, Seq<char>)>
    decreases lines.len(),
{
    if lines.len() == 0 {
        seq![]
    } else {
        dotenv_entries_of(lines.drop_last()) + match dotenv_line(lines.last()) {
            Some(e) => seq![e],
            None => seq![],
        }
    }
}

pub(crate) fn split_lines(v: &Vec<char>) -> (r: Vec<Vec<char>>)
    ensures
        r@.map_values(|l: Vec<char>| l@) == split_newlines(v@),
{
    let mut segs: Vec<Vec<char>> = Vec::new();
    segs.push(Vec::new());
    let mut i: usize = 0;
    assert(v@.take(0) =~= Seq::<char>::empty());
    assert(segs@.map_values(|l: Vec<char>| l@) =~= split_newlines(v@.take(0)));
    while i < v.len()
        invariant
            i <= v.len(),
            segs@.len() >= 1,
            segs@.map_values(|l: Vec<char>| l@) == split_newlines(v@.take(i as int)),
        decreases v.len() - i,
    {
        let c = v[i];
        let ghost before = segs@.map_values(|l: Vec<char>| l@);
        assert(v@.take(i + 1).drop_last() =~= v@.take(i as int));
        if c == '\n' {
            segs.push(Vec::new());
            assert(segs@.map_values(|l: Vec<char>| l@) =~= before.push(seq![]));
        } else {
            let last = segs.len() - 1;
            let mut cur = segs.pop().unwrap();
            cur.push(c);
            segs.push(cur);
            assert(segs@.map_values(|l: Vec<char>| l@) =~= before.update(before.len() - 1, before.last().push(c)));
        }
        i = i + 1;
    }
    assert(v@.take(v.len() as int) =~= v@);
    segs
}

fn char_position_of(t: &Vec<char>, c: char) -> (r: Option<usize>)
    ensures
        r matches Some(i) ==> char_position(t@, c) == Some(i as nat) && i < t@.len(),
        r is None ==> char_position(t@, c) is None,
{
    let mut i: usize = 0;
    assert(t@.skip(0) =~= t@);
    while i < t.len()
        invariant
            i <= t.len(),
            char_position(t@, c) == match char_position(t@.skip(i as int), c) {
                Some(k) => Some((k + i) as nat),
                None => None::<nat>,
            },
        decreases t.len() - i,
    {
        assert(t@.skip(i as int).drop_first() =~= t@.skip(i + 1));
        if t[i] == c {
            return Some(i);
        }
        i = i + 1;
    }
    None
}

fn sub_chars(v: &Vec<char>, a: usize, b: usize) -> (r: Vec<char>)
    requires
        a <= b <= v@.len(),
    ensures
        r@ == v@.subrange(a as int, b as int),
{
    let mut out: Vec<char> = Vec::new();
    let mut k: usize = a;
    while k < b
        invariant
            a <= k <= b <= v@.len(),
            out@ == v@.subrange(a as int, k as int),
        decreases b - k,
    {
        out.push(v[k]);
        assert(v@.subrange(a as int, k + 1) =~= v@.subrange(a as int, k as int).push(v@[k as int]));
        k = k + 1;
    }
    out
}

fn trim_chars(v: &Vec<char>) -> (r: Vec<char>)
    ensures
        r@ == trim_seq(v@),
{
    let s = crate::text::string_from_chars(v);
    let t = trim(s.as_str());
    crate::text::chars_of(t.as_str())
}

fn dotenv_line_of(line: &Vec<char>) -> (r: Option<(String, String)>)
    requires
        !lone_quote_line(line@),
    ensures
        match r {
            Some(e) => dotenv_line(line@) == Some((e.0@, e.1@)),
            None => dotenv_line(line@) is None,
        },
{
    let t = trim_chars(line);
    if t.len() == 0 || t[0] == '#' {
        return None;
    }
    let i = match char_position_of(&t, '=') {
        Some(i) => i,
        None => {
            return None;
        },
    };
    let key = trim_chars(&sub_chars(&t, 0, i));
    assert(t@.take(i as int) =~= t@.subrange(0, i as int));
    let rest = sub_chars(&t, i + 1, t.len());
    assert(rest@ =~= t@.skip(i + 1));
    let v = trim_chars(&rest);
    let n = v.len();
    let is_quoted = n > 0 && ((v[0] == '"' && v[n - 1] == '"') || (v[0] == '\'' && v[n - 1] == '\''));
    let value = if is_quoted {
        sub_chars(&v, 1, n - 1)
    } else {
        v
    };
    Some((crate::text::string_from_chars(&key), crate::text::string_from_chars(&value)))
}

/// The entries of a `.env` file's text, in order.
pub fn parse_dotenv_entries(raw: &str) -> (r: Vec<(String, String)>)
    requires
        forall|k: int| 0 <= k < split_newlines(raw@).len() ==> !lone_quote_line(#[trigger] split_newlines(raw@)[k]),
    ensures
        r@.map_values(|e: (String, String)| (e.0@, e.1@)) == dotenv_entries_of(split_newlines(raw@)),
{
    let v = crate::text::chars_of(raw);
    let lines = split_lines(&v);
    let ghost ls = lines@.map_values(|l: Vec<char>| l@);
    let mut out: Vec<(String, String)> = Vec::new();
    let mut i: usize = 0;
    while i < lines.len()
        invariant
            i <= lines@.len(),
            ls == lines@.map_values(|l: Vec<char>| l@),
            ls == split_newlines(raw@),
            forall|k: int| 0 <= k < split_newlines(raw@).len() ==> !lone_quote_line(#[trigger] split_newlines(raw@)[k]),
            out@.map_values(|e: (String, String)| (e.0@, e.1@)) == dotenv_entries_of(ls.take(i as int)),
        decreases lines@.len() - i,
    {
        assert(ls[i as int] == lines@[i as int]@);
        assert(!lone_quote_line(split_newlines(raw@)[i as int]));
        assert(ls.take(i + 1).drop_last() =~= ls.take(i as int));
        let ghost before = out@.map_values(|e: (String, String)| (e.0@, e.1@));
        match dotenv_line_of(&lines[i]) {
            Some(e) => {
                out.push(e);
                assert(out@.map_values(|e: (String, String)| (e.0@, e.1@)) =~= before.push((e.0@, e.1@)));
            },
            None => {},
        }
        i = i + 1;
    }
    assert(ls.take(lines@.len() as int) =~= ls);
    out
}


// ---------------------------------------------------------------------
// The user service and managed restarts

/// Whether the runtime's user service is installed, and the commands that
/// manage it.
pub struct RuntimeServiceInstallStatus {
    pub service_manager: String,
    pub service_label: String,
    pub supported: bool,
    pub installed: bool,
    pub service_path: Option<String>,
    pub executable_path: String,
    pub workspace_root: String,
    pub config_path: String,
    pub daemon_reload_command: Option<String>,
    pub enable_command: Option<String>,
    pub start_command: Option<String>,
    pub stop_command: Option<String>,
    pub restart_command: Option<String>,
}

/// `Some(s)` when `on`, else `None`.
pub open spec fn when_supported(on: bool, s: Seq<char>) -> Option<Seq<char>> {
    if on {
        Some(s)
    } else {
        None
    }
}

/// The launchd service target of the runtime agent.
pub open spec fn launchd_target() -> Seq<char> {
    "gui/$(id -u)/"@ + DEFAULT_LAUNCHD_LABEL@
}

/// What the install status states for a service manager, given where its
/// unit file would live, whether the manager is usable and whether the
/// unit is installed.
pub open spec fn install_status_fits(
    r: RuntimeServiceInstallStatus,
    manager: RuntimeServiceManager,
    service_path: Option<Seq<char>>,
    supported: bool,
    installed: bool,
    exe: Seq<char>,
    root: Seq<char>,
    config_path: Seq<char>,
) -> bool {
    &&& r.executable_path@ == exe
    &&& r.workspace_root@ == root
    &&& r.config_path@ == join_path(root, config_path)
    &&& match manager {
        RuntimeServiceManager::SystemdUser => {
            &&& r.service_manager@ == "systemd-user"@
            &&& r.service_label@ == DEFAULT_SYSTEMD_SERVICE_NAME@
            &&& r.supported == supported
            &&& r.installed == (service_path is Some && installed)
            &&& opt_string_view(r.service_path) == service_path
            &&& opt_string_view(r.daemon_reload_command) == when_supported(supported, "systemctl --user daemon-reload"@)
            &&& opt_string_view(r.enable_command) == when_supported(
                supported,
                "systemctl --user enable "@ + DEFAULT_SYSTEMD_SERVICE_NAME@,
            )
            &&& opt_string_view(r.start_command) == when_supported(
                supported,
                "systemctl --user start "@ + DEFAULT_SYSTEMD_SERVICE_NAME@,
            )
            &&& opt_string_view(r.stop_command) == when_supported(
                supported,
                "systemctl --user stop "@ + DEFAULT_SYSTEMD_SERVICE_NAME@,
            )
            &&& opt_string_view(r.restart_command) == when_supported(
                supported,
                "systemctl --user restart "@ + DEFAULT_SYSTEMD_SERVICE_NAME@,
            )
        },
        RuntimeServiceManager::LaunchdUser => {
            &&& r.service_manager@ == "launchd-user"@
            &&& r.service_label@ == DEFAULT_LAUNCHD_LABEL@
            &&& r.supported == supported
            &&& r.installed == (service_path is Some && installed)
            &&& opt_string_view(r.service_path) == service_path
            &&& opt_string_view(r.daemon_reload_command) == when_supported(
                supported,
                "launchctl bootout "@ + launchd_target() + " >/dev/null 2>&1 || true"@,
            )
            &&& opt_string_view(r.enable_command) == when_supported(supported, "launchctl enable "@ + launchd_target())
            &&& opt_string_view(r.start_command) == when_supported(
                supported,
                "launchctl bootstrap gui/$(id -u) \""@ + (match service_path {
                    Some(p) => p,
                    None => "~/Library/LaunchAgents"@,
                }) + "\""@,
            )
            &&& opt_string_view(r.stop_command) == when_supported(supported, "launchctl bootout "@ + launchd_target())
            &&& opt_string_view(r.restart_command) == when_supported(
                supported,
                "launchctl kickstart -k "@ + launchd_target(),
            )
        },
        RuntimeServiceManager::Unsupported => {
            &&& r.service_manager@ == "unsupported"@
            &&& r.service_label@ == DEFAULT_SYSTEMD_SERVICE_NAME@
            &&& !r.supported
            &&& !r.installed
            &&& r.service_path is None
            &&& r.daemon_reload_command is None
            &&& r.enable_command is None
            &&& r.start_command is None
            &&& r.stop_command is None
            &&& r.restart_command is None
        },
    }
}

fn when_on_owned(on: bool, s: String) -> (r: Option<String>)
    ensures
        opt_string_view(r) == when_supported(on, s@),
{
    if on {
        Some(s)
    } else {
        None
    }
}

/// The install status of the runtime's user service under `manager`:
/// `service_path` is where its unit file lives (when the host has such a
/// place), `supported` whether the manager is usable here and `installed`
/// whether the unit file exists.
pub fn runtime_service_install_status(
    manager: RuntimeServiceManager,
    service_path: Option<String>,
    supported: bool,
    installed: bool,
    current_exe: &str,
    workspace_root: &str,
    config_path: &str,
) -> (r: RuntimeServiceInstallStatus)
    ensures
        install_status_fits(
            r,
            manager,
            opt_string_view(service_path),
            supported,
            installed,
            current_exe@,
            workspace_root@,
            config_path@,
        ),
{
    let resolved = resolve_runtime_config_path(workspace_root, config_path);
    let has_path = service_path.is_some();
    match manager {
        RuntimeServiceManager::SystemdUser => RuntimeServiceInstallStatus {
            service_manager: owned("systemd-user"),
            service_label: owned(DEFAULT_SYSTEMD_SERVICE_NAME),
            supported,
            installed: has_path && installed,
            service_path,
            executable_path: owned(current_exe),
            workspace_root: owned(workspace_root),
            config_path: resolved,
            daemon_reload_command: when_on_owned(supported, owned("systemctl --user daemon-reload")),
            enable_command: when_on_owned(supported, concat2("systemctl --user enable ", DEFAULT_SYSTEMD_SERVICE_NAME)),
            start_command: when_on_owned(supported, concat2("systemctl --user start ", DEFAULT_SYSTEMD_SERVICE_NAME)),
            stop_command: when_on_owned(supported, concat2("systemctl --user stop ", DEFAULT_SYSTEMD_SERVICE_NAME)),
            restart_command: when_on_owned(
                supported,
                concat2("systemctl --user restart ", DEFAULT_SYSTEMD_SERVICE_NAME),
            ),
        },
        RuntimeServiceManager::LaunchdUser => {
            let target = concat2("gui/$(id -u)/", DEFAULT_LAUNCHD_LABEL);
            let path_text = match &service_path {
                Some(p) => p.clone(),
                None => owned("~/Library/LaunchAgents"),
            };
            RuntimeServiceInstallStatus {
                service_manager: owned("launchd-user"),
                service_label: owned(DEFAULT_LAUNCHD_LABEL),
                supported,
                installed: has_path && installed,
                service_path,
                executable_path: owned(current_exe),
                workspace_root: owned(workspace_root),
                config_path: resolved,
                daemon_reload_command: when_on_owned(
                    supported,
                    concat3("launchctl bootout ", target.as_str(), " >/dev/null 2>&1 || true"),
                ),
                enable_command: when_on_owned(supported, concat2("launchctl enable ", target.as_str())),
                start_command: when_on_owned(
                    supported,
                    concat3("launchctl bootstrap gui/$(id -u) \"", path_text.as_str(), "\""),
                ),
                stop_command: when_on_owned(supported, concat2("launchctl bootout ", target.as_str())),
                restart_command: when_on_owned(supported, concat2("launchctl kickstart -k ", target.as_str())),
            }
        },
        RuntimeServiceManager::Unsupported => RuntimeServiceInstallStatus {
            service_manager: owned("unsupported"),
            service_label: owned(DEFAULT_SYSTEMD_SERVICE_NAME),
            supported: false,
            installed: false,
            service_path: None,
            executable_path: owned(current_exe),
            workspace_root: owned(workspace_root),
            config_path: resolved,
            daemon_reload_command: None,
            enable_command: None,
            start_command: None,
            stop_command: None,
            restart_command: None,
        },
    }
}

/// `parts` joined with `sep` between them.
pub open spec fn joined(parts: Seq<Seq<char>>, sep: Seq<char>) -> Seq<char>
    decreases parts.len(),
{
    if parts.len() == 0 {
        seq![]
    } else if parts.len() == 1 {
        parts[0]
    } else {
        joined(parts.drop_last(), sep) + sep + parts.last()
    }
}

/// `parts` joined with `sep` between them (`[String]::join`).
pub fn join_strings(parts: &Vec<String>, sep: &str) -> (r: String)
    ensures
        r@ == joined(strs(parts@), sep@),
{
    let mut out = String::new();
    let mut i: usize = 0;
    while i < parts.len()
        invariant
            i <= parts@.len(),
            out@ == joined(strs(parts@.take(i as int)), sep@),
        decreases parts@.len() - i,
    {
        assert(strs(parts@.take(i + 1)).drop_last() =~= strs(parts@.take(i as int)));
        assert(strs(parts@.take(i + 1)).last() == parts@[i as int]@);
        if i == 0 {
            assert(strs(parts@.take(1)) =~= seq![parts@[0]@]);
            out = parts[0].clone();
        } else {
            out = concat3(out.as_str(), sep, parts[i].as_str());
        }
        i = i + 1;
    }
    assert(parts@.take(parts@.len() as int) =~= parts@);
    out
}

/// The advice on restarting the runtime through its user service.
pub open spec fn ops_service_part(installed: bool, supported: bool, restart_command: Option<Seq<char>>, config_path: Seq<char>) -> Seq<Seq<char>> {
    if installed {
        match restart_command {
            Some(c) => seq!["Managed restart is available with `"@ + c + "`."@],
            None => seq![],
        }
    } else if supported {
        seq![
            "Install the workspace runtime service with `openrustclaw runtime services install --config "@ + config_path
                + "` before relying on unattended restarts."@,
        ]
    } else {
        seq![
            "No supported host user service manager was detected; document a manual restart path for this runtime target."@,
        ]
    }
}

/// The advice on the runtime lock.
pub open spec fn ops_lock_part(active: bool, stale: bool, pid: Option<u32>) -> Seq<char> {
    if active {
        "Runtime lock is active"@ + (match pid {
            Some(p) => " for PID "@ + decimal(p as nat),
            None => seq![],
        }) + "; stop or drain the running process before upgrade or rollback."@
    } else if stale {
        "Runtime lock is stale; confirm the old process is gone and refresh the runtime through the managed restart path."@
    } else {
        "Runtime lock is clear; maintenance operations can proceed without an active owner record."@
    }
}

/// The advice on the pending config delta.
pub open spec fn ops_reload_part(restart_required: bool, reasons: Seq<Seq<char>>, live_reload_ready: bool, config_path: Seq<char>) -> Seq<char> {
    if restart_required {
        "Current config delta requires restart: "@ + joined(reasons, " | "@) + "."@
    } else if live_reload_ready {
        "Current config delta is live-reload safe via `openrustclaw runtime reload --config "@ + config_path
            + "` or the Control UI reload action."@
    } else {
        "Runtime config matches the last applied snapshot; no reload work is pending."@
    }
}

/// The advice on provider health.
pub open spec fn ops_health_part(
    degraded: bool,
    recommended_provider: Option<Seq<char>>,
    default_provider: Seq<char>,
    startup_fallback_valid: bool,
) -> Seq<Seq<char>> {
    if degraded {
        seq![
            "Control plane is degraded; promote healthy provider `"@ + (match recommended_provider {
                Some(p) => p,
                None => default_provider,
            }) + "` before risky runtime changes."@,
        ]
    } else if !startup_fallback_valid {
        seq![
            "No healthy fallback control-plane provider is currently available; avoid risky restarts until provider health is restored."@,
        ]
    } else {
        seq![]
    }
}

/// The standing advice on backups and maintenance plans.
pub open spec fn ops_tail_part(config_path: Seq<char>, backup_root: Seq<char>) -> Seq<Seq<char>> {
    seq![
        "Take a workspace snapshot with `openrustclaw runtime backup` before config or binary changes. Backups are stored under `"@
            + backup_root + "`."@,
        "Use `openrustclaw runtime upgrade-plan --config "@ + config_path
            + "` for planned maintenance and `openrustclaw runtime rollback-plan --config "@ + config_path
            + " --artifact <path>` for recovery."@,
    ]
}

/// What the operator is advised before maintenance, in order: the service,
/// the lock, the pending config delta, provider health, the health scan's
/// warnings, then backups and maintenance plans.
pub open spec fn ops_actions(
    service_installed: bool,
    service_supported: bool,
    restart_command: Option<Seq<char>>,
    config_path: Seq<char>,
    lock_active: bool,
    lock_stale: bool,
    lock_pid: Option<u32>,
    restart_required: bool,
    restart_reasons: Seq<Seq<char>>,
    live_reload_ready: bool,
    degraded: bool,
    recommended_provider: Option<Seq<char>>,
    default_provider: Seq<char>,
    startup_fallback_valid: bool,
    operator_warnings: Seq<Seq<char>>,
    backup_root: Seq<char>,
) -> Seq<Seq<char>> {
    ops_service_part(service_installed, service_supported, restart_command, config_path) + seq![
        ops_lock_part(lock_active, lock_stale, lock_pid),
        ops_reload_part(restart_required, restart_reasons, live_reload_ready, config_path),
    ] + ops_health_part(degraded, recommended_provider, default_provider, startup_fallback_valid) + (if operator_warnings.len() > 0 {
        seq!["Review runtime warnings: "@ + joined(operator_warnings, " | "@)]
    } else {
        seq![]
    }) + ops_tail_part(config_path, backup_root)
}

fn ops_service_action(service: &RuntimeServiceInstallStatus, config_path: &str) -> (r: Vec<String>)
    ensures
        strs(r@) == ops_service_part(service.installed, service.supported, opt_string_view(service.restart_command), config_path@),
{
    let mut out: Vec<String> = Vec::new();
    if service.installed {
        match &service.restart_command {
            Some(c) => push_text(&mut out, concat3("Managed restart is available with `", c.as_str(), "`.")),
            None => {},
        }
    } else if service.supported {
        push_text(
            &mut out,
            concat3(
                "Install the workspace runtime service with `openrustclaw runtime services install --config ",
                config_path,
                "` before relying on unattended restarts.",
            ),
        );
    } else {
        push_text(
            &mut out,
            owned("No supported host user service manager was detected; document a manual restart path for this runtime target."),
        );
    }
    assert(strs(out@) =~= ops_service_part(service.installed, service.supported, opt_string_view(service.restart_command), config_path@));
    out
}

fn ops_lock_action(lock: &RuntimeLockStatus) -> (r: String)
    ensures
        r@ == ops_lock_part(lock.active, lock.stale, lock.process_id),
{
    if lock.active {
        let pid_text = match lock.process_id {
            Some(pid) => {
                let t = u64_text(pid as u64);
                concat2(" for PID ", t.as_str())
            },
            None => String::new(),
        };
        concat3("Runtime lock is active", pid_text.as_str(), "; stop or drain the running process before upgrade or rollback.")
    } else if lock.stale {
        owned("Runtime lock is stale; confirm the old process is gone and refresh the runtime through the managed restart path.")
    } else {
        owned("Runtime lock is clear; maintenance operations can proceed without an active owner record.")
    }
}

fn ops_reload_action(restart_required: bool, reasons: &Vec<String>, live_reload_ready: bool, config_path: &str) -> (r: String)
    ensures
        r@ == ops_reload_part(restart_required, strs(reasons@), live_reload_ready, config_path@),
{
    if restart_required {
        let joined_reasons = join_strings(reasons, " | ");
        concat3("Current config delta requires restart: ", joined_reasons.as_str(), ".")
    } else if live_reload_ready {
        concat3(
            "Current config delta is live-reload safe via `openrustclaw runtime reload --config ",
            config_path,
            "` or the Control UI reload action.",
        )
    } else {
        owned("Runtime config matches the last applied snapshot; no reload work is pending.")
    }
}

fn ops_health_action(
    degraded: bool,
    recommended: Option<&str>,
    default_provider: &str,
    startup_fallback_valid: bool,
) -> (r: Vec<String>)
    ensures
        strs(r@) == ops_health_part(degraded, crate::text::opt_str_view(recommended), default_provider@, startup_fallback_valid),
{
    let mut out: Vec<String> = Vec::new();
    if degraded {
        let p = match recommended {
            Some(p) => p,
            None => default_provider,
        };
        push_text(&mut out, concat3("Control plane is degraded; promote healthy provider `", p, "` before risky runtime changes."));
    } else if !startup_fallback_valid {
        push_text(
            &mut out,
            owned("No healthy fallback control-plane provider is currently available; avoid risky restarts until provider health is restored."),
        );
    }
    assert(strs(out@) =~= ops_health_part(degraded, crate::text::opt_str_view(recommended), default_provider@, startup_fallback_valid));
    out
}

fn ops_tail_action(config_path: &str, workspace_root: &str) -> (r: Vec<String>)
    ensures
        strs(r@) == ops_tail_part(config_path@, join_path(workspace_root@, DEFAULT_RUNTIME_BACKUP_ROOT@)),
{
    let mut out: Vec<String> = Vec::new();
    let backup_root = runtime_backup_root_for(workspace_root);
    push_text(
        &mut out,
        concat3(
            "Take a workspace snapshot with `openrustclaw runtime backup` before config or binary changes. Backups are stored under `",
            backup_root.as_str(),
            "`.",
        ),
    );
    let head = concat3(
        "Use `openrustclaw runtime upgrade-plan --config ",
        config_path,
        "` for planned maintenance and `openrustclaw runtime rollback-plan --config ",
    );
    push_text(&mut out, concat3(head.as_str(), config_path, " --artifact <path>` for recovery."));
    assert(strs(out@) =~= ops_tail_part(config_path@, join_path(workspace_root@, DEFAULT_RUNTIME_BACKUP_ROOT@)));
    out
}

/// What the operator is advised before maintenance, and whether a managed
/// restart is ready: the service is installed and no process holds the
/// lock.
pub fn runtime_operator_ops_summary(
    service: &RuntimeServiceInstallStatus,
    lock: &RuntimeLockStatus,
    config_path: &str,
    restart_required: bool,
    restart_required_reasons: &Vec<String>,
    live_reload_ready: bool,
    degraded_control_plane_mode: bool,
    recommended_control_plane_provider: Option<&str>,
    default_provider: &str,
    startup_fallback_valid: bool,
    operator_warnings: &Vec<String>,
    workspace_root: &str,
) -> (r: (Vec<String>, bool))
    ensures
        strs(r.0@) == ops_actions(
            service.installed,
            service.supported,
            opt_string_view(service.restart_command),
            config_path@,
            lock.active,
            lock.stale,
            lock.process_id,
            restart_required,
            strs(restart_required_reasons@),
            live_reload_ready,
            degraded_control_plane_mode,
            crate::text::opt_str_view(recommended_control_plane_provider),
            default_provider@,
            startup_fallback_valid,
            strs(operator_warnings@),
            join_path(workspace_root@, DEFAULT_RUNTIME_BACKUP_ROOT@),
        ),
        r.1 == (service.installed && !lock.active),
{
    let mut out = ops_service_action(service, config_path);
    push_text(&mut out, ops_lock_action(lock));
    push_text(&mut out, ops_reload_action(restart_required, restart_required_reasons, live_reload_ready, config_path));
    let health = ops_health_action(
        degraded_control_plane_mode,
        recommended_control_plane_provider,
        default_provider,
        startup_fallback_valid,
    );
    append_all(&mut out, &health);
    let ghost mid = strs(out@);
    if operator_warnings.len() > 0 {
        let w = join_strings(operator_warnings, " | ");
        push_text(&mut out, concat2("Review runtime warnings: ", w.as_str()));
    }
    let ghost with_warnings = strs(out@);
    let tail = ops_tail_action(config_path, workspace_root);
    append_all(&mut out, &tail);
    assert(with_warnings =~= mid + (if operator_warnings@.len() > 0 {
        seq!["Review runtime warnings: "@ + joined(strs(operator_warnings@), " | "@)]
    } else {
        Seq::<Seq<char>>::empty()
    }));
    (out, service.installed && !lock.active)
}

// ---------------------------------------------------------------------
// Backups

/// A backup that was taken.
pub struct RuntimeBackupSummary {
    pub created_at: String,
    pub backup_path: String,
    pub entries: Vec<String>,
}

/// A backup that was restored, with the backup taken just before.
pub struct RuntimeRestoreSummary {
    pub restored_at: String,
    pub backup_path: String,
    pub pre_restore_backup_path: String,
    pub entries: Vec<String>,
}

/// Where a backup goes: the given output path, else a directory under the
/// workspace's backup root named by its time stamp and reason.
pub open spec fn backup_destination_spec(
    root: Seq<char>,
    output_path: Option<Seq<char>>,
    stamp: Seq<char>,
    reason: Option<Seq<char>>,
) -> Seq<char> {
    match output_path {
        Some(p) => p,
        None => join_path(
            join_path(root, DEFAULT_RUNTIME_BACKUP_ROOT@),
            stamp + match reason {
                Some(r) => seq!['-'] + r,
                None => seq![],
            },
        ),
    }
}

/// Where a backup goes; `stamp` is the backup time as `%Y%m%d%H%M%S`.
pub fn backup_destination(workspace_root: &str, output_path: Option<&str>, stamp: &str, reason: Option<&str>) -> (r:
    String)
    ensures
        r@ == backup_destination_spec(
            workspace_root@,
            crate::text::opt_str_view(output_path),
            stamp@,
            crate::text::opt_str_view(reason),
        ),
{
    match output_path {
        Some(p) => owned(p),
        None => {
            let mut name = owned(stamp);
            match reason {
                Some(r) => {
                    name = concat3(stamp, "-", r);
                    proof {
                        reveal_strlit("-");
                    }
                },
                None => {},
            }
            let root = runtime_backup_root_for(workspace_root);
            join(root.as_str(), name.as_str())
        },
    }
}

/// The `.claw` entries a backup leaves out: earlier backups.
pub open spec fn skipped_claw_entry(name: Seq<char>) -> bool {
    name == "runtime-backups"@ || name == "onboard-backups"@
}

/// The `.claw/` paths of the entries a backup keeps.
pub open spec fn kept_claw_entries(names: Seq<Seq<char>>) -> Seq<Seq<char>>
    decreases names.len(),
{
    if names.len() == 0 {
        seq![]
    } else {
        kept_claw_entries(names.drop_last()) + if skipped_claw_entry(names.last()) {
            Seq::<Seq<char>>::empty()
        } else {
            seq![".claw/"@ + names.last()]
        }
    }
}

/// The workspace entries a backup copies: `.env` and `config` when present,
/// then the entries of `.claw` other than earlier backups, sorted.
pub fn collect_runtime_backup_entries(env_exists: bool, config_exists: bool, claw_entry_names: &Vec<String>) -> (r:
    Vec<String>)
    ensures
        exists|claw: Seq<Seq<char>>|
            crate::order::sorted_le(claw) && claw.to_multiset() == kept_claw_entries(strs(claw_entry_names@)).to_multiset()
                && strs(r@) == when_on(env_exists, ".env"@) + when_on(config_exists, "config"@) + claw,
{
    let mut claw: Vec<String> = Vec::new();
    let mut i: usize = 0;
    while i < claw_entry_names.len()
        invariant
            i <= claw_entry_names@.len(),
            strs(claw@) == kept_claw_entries(strs(claw_entry_names@.take(i as int))),
        decreases claw_entry_names@.len() - i,
    {
        let name = claw_entry_names[i].as_str();
        assert(strs(claw_entry_names@.take(i + 1)).drop_last() =~= strs(claw_entry_names@.take(i as int)));
        assert(strs(claw_entry_names@.take(i + 1)).last() == name@);
        if !(str_eq(name, "runtime-backups") || str_eq(name, "onboard-backups")) {
            push_text(&mut claw, concat2(".claw/", name));
        } else {
            assert(strs(claw@) =~= strs(claw@) + Seq::<Seq<char>>::empty());
        }
        i = i + 1;
    }
    assert(claw_entry_names@.take(claw_entry_names@.len() as int) =~= claw_entry_names@);
    let sorted = crate::order::sort_strings(claw);
    let mut out: Vec<String> = Vec::new();
    push_if(&mut out, env_exists, ".env");
    push_if(&mut out, config_exists, "config");
    append_all(&mut out, &sorted);
    out
}

/// The summary of a backup written to `backup_root`; a destination that
/// already exists is refused.
pub fn backup_runtime_state(
    backup_root: &str,
    destination_exists: bool,
    entries: Vec<String>,
    created_at: String,
) -> (r: Result<RuntimeBackupSummary, String>)
    ensures
        destination_exists ==> (r matches Err(e) && e@ == "Backup destination '"@ + backup_root@ + "' already exists"@),
        !destination_exists ==> (r matches Ok(s) && s.created_at == created_at && s.backup_path@ == backup_root@
            && s.entries == entries),
{
    if destination_exists {
        return Err(concat3("Backup destination '", backup_root, "' already exists"));
    }
    Ok(RuntimeBackupSummary { created_at, backup_path: owned(backup_root), entries })
}


/// The index of the first entry whose copy in the backup is missing; the
/// number of entries when none is.
pub open spec fn first_missing(present: Seq<bool>) -> nat
    decreases present.len(),
{
    if present.len() == 0 {
        0
    } else if !present[0] {
        0
    } else {
        1 + first_missing(present.drop_first())
    }
}

proof fn lemma_first_missing(present: Seq<bool>)
    ensures
        first_missing(present) <= present.len(),
        forall|j: int| 0 <= j < first_missing(present) ==> #[trigger] present[j],
        first_missing(present) < present.len() ==> !present[first_missing(present) as int],
    decreases present.len(),
{
    if present.len() > 0 && present[0] {
        lemma_first_missing(present.drop_first());
        assert forall|j: int| 0 <= j < first_missing(present) implies #[trigger] present[j] by {
            if j > 0 {
                assert(present[j] == present.drop_first()[j - 1]);
            }
        }
    }
}

/// Where a backup keeps its copy of a workspace entry.
pub open spec fn backup_copy_path(backup_path: Seq<char>, entry: Seq<char>) -> Seq<char> {
    join_path(join_path(backup_path, "workspace"@), entry)
}

/// The restore of a backup, given which of its listed entries have their
/// copy in it (`present`, one flag per entry): the entries restored in
/// order, up to the first whose copy is missing, and the error that stops
/// the restore there.
pub fn restore_runtime_entries(backup_path: &str, entries: &Vec<String>, present: &Vec<bool>) -> (r: (
    Vec<String>,
    Option<String>,
))
    requires
        present@.len() == entries@.len(),
    ensures
        strs(r.0@) == strs(entries@).take(first_missing(present@) as int),
        first_missing(present@) == entries@.len() ==> r.1 is None,
        first_missing(present@) < entries@.len() ==> (r.1 matches Some(e) && e@ == "Backup '"@ + backup_path@
            + "' is missing expected entry '"@ + backup_copy_path(
            backup_path@,
            entries@[first_missing(present@) as int]@,
        ) + "'"@),
{
    proof {
        lemma_first_missing(present@);
    }
    let mut restored: Vec<String> = Vec::new();
    let mut i: usize = 0;
    while i < entries.len()
        invariant
            i <= entries@.len() == present@.len(),
            i <= first_missing(present@),
            forall|j: int| 0 <= j < first_missing(present@) ==> #[trigger] present@[j],
            first_missing(present@) < present@.len() ==> !present@[first_missing(present@) as int],
            strs(restored@) == strs(entries@).take(i as int),
        decreases entries@.len() - i,
    {
        if !present[i] {
            assert(i == first_missing(present@));
            let copy = crate::paths::join(crate::paths::join(backup_path, "workspace").as_str(), entries[i].as_str());
            let a = concat3("Backup '", backup_path, "' is missing expected entry '");
            return (restored, Some(concat3(a.as_str(), copy.as_str(), "'")));
        }
        let ghost before = strs(restored@);
        restored.push(entries[i].clone());
        assert(strs(restored@) =~= before.push(entries@[i as int]@));
        assert(strs(entries@).take(i + 1) =~= strs(entries@).take(i as int).push(entries@[i as int]@));
        i = i + 1;
    }
    assert(strs(entries@).take(i as int) =~= strs(entries@));
    (restored, None)
}

/// A backup whose every listed entry has its copy in it is restored whole:
/// every entry, in the order the backup lists them, and no error.
pub proof fn law_complete_backup_restores_every_entry(present: Seq<bool>)
    requires
        forall|j: int| 0 <= j < present.len() ==> #[trigger] present[j],
    ensures
        first_missing(present) == present.len(),
    decreases present.len(),
{
    if present.len() > 0 {
        assert forall|j: int| 0 <= j < present.drop_first().len() implies #[trigger] present.drop_first()[j] by {
            assert(present.drop_first()[j] == present[j + 1]);
        }
        law_complete_backup_restores_every_entry(present.drop_first());
    }
}

/// The summary of a finished restore.
pub fn restore_summary(
    backup_path: &str,
    pre_restore_backup_path: String,
    entries: Vec<String>,
    restored_at: String,
) -> (r: RuntimeRestoreSummary)
    ensures
        r.backup_path@ == backup_path@,
        r.pre_restore_backup_path == pre_restore_backup_path,
        r.entries == entries,
        r.restored_at == restored_at,
{
    RuntimeRestoreSummary { restored_at, backup_path: owned(backup_path), pre_restore_backup_path, entries }
}

proof fn lemma_first_occurrences_distinct(s: Seq<Seq<char>>)
    ensures
        !has_duplicates(first_occurrences(s)),
    decreases s.len(),
{
    if s.len() > 0 {
        lemma_first_occurrences_distinct(s.drop_last());
        let prev = first_occurrences(s.drop_last());
        if !prev.contains(s.last()) {
            let q = prev.push(s.last());
            assert forall|i: int, j: int| 0 <= i < j < q.len() implies q[i] != q[j] by {
                if j == prev.len() {
                    assert(q[i] == prev[i]);
                    if q[i] == q[j] {
                        assert(prev.contains(s.last()));
                    }
                } else {
                    assert(q[i] == prev[i] && q[j] == prev[j]);
                }
            }
        }
    }
}

/// A health scan visits each provider of the default, the fallbacks and
/// the control-plane lane exactly once: no provider twice, none left out.
pub proof fn law_scan_order_visits_each_once(p: ProvidersSettings, provider: Seq<char>)
    ensures
        !has_duplicates(scan_order(p)),
        scan_order(p).contains(provider) <==> (seq![p.default_provider@] + strs(p.fallback_chain@)
            + control_plane_order(p)).contains(provider),
{
    let all = seq![p.default_provider@] + strs(p.fallback_chain@) + control_plane_order(p);
    lemma_first_occurrences_distinct(all);
    lemma_first_occurrences_contains(all, provider);
}

/// The rollback path recommended before a self-update: the current
/// executable's file name (`openrustclaw` when it has none) under a
/// `rollback-<stamp>` directory of the workspace's release root.
pub fn recommended_runtime_rollback_path(workspace_root: &str, exe_file_name: Option<&str>, stamp: &str) -> (r: String)
    ensures
        r@ == join_path(
            join_path(join_path(workspace_root@, DEFAULT_RUNTIME_RELEASE_ROOT@), "rollback-"@ + stamp@),
            match exe_file_name {
                Some(n) => n@,
                None => "openrustclaw"@,
            },
        ),
{
    let root = runtime_release_root_for(workspace_root);
    let dir_name = concat2("rollback-", stamp);
    let dir = join(root.as_str(), dir_name.as_str());
    let name = match exe_file_name {
        Some(n) => n,
        None => "openrustclaw",
    };
    join(dir.as_str(), name)
}

/// A self-update plan: the artifact to install, what the host shows of it,
/// and what the maintenance planner decided.
pub struct RuntimeSelfUpdatePlan {
    pub generated_at: String,
    pub config_path: String,
    pub current_executable: String,
    pub artifact_path: String,
    pub artifact_exists: bool,
    pub artifact_executable: bool,
    pub current_executable_size_bytes: Option<u64>,
    pub artifact_size_bytes: Option<u64>,
    pub recommended_rollback_path: String,
    pub service_install_status: RuntimeServiceInstallStatus,
    pub lock_status: RuntimeLockStatus,
    pub control_plane_action_provider: String,
    pub control_plane_action_model: String,
    pub backup_command: String,
    pub ready: bool,
    pub blockers: Vec<String>,
    pub steps: Vec<String>,
}

/// A rollback plan: the artifact to return to, what the host shows of it,
/// and what the maintenance planner decided.
pub struct RuntimeRollbackPlan {
    pub generated_at: String,
    pub config_path: String,
    pub current_executable: String,
    pub rollback_artifact_path: String,
    pub rollback_artifact_exists: bool,
    pub rollback_artifact_executable: bool,
    pub rollback_artifact_size_bytes: Option<u64>,
    pub service_install_status: RuntimeServiceInstallStatus,
    pub lock_status: RuntimeLockStatus,
    pub control_plane_action_provider: String,
    pub control_plane_action_model: String,
    pub backup_command: String,
    pub ready: bool,
    pub blockers: Vec<String>,
    pub steps: Vec<String>,
}


/// The network mode a gateway host implies: both loopback names,
/// `127.0.0.1` and `localhost`, are `loopback`; `0.0.0.0` is `lan`; any
/// other host is `remote`.
pub proof fn law_network_mode_of_a_host(host: Seq<char>)
    ensures
        host == "127.0.0.1"@ ==> network_mode_for(host) == "loopback"@,
        host == "localhost"@ ==> network_mode_for(host) == "loopback"@,
        host == "0.0.0.0"@ ==> network_mode_for(host) == "lan"@,
        host != "127.0.0.1"@ && host != "localhost"@ && host != "0.0.0.0"@ ==> network_mode_for(host)
            == "remote"@,
{
    reveal_strlit("127.0.0.1");
    reveal_strlit("localhost");
    reveal_strlit("0.0.0.0");
    assert("0.0.0.0"@[2] != "127.0.0.1"@[2]);
    assert("0.0.0.0"@[0] != "localhost"@[0]);
}

} // verus!

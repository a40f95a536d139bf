//! Guided onboarding: steps, access modes, deployment choices, and the
//! persisted setup state with its step and bootstrap bookkeeping.

use vstd::prelude::*;
use vstd::string::*;

use crate::self_hosted::{
    descriptor_fits, descriptor_for, is_supported_mode, lemma_modes_distinct, normalized_mode,
    SelfHostedModeDescriptor, SelfHostedProductManifest, MODE_COMPANY, MODE_ENTERPRISE, MODE_SOLO,
    MODE_TEAM,
};
use crate::order::{lex_lt, sort_dedup, sorted_strict};
use crate::runtime::{entry_for, RuntimeHealthProviderEntry};
use crate::services::{ChannelProbeEntry, ChannelProbeStatus};
use crate::text::{
    clone_strings, concat2, concat3, concat5, contains, is_blank, trim_seq, has_sub, lacks_both, not_in, opt_clone,
    opt_str_view, opt_string_view, owned, retain_lacking_both, retain_not_in, str_eq, strs,
    vec_contains_str,
};

verus! {

/// In-memory answers collected by the interactive wizard.
pub struct OnboardingState {
    pub gateway_configured: bool,
    pub channels_configured: Vec<String>,
    pub model_configured: bool,
    pub preferred_provider: Option<String>,
    pub selected_lane_id: Option<String>,
    pub selected_lane_label: Option<String>,
    pub selected_lane_kind: Option<String>,
    pub selected_backend_id: Option<String>,
    pub selected_lane_detail: Option<String>,
    pub selected_lane_compatibility_note: Option<String>,
    pub selected_access_mode: Option<String>,
    pub selected_primary_model: Option<String>,
    pub selected_primary_model_source: Option<String>,
    pub execution_mode: Option<String>,
    pub deployment_mode: Option<String>,
    pub deployment_path: Option<String>,
    pub remote_connectivity_profile: Option<RemoteConnectivityProfile>,
    pub daemon_installed: bool,
    pub skills_installed: Vec<String>,
    pub profile: Option<String>,
    pub workspace_action: Option<String>,
}

impl Default for OnboardingState {
    fn default() -> (s: Self)
        ensures
            !s.gateway_configured,
            s.channels_configured@.len() == 0,
            !s.model_configured,
            s.preferred_provider is None,
            s.selected_lane_id is None,
            s.selected_lane_label is None,
            s.selected_lane_kind is None,
            s.selected_backend_id is None,
            s.selected_lane_detail is None,
            s.selected_lane_compatibility_note is None,
            s.selected_access_mode is None,
            s.selected_primary_model is None,
            s.selected_primary_model_source is None,
            s.execution_mode is None,
            s.deployment_mode is None,
            s.deployment_path is None,
            s.remote_connectivity_profile is None,
            !s.daemon_installed,
            s.skills_installed@.len() == 0,
            s.profile is None,
            s.workspace_action is None,
    {
        OnboardingState {
            gateway_configured: false,
            channels_configured: Vec::new(),
            model_configured: false,
            preferred_provider: None,
            selected_lane_id: None,
            selected_lane_label: None,
            selected_lane_kind: None,
            selected_backend_id: None,
            selected_lane_detail: None,
            selected_lane_compatibility_note: None,
            selected_access_mode: None,
            selected_primary_model: None,
            selected_primary_model_source: None,
            execution_mode: None,
            deployment_mode: None,
            deployment_path: None,
            remote_connectivity_profile: None,
            daemon_installed: false,
            skills_installed: Vec::new(),
            profile: None,
            workspace_action: None,
        }
    }
}

/// How much of the setup the operator chose to run.
#[derive(Clone, Copy, Debug, PartialEq, Eq, Structural)]
pub enum OnboardingProfile {
    Standard,
    Advanced,
    Custom,
}

impl OnboardingProfile {
    pub fn label(&self) -> (r: &'static str)
        ensures
            r@ == match *self {
                OnboardingProfile::Standard => "Standard"@,
                OnboardingProfile::Advanced => "Advanced"@,
                OnboardingProfile::Custom => "Custom"@,
            },
    {
        match self {
            OnboardingProfile::Standard => "Standard",
            OnboardingProfile::Advanced => "Advanced",
            OnboardingProfile::Custom => "Custom",
        }
    }

    pub fn index(self) -> (r: usize)
        ensures
            r == match self {
                OnboardingProfile::Standard => 0usize,
                OnboardingProfile::Advanced => 1usize,
                OnboardingProfile::Custom => 2usize,
            },
    {
        match self {
            OnboardingProfile::Standard => 0,
            OnboardingProfile::Advanced => 1,
            OnboardingProfile::Custom => 2,
        }
    }
}

/// The onboarding steps, in their canonical order.
#[derive(Clone, Copy, Debug, PartialEq, Eq, Structural)]
pub enum OnboardingStep {
    Gateway,
    Channel,
    Model,
    ControlPlane,
    Skill,
    Daemon,
}

/// The stable identifier of a step.
pub open spec fn step_id_spec(step: OnboardingStep) -> Seq<char> {
    match step {
        OnboardingStep::Gateway => "gateway"@,
        OnboardingStep::Channel => "channel"@,
        OnboardingStep::Model => "model"@,
        OnboardingStep::ControlPlane => "control_plane"@,
        OnboardingStep::Skill => "skill"@,
        OnboardingStep::Daemon => "daemon"@,
    }
}

/// The display name of a step.
pub open spec fn step_name_spec(step: OnboardingStep) -> Seq<char> {
    match step {
        OnboardingStep::Gateway => "Gateway Setup"@,
        OnboardingStep::Channel => "Channel Setup"@,
        OnboardingStep::Model => "AI Model Setup"@,
        OnboardingStep::ControlPlane => "Claw Runtime Mode"@,
        OnboardingStep::Skill => "Skills Setup"@,
        OnboardingStep::Daemon => "System Service"@,
    }
}

/// The one-line description of a step.
pub open spec fn step_description_spec(step: OnboardingStep) -> Seq<char> {
    match step {
        OnboardingStep::Gateway => "Configure the WebSocket gateway server"@,
        OnboardingStep::Channel => "Connect messaging platforms"@,
        OnboardingStep::Model => "Configure your LLM provider"@,
        OnboardingStep::ControlPlane => "Choose solo vs multi-claw execution"@,
        OnboardingStep::Skill => "Install starter skills"@,
        OnboardingStep::Daemon => "Install as system service (optional)"@,
    }
}

impl OnboardingStep {
    pub fn id(&self) -> (r: &'static str)
        ensures
            r@ == step_id_spec(*self),
    {
        match self {
            OnboardingStep::Gateway => "gateway",
            OnboardingStep::Channel => "channel",
            OnboardingStep::Model => "model",
            OnboardingStep::ControlPlane => "control_plane",
            OnboardingStep::Skill => "skill",
            OnboardingStep::Daemon => "daemon",
        }
    }

    pub fn name(&self) -> (r: &'static str)
        ensures
            r@ == step_name_spec(*self),
    {
        match self {
            OnboardingStep::Gateway => "Gateway Setup",
            OnboardingStep::Channel => "Channel Setup",
            OnboardingStep::Model => "AI Model Setup",
            OnboardingStep::ControlPlane => "Claw Runtime Mode",
            OnboardingStep::Skill => "Skills Setup",
            OnboardingStep::Daemon => "System Service",
        }
    }

    pub fn description(&self) -> (r: &'static str)
        ensures
            r@ == step_description_spec(*self),
    {
        match self {
            OnboardingStep::Gateway => "Configure the WebSocket gateway server",
            OnboardingStep::Channel => "Connect messaging platforms",
            OnboardingStep::Model => "Configure your LLM provider",
            OnboardingStep::ControlPlane => "Choose solo vs multi-claw execution",
            OnboardingStep::Skill => "Install starter skills",
            OnboardingStep::Daemon => "Install as system service (optional)",
        }
    }
}

/// The step that an identifier names, if any.
pub open spec fn step_from_id_spec(id: Seq<char>) -> Option<OnboardingStep> {
    if id == "gateway"@ {
        Some(OnboardingStep::Gateway)
    } else if id == "channel"@ {
        Some(OnboardingStep::Channel)
    } else if id == "model"@ {
        Some(OnboardingStep::Model)
    } else if id == "control_plane"@ {
        Some(OnboardingStep::ControlPlane)
    } else if id == "skill"@ {
        Some(OnboardingStep::Skill)
    } else if id == "daemon"@ {
        Some(OnboardingStep::Daemon)
    } else {
        None
    }
}

/// Parses a step identifier.
pub fn step_from_id(id: &str) -> (r: Option<OnboardingStep>)
    ensures
        r == step_from_id_spec(id@),
{
    if str_eq(id, "gateway") {
        Some(OnboardingStep::Gateway)
    } else if str_eq(id, "channel") {
        Some(OnboardingStep::Channel)
    } else if str_eq(id, "model") {
        Some(OnboardingStep::Model)
    } else if str_eq(id, "control_plane") {
        Some(OnboardingStep::ControlPlane)
    } else if str_eq(id, "skill") {
        Some(OnboardingStep::Skill)
    } else if str_eq(id, "daemon") {
        Some(OnboardingStep::Daemon)
    } else {
        None
    }
}

/// The identifiers of `steps`, in order.
pub fn step_ids(steps: &Vec<OnboardingStep>) -> (r: Vec<String>)
    ensures
        strs(r@) == steps@.map_values(|s: OnboardingStep| step_id_spec(s)),
{
    let mut out: Vec<String> = Vec::new();
    let mut i: usize = 0;
    while i < steps.len()
        invariant
            i <= steps.len(),
            strs(out@) == steps@.subrange(0, i as int).map_values(
                |s: OnboardingStep| step_id_spec(s),
            ),
        decreases steps.len() - i,
    {
        let step = steps[i];
        let ghost before = strs(out@);
        let id = owned(step.id());
        out.push(id);
        assert(strs(out@) =~= before.push(step_id_spec(step)));
        assert(steps@.subrange(0, i + 1) =~= steps@.subrange(0, i as int).push(step));
        assert(strs(out@) =~= steps@.subrange(0, i + 1).map_values(
            |s: OnboardingStep| step_id_spec(s),
        ));
        i = i + 1;
    }
    assert(steps@.subrange(0, steps.len() as int) == steps@);
    out
}

/// Every step is recovered from its identifier: `step_from_id(step.id())`
/// gives the step back.
pub proof fn law_step_id_round_trip(step: OnboardingStep)
    ensures
        step_from_id_spec(step_id_spec(step)) == Some(step),
{
    reveal_strlit("gateway");
    reveal_strlit("channel");
    reveal_strlit("model");
    reveal_strlit("control_plane");
    reveal_strlit("skill");
    reveal_strlit("daemon");
    let g = "gateway"@;
    let c = "channel"@;
    let m = "model"@;
    let p = "control_plane"@;
    let k = "skill"@;
    let d = "daemon"@;
    assert(g[0] != c[0] && g[0] != m[0] && g[0] != p[0] && g[0] != k[0] && g[0] != d[0]);
    assert(c[1] != p[1] && c != k && c[0] != m[0] && c[0] != d[0]);
    assert(m[0] != p[0] && m[0] != k[0] && m[0] != d[0]);
    assert(p[0] != k[0] && p[0] != d[0]);
    assert(k[0] != d[0]);
}

/// How onboarding reaches a provider.
#[derive(Clone, Copy, Debug, PartialEq, Eq, Structural)]
pub enum OnboardingProviderAccessMode {
    ApiKey,
    LocalRuntime,
    SubscriptionManaged,
}

/// The identifier of an access mode.
pub open spec fn access_mode_id_spec(m: OnboardingProviderAccessMode) -> Seq<char> {
    match m {
        OnboardingProviderAccessMode::ApiKey => "api_key"@,
        OnboardingProviderAccessMode::LocalRuntime => "local_runtime"@,
        OnboardingProviderAccessMode::SubscriptionManaged => "subscription_managed"@,
    }
}

/// The access mode that an identifier names, if any.
pub open spec fn access_mode_from_id_spec(id: Seq<char>) -> Option<OnboardingProviderAccessMode> {
    if id == "api_key"@ {
        Some(OnboardingProviderAccessMode::ApiKey)
    } else if id == "local_runtime"@ {
        Some(OnboardingProviderAccessMode::LocalRuntime)
    } else if id == "subscription_managed"@ {
        Some(OnboardingProviderAccessMode::SubscriptionManaged)
    } else {
        None
    }
}

impl OnboardingProviderAccessMode {
    pub fn id(self) -> (r: &'static str)
        ensures
            r@ == access_mode_id_spec(self),
    {
        match self {
            OnboardingProviderAccessMode::ApiKey => "api_key",
            OnboardingProviderAccessMode::LocalRuntime => "local_runtime",
            OnboardingProviderAccessMode::SubscriptionManaged => "subscription_managed",
        }
    }

    pub fn label(self) -> (r: &'static str)
        ensures
            r@ == match self {
                OnboardingProviderAccessMode::ApiKey => "API key"@,
                OnboardingProviderAccessMode::LocalRuntime => "Local runtime"@,
                OnboardingProviderAccessMode::SubscriptionManaged => "Subscription-managed account"@,
            },
    {
        match self {
            OnboardingProviderAccessMode::ApiKey => "API key",
            OnboardingProviderAccessMode::LocalRuntime => "Local runtime",
            OnboardingProviderAccessMode::SubscriptionManaged => "Subscription-managed account",
        }
    }

    pub fn detail(self) -> (r: &'static str)
        ensures
            r@ == match self {
                OnboardingProviderAccessMode::ApiKey => "Use a provider API key stored in `.env`."@,
                OnboardingProviderAccessMode::LocalRuntime =>
                    "Use a local runtime already running on this machine."@,
                OnboardingProviderAccessMode::SubscriptionManaged =>
                    "Use a subscription-managed provider path without a direct API key."@,
            },
    {
        match self {
            OnboardingProviderAccessMode::ApiKey => "Use a provider API key stored in `.env`.",
            OnboardingProviderAccessMode::LocalRuntime =>
                "Use a local runtime already running on this machine.",
            OnboardingProviderAccessMode::SubscriptionManaged =>
                "Use a subscription-managed provider path without a direct API key.",
        }
    }

    pub fn from_id(value: &str) -> (r: Option<OnboardingProviderAccessMode>)
        ensures
            r == access_mode_from_id_spec(value@),
    {
        if str_eq(value, "api_key") {
            Some(OnboardingProviderAccessMode::ApiKey)
        } else if str_eq(value, "local_runtime") {
            Some(OnboardingProviderAccessMode::LocalRuntime)
        } else if str_eq(value, "subscription_managed") {
            Some(OnboardingProviderAccessMode::SubscriptionManaged)
        } else {
            None
        }
    }
}

/// Every access mode is recovered from its identifier.
pub proof fn law_access_mode_id_round_trip(m: OnboardingProviderAccessMode)
    ensures
        access_mode_from_id_spec(access_mode_id_spec(m)) == Some(m),
{
    reveal_strlit("api_key");
    reveal_strlit("local_runtime");
    reveal_strlit("subscription_managed");
    assert("api_key"@[0] != "local_runtime"@[0]);
    assert("api_key"@[0] != "subscription_managed"@[0]);
    assert("local_runtime"@[0] != "subscription_managed"@[0]);
}

/// The kind of an onboarding lane.
#[derive(Clone, Copy, Debug, PartialEq, Eq, Structural)]
pub enum OnboardingLaneKind {
    DirectApi,
    LocalRuntime,
    DelegatedAgent,
}

/// The identifier that the setup state stores for a lane kind.
pub fn lane_kind_id(kind: &OnboardingLaneKind) -> (r: &'static str)
    ensures
        r@ == match *kind {
            OnboardingLaneKind::DirectApi => "direct_api"@,
            OnboardingLaneKind::LocalRuntime => "local_runtime"@,
            OnboardingLaneKind::DelegatedAgent => "delegated_agent"@,
        },
{
    match kind {
        OnboardingLaneKind::DirectApi => "direct_api",
        OnboardingLaneKind::LocalRuntime => "local_runtime",
        OnboardingLaneKind::DelegatedAgent => "delegated_agent",
    }
}

/// The deployment modes offered by the wizard, in menu order.
#[derive(Clone, Copy, Debug, PartialEq, Eq, Structural)]
pub enum DeploymentModeChoice {
    Solo,
    Team,
    Company,
    Enterprise,
}

/// The product mode of a choice.
pub open spec fn choice_mode_spec(c: DeploymentModeChoice) -> Seq<char> {
    match c {
        DeploymentModeChoice::Solo => MODE_SOLO@,
        DeploymentModeChoice::Team => MODE_TEAM@,
        DeploymentModeChoice::Company => MODE_COMPANY@,
        DeploymentModeChoice::Enterprise => MODE_ENTERPRISE@,
    }
}

/// The choice for a stored mode; anything unknown falls back to solo.
pub open spec fn choice_from_mode_spec(mode: Seq<char>) -> DeploymentModeChoice {
    if mode == MODE_TEAM@ {
        DeploymentModeChoice::Team
    } else if mode == MODE_COMPANY@ {
        DeploymentModeChoice::Company
    } else if mode == MODE_ENTERPRISE@ {
        DeploymentModeChoice::Enterprise
    } else {
        DeploymentModeChoice::Solo
    }
}

/// The menu position of a choice.
pub open spec fn choice_index_spec(c: DeploymentModeChoice) -> usize {
    match c {
        DeploymentModeChoice::Solo => 0,
        DeploymentModeChoice::Team => 1,
        DeploymentModeChoice::Company => 2,
        DeploymentModeChoice::Enterprise => 3,
    }
}

impl DeploymentModeChoice {
    pub fn mode(self) -> (r: &'static str)
        ensures
            r@ == choice_mode_spec(self),
    {
        match self {
            DeploymentModeChoice::Solo => MODE_SOLO,
            DeploymentModeChoice::Team => MODE_TEAM,
            DeploymentModeChoice::Company => MODE_COMPANY,
            DeploymentModeChoice::Enterprise => MODE_ENTERPRISE,
        }
    }

    pub fn items() -> (r: [DeploymentModeChoice; 4])
        ensures
            r@ == seq![
                DeploymentModeChoice::Solo,
                DeploymentModeChoice::Team,
                DeploymentModeChoice::Company,
                DeploymentModeChoice::Enterprise,
            ],
    {
        let r = [
            DeploymentModeChoice::Solo,
            DeploymentModeChoice::Team,
            DeploymentModeChoice::Company,
            DeploymentModeChoice::Enterprise,
        ];
        assert(r@ =~= seq![
            DeploymentModeChoice::Solo,
            DeploymentModeChoice::Team,
            DeploymentModeChoice::Company,
            DeploymentModeChoice::Enterprise,
        ]);
        r
    }

    /// The menu label: the descriptor's label and operator model.
    pub fn label(self) -> (r: String)
        ensures
            exists|d: SelfHostedModeDescriptor|
                descriptor_fits(d, choice_mode_spec(self)) && r@ == d.label@ + " - "@
                    + d.operator_model@,
    {
        proof {
            crate::self_hosted::lemma_supported_mode_normal(choice_mode_spec(self));
        }
        match descriptor_for(self.mode()) {
            Ok(d) => concat3(d.label, " - ", d.operator_model),
            Err(_) => {
                proof {
                    lemma_modes_distinct();
                }
                String::new()
            },
        }
    }

    pub fn index(self) -> (r: usize)
        ensures
            r == choice_index_spec(self),
    {
        match self {
            DeploymentModeChoice::Solo => 0,
            DeploymentModeChoice::Team => 1,
            DeploymentModeChoice::Company => 2,
            DeploymentModeChoice::Enterprise => 3,
        }
    }

    pub fn from_mode(mode: &str) -> (r: DeploymentModeChoice)
        ensures
            r == choice_from_mode_spec(mode@),
    {
        if str_eq(mode, MODE_TEAM) {
            DeploymentModeChoice::Team
        } else if str_eq(mode, MODE_COMPANY) {
            DeploymentModeChoice::Company
        } else if str_eq(mode, MODE_ENTERPRISE) {
            DeploymentModeChoice::Enterprise
        } else {
            DeploymentModeChoice::Solo
        }
    }
}

/// Every deployment choice is recovered from its mode, and its menu index
/// is its position in `items`.
pub proof fn law_deployment_choice_round_trip(c: DeploymentModeChoice)
    ensures
        choice_from_mode_spec(choice_mode_spec(c)) == c,
        seq![
            DeploymentModeChoice::Solo,
            DeploymentModeChoice::Team,
            DeploymentModeChoice::Company,
            DeploymentModeChoice::Enterprise,
        ][choice_index_spec(c) as int] == c,
{
    lemma_modes_distinct();
}

/// How the workspace is reached from elsewhere.
#[derive(Debug, Clone)]
pub struct RemoteConnectivityProfile {
    pub mode: String,
    pub primary_path: String,
    pub fallback_paths: Vec<String>,
    pub detail: String,
}

/// The profile of a workspace that is reached only locally.
pub fn local_connectivity_profile() -> (r: RemoteConnectivityProfile)
    ensures
        r.mode@ == "local_only"@,
        r.primary_path@ == "local_runtime"@,
        r.fallback_paths@.len() == 0,
        r.detail@
            == "Local runtime selected. No remote connectivity fallback is active for this workspace."@,
{
    RemoteConnectivityProfile {
        mode: owned("local_only"),
        primary_path: owned("local_runtime"),
        fallback_paths: Vec::new(),
        detail: owned(
            "Local runtime selected. No remote connectivity fallback is active for this workspace.",
        ),
    }
}

/// The remote profile behind a menu selection; the first entry is also the
/// default for any selection out of range.
pub fn remote_connectivity_profile_for_selection(selection: usize) -> (r: RemoteConnectivityProfile)
    ensures
        r.mode@ == "remote_access"@,
        selection == 1 ==> r.primary_path@ == "node_first"@ && strs(r.fallback_paths@) == seq![
            "ssh_tunnel"@,
        ] && r.detail@
            == "Remote access profile saved: prefer a node-first path and use an SSH tunnel if the node path is unavailable."@,
        selection == 2 ==> r.primary_path@ == "ssh_tunnel"@ && r.fallback_paths@.len() == 0
            && r.detail@
            == "Remote access profile saved: use SSH tunnel as the temporary compatibility path until a node-first path is available."@,
        selection == 3 ==> r.primary_path@ == "reverse_proxy"@ && r.fallback_paths@.len() == 0
            && r.detail@
            == "Remote access profile saved: reverse proxy is the chosen last-resort path and should only be used when you control the proxy boundary end to end."@,
        (selection == 0 || selection > 3) ==> r.primary_path@ == "node_first"@ && strs(
            r.fallback_paths@,
        ) == seq!["ssh_tunnel"@, "reverse_proxy"@] && r.detail@
            == "Remote access profile saved: prefer a node-first path, use SSH tunnel as the first fallback, and keep reverse proxy as the last-resort fallback."@,
{
    if selection == 1 {
        let mut f: Vec<String> = Vec::new();
        f.push(owned("ssh_tunnel"));
        assert(strs(f@) =~= seq!["ssh_tunnel"@]);
        RemoteConnectivityProfile {
            mode: owned("remote_access"),
            primary_path: owned("node_first"),
            fallback_paths: f,
            detail: owned("Remote access profile saved: prefer a node-first path and use an SSH tunnel if the node path is unavailable."),
        }
    } else if selection == 2 {
        RemoteConnectivityProfile {
            mode: owned("remote_access"),
            primary_path: owned("ssh_tunnel"),
            fallback_paths: Vec::new(),
            detail: owned("Remote access profile saved: use SSH tunnel as the temporary compatibility path until a node-first path is available."),
        }
    } else if selection == 3 {
        RemoteConnectivityProfile {
            mode: owned("remote_access"),
            primary_path: owned("reverse_proxy"),
            fallback_paths: Vec::new(),
            detail: owned("Remote access profile saved: reverse proxy is the chosen last-resort path and should only be used when you control the proxy boundary end to end."),
        }
    } else {
        let mut f: Vec<String> = Vec::new();
        f.push(owned("ssh_tunnel"));
        f.push(owned("reverse_proxy"));
        assert(strs(f@) =~= seq!["ssh_tunnel"@, "reverse_proxy"@]);
        RemoteConnectivityProfile {
            mode: owned("remote_access"),
            primary_path: owned("node_first"),
            fallback_paths: f,
            detail: owned("Remote access profile saved: prefer a node-first path, use SSH tunnel as the first fallback, and keep reverse proxy as the last-resort fallback."),
        }
    }
}

/// The bootstrap status and detail recorded for a connectivity profile.
pub fn remote_connectivity_bootstrap_outcome(profile: &RemoteConnectivityProfile) -> (r: (
    &'static str,
    String,
))
    ensures
        profile.mode@ == "local_only"@ ==> r.0@ == "ready"@ && r.1@
            == "Local runtime remains the active control path for this workspace."@,
        profile.mode@ != "local_only"@ ==> r.0@ == "warning"@ && r.1@ == profile.detail@
            + " Finish the host-level remote bootstrap manually, then verify the resulting path with `openrustclaw doctor` and the setup handoff surface."@,
{
    if str_eq(profile.mode.as_str(), "local_only") {
        ("ready", owned("Local runtime remains the active control path for this workspace."))
    } else {
        (
            "warning",
            concat2(
                profile.detail.as_str(),
                " Finish the host-level remote bootstrap manually, then verify the resulting path with `openrustclaw doctor` and the setup handoff surface.",
            ),
        )
    }
}

/// The setup-state format version written by this library.
pub const SETUP_STATE_VERSION: u32 = 1;

/// The version assumed for a stored setup state that names none.
pub fn default_setup_state_version() -> (r: u32)
    ensures
        r == SETUP_STATE_VERSION,
{
    SETUP_STATE_VERSION
}

/// The stored setup state with its format version.
#[derive(Debug, Clone)]
pub struct SetupStateManifest {
    pub version: u32,
    pub setup: SetupState,
}

/// Progress of the guided setup, persisted between runs.
#[derive(Debug, Clone)]
pub struct SetupState {
    pub started_at: String,
    pub updated_at: String,
    pub completed_at: Option<String>,
    pub status: String,
    pub workspace_action: String,
    pub deployment_mode: Option<String>,
    pub deployment_path: Option<String>,
    pub remote_connectivity_profile: Option<RemoteConnectivityProfile>,
    pub setup_path: Option<String>,
    pub selected_provider: Option<String>,
    pub selected_lane_id: Option<String>,
    pub selected_lane_label: Option<String>,
    pub selected_lane_kind: Option<String>,
    pub selected_backend_id: Option<String>,
    pub selected_lane_detail: Option<String>,
    pub selected_lane_compatibility_note: Option<String>,
    pub selected_access_mode: Option<String>,
    pub selected_primary_model: Option<String>,
    pub selected_primary_model_source: Option<String>,
    pub selected_steps: Vec<String>,
    pub completed_steps: Vec<String>,
    pub blockers: Vec<String>,
    pub next_action: Option<String>,
    pub current_step: Option<String>,
    pub bootstrap_outcomes: Vec<SetupBootstrapOutcome>,
}

/// The recorded result of bootstrapping one target.
#[derive(Debug, Clone)]
pub struct SetupBootstrapOutcome {
    pub category: String,
    pub target: String,
    pub status: String,
    pub detail: String,
    pub issue_kind: Option<String>,
    pub verification_stage: Option<String>,
    pub suggested_action: Option<String>,
    pub updated_at: String,
}

/// The state a fresh setup starts in, stamped with `now`.
pub fn new_setup_state(now: &str) -> (r: SetupState)
    ensures
        r.started_at@ == now@,
        r.updated_at@ == now@,
        r.completed_at is None,
        r.status@ == "in_progress"@,
        r.workspace_action@ == "new_workspace"@,
        r.deployment_mode is None,
        r.deployment_path is None,
        r.remote_connectivity_profile is None,
        r.setup_path is None,
        r.selected_provider is None,
        r.selected_lane_id is None,
        r.selected_lane_label is None,
        r.selected_lane_kind is None,
        r.selected_backend_id is None,
        r.selected_lane_detail is None,
        r.selected_lane_compatibility_note is None,
        r.selected_access_mode is None,
        r.selected_primary_model is None,
        r.selected_primary_model_source is None,
        r.selected_steps@.len() == 0,
        r.completed_steps@.len() == 0,
        r.blockers@.len() == 0,
        r.next_action is None,
        r.current_step is None,
        r.bootstrap_outcomes@.len() == 0,
{
    SetupState {
        started_at: owned(now),
        updated_at: owned(now),
        completed_at: None,
        status: owned("in_progress"),
        workspace_action: owned("new_workspace"),
        deployment_mode: None,
        deployment_path: None,
        remote_connectivity_profile: None,
        setup_path: None,
        selected_provider: None,
        selected_lane_id: None,
        selected_lane_label: None,
        selected_lane_kind: None,
        selected_backend_id: None,
        selected_lane_detail: None,
        selected_lane_compatibility_note: None,
        selected_access_mode: None,
        selected_primary_model: None,
        selected_primary_model_source: None,
        selected_steps: Vec::new(),
        completed_steps: Vec::new(),
        blockers: Vec::new(),
        next_action: None,
        current_step: None,
        bootstrap_outcomes: Vec::new(),
    }
}

/// The setup state recorded when onboarding starts the selected steps: it
/// carries the wizard's answers (workspace action, deployment, connectivity,
/// setup path, provider, lane, access mode and primary model), lists the
/// selected steps, points at the first of them, and has nothing completed,
/// blocked or bootstrapped yet.
pub fn started_setup_state(state: &OnboardingState, steps: &Vec<OnboardingStep>, now: &str) -> (r: SetupState)
    ensures
        r.started_at@ == now@,
        r.updated_at@ == now@,
        r.completed_at is None,
        r.status@ == "in_progress"@,
        r.workspace_action@ == (match state.workspace_action {
            Some(a) => a@,
            None => "new_workspace"@,
        }),
        opt_string_view(r.deployment_mode) == opt_string_view(state.deployment_mode),
        opt_string_view(r.deployment_path) == opt_string_view(state.deployment_path),
        opt_profile_view(r.remote_connectivity_profile) == opt_profile_view(state.remote_connectivity_profile),
        opt_string_view(r.setup_path) == opt_string_view(state.profile),
        opt_string_view(r.selected_provider) == opt_string_view(state.preferred_provider),
        opt_string_view(r.selected_lane_id) == opt_string_view(state.selected_lane_id),
        opt_string_view(r.selected_lane_label) == opt_string_view(state.selected_lane_label),
        opt_string_view(r.selected_lane_kind) == opt_string_view(state.selected_lane_kind),
        opt_string_view(r.selected_backend_id) == opt_string_view(state.selected_backend_id),
        opt_string_view(r.selected_lane_detail) == opt_string_view(state.selected_lane_detail),
        opt_string_view(r.selected_lane_compatibility_note) == opt_string_view(
            state.selected_lane_compatibility_note,
        ),
        opt_string_view(r.selected_access_mode) == opt_string_view(state.selected_access_mode),
        opt_string_view(r.selected_primary_model) == opt_string_view(state.selected_primary_model),
        opt_string_view(r.selected_primary_model_source) == opt_string_view(state.selected_primary_model_source),
        strs(r.selected_steps@) == steps@.map_values(|s: OnboardingStep| step_id_spec(s)),
        r.completed_steps@.len() == 0,
        r.blockers@.len() == 0,
        r.bootstrap_outcomes@.len() == 0,
        opt_string_view(r.next_action) == (if steps@.len() == 0 {
            None::<Seq<char>>
        } else {
            Some("Complete "@ + step_name_spec(steps@[0]))
        }),
        opt_string_view(r.current_step) == (if steps@.len() == 0 {
            None::<Seq<char>>
        } else {
            Some(step_id_spec(steps@[0]))
        }),
{
    let workspace_action = match &state.workspace_action {
        Some(a) => a.clone(),
        None => owned("new_workspace"),
    };
    let (next_action, current_step) = if steps.len() == 0 {
        (None, None)
    } else {
        (Some(concat2("Complete ", steps[0].name())), Some(owned(steps[0].id())))
    };
    SetupState {
        started_at: owned(now),
        updated_at: owned(now),
        completed_at: None,
        status: owned("in_progress"),
        workspace_action,
        deployment_mode: opt_clone(&state.deployment_mode),
        deployment_path: opt_clone(&state.deployment_path),
        remote_connectivity_profile: copy_profile(&state.remote_connectivity_profile),
        setup_path: opt_clone(&state.profile),
        selected_provider: opt_clone(&state.preferred_provider),
        selected_lane_id: opt_clone(&state.selected_lane_id),
        selected_lane_label: opt_clone(&state.selected_lane_label),
        selected_lane_kind: opt_clone(&state.selected_lane_kind),
        selected_backend_id: opt_clone(&state.selected_backend_id),
        selected_lane_detail: opt_clone(&state.selected_lane_detail),
        selected_lane_compatibility_note: opt_clone(&state.selected_lane_compatibility_note),
        selected_access_mode: opt_clone(&state.selected_access_mode),
        selected_primary_model: opt_clone(&state.selected_primary_model),
        selected_primary_model_source: opt_clone(&state.selected_primary_model_source),
        selected_steps: step_ids(steps),
        completed_steps: Vec::new(),
        blockers: Vec::new(),
        next_action,
        current_step,
        bootstrap_outcomes: Vec::new(),
    }
}

/// A setup status from which onboarding resumes.
pub open spec fn resumable_status(status: Seq<char>) -> bool {
    status == "in_progress"@ || status == "blocked"@
}

/// A setup that stopped part-way can be resumed.
pub fn setup_state_is_resumable(manifest: &SetupStateManifest) -> (r: bool)
    ensures
        r == resumable_status(manifest.setup.status@),
{
    str_eq(manifest.setup.status.as_str(), "in_progress") || str_eq(
        manifest.setup.status.as_str(),
        "blocked",
    )
}

/// An outcome that reports a provider connection that is not ready.
pub open spec fn unready_provider_outcome(o: SetupBootstrapOutcome) -> bool {
    o.status@ != "ready"@ && opt_string_view(o.verification_stage) == Some(
        "provider_connection"@,
    )
}

/// The last index below `n` of an unready provider outcome.
pub open spec fn last_unready_provider(s: Seq<SetupBootstrapOutcome>, n: int) -> Option<int>
    decreases n,
{
    if n <= 0 {
        None
    } else if unready_provider_outcome(s[n - 1]) {
        Some(n - 1)
    } else {
        last_unready_provider(s, n - 1)
    }
}

proof fn lemma_last_unready_bounds(s: Seq<SetupBootstrapOutcome>, n: int)
    ensures
        last_unready_provider(s, n) matches Some(k) ==> 0 <= k < n && unready_provider_outcome(
            s[k],
        ),
    decreases n,
{
    if n > 0 && !unready_provider_outcome(s[n - 1]) {
        lemma_last_unready_bounds(s, n - 1);
    }
}

/// The index of the most recent unready provider-connection outcome.
pub fn find_last_unready_provider_outcome(outcomes: &Vec<SetupBootstrapOutcome>) -> (r: Option<
    usize,
>)
    ensures
        match r {
            Some(k) => last_unready_provider(outcomes@, outcomes@.len() as int) == Some(k as int)
                && k < outcomes@.len(),
            None => last_unready_provider(outcomes@, outcomes@.len() as int) is None,
        },
{
    let mut n: usize = outcomes.len();
    while n > 0
        invariant
            n <= outcomes.len(),
            last_unready_provider(outcomes@, outcomes@.len() as int) == last_unready_provider(
                outcomes@,
                n as int,
            ),
        decreases n,
    {
        let o = &outcomes[n - 1];
        let stage_matches = match &o.verification_stage {
            Some(v) => str_eq(v.as_str(), "provider_connection"),
            None => false,
        };
        if !str_eq(o.status.as_str(), "ready") && stage_matches {
            return Some(n - 1);
        }
        n = n - 1;
    }
    None
}

/// The next action shown for a step, given what the setup has recorded.
pub open spec fn step_next_action_spec(setup: SetupState, step: OnboardingStep) -> Seq<char> {
    if step == OnboardingStep::Model {
        if setup.selected_provider is None || setup.selected_access_mode is None {
            "Choose the LLM provider and access mode"@
        } else if setup.selected_primary_model is None {
            "Choose the primary task model"@
        } else if let Some(k) = last_unready_provider(
            setup.bootstrap_outcomes@,
            setup.bootstrap_outcomes@.len() as int,
        ) {
            match opt_string_view(setup.bootstrap_outcomes@[k].suggested_action) {
                Some(a) => a,
                None => "Resolve provider verification and rerun onboarding"@,
            }
        } else {
            "Complete "@ + step_name_spec(step)
        }
    } else {
        "Complete "@ + step_name_spec(step)
    }
}

/// The next action for `step`: for the model step, the first missing choice
/// or the suggested fix of the latest failed provider verification.
pub fn step_next_action(setup: &SetupState, step: &OnboardingStep) -> (r: String)
    ensures
        r@ == step_next_action_spec(*setup, *step),
{
    match step {
        OnboardingStep::Model => {
            if setup.selected_provider.is_none() || setup.selected_access_mode.is_none() {
                owned("Choose the LLM provider and access mode")
            } else if setup.selected_primary_model.is_none() {
                owned("Choose the primary task model")
            } else {
                match find_last_unready_provider_outcome(&setup.bootstrap_outcomes) {
                    Some(k) => match &setup.bootstrap_outcomes[k].suggested_action {
                        Some(a) => a.clone(),
                        None => owned("Resolve provider verification and rerun onboarding"),
                    },
                    None => concat2("Complete ", step.name()),
                }
            }
        },
        _ => concat2("Complete ", step.name()),
    }
}

/// The fields that describe the workspace and how setup was entered.
pub open spec fn same_identity(a: SetupState, b: SetupState) -> bool {
    &&& a.started_at == b.started_at
    &&& a.workspace_action == b.workspace_action
    &&& a.deployment_mode == b.deployment_mode
    &&& a.deployment_path == b.deployment_path
    &&& a.remote_connectivity_profile == b.remote_connectivity_profile
    &&& a.setup_path == b.setup_path
}

/// The provider, lane and model choices.
pub open spec fn same_selection(a: SetupState, b: SetupState) -> bool {
    &&& a.selected_provider == b.selected_provider
    &&& a.selected_lane_id == b.selected_lane_id
    &&& a.selected_lane_label == b.selected_lane_label
    &&& a.selected_lane_kind == b.selected_lane_kind
    &&& a.selected_backend_id == b.selected_backend_id
    &&& a.selected_lane_detail == b.selected_lane_detail
    &&& a.selected_lane_compatibility_note == b.selected_lane_compatibility_note
    &&& a.selected_access_mode == b.selected_access_mode
    &&& a.selected_primary_model == b.selected_primary_model
    &&& a.selected_primary_model_source == b.selected_primary_model_source
}

/// The step bookkeeping.
pub open spec fn same_progress(a: SetupState, b: SetupState) -> bool {
    &&& a.completed_at == b.completed_at
    &&& a.status == b.status
    &&& a.selected_steps == b.selected_steps
    &&& a.completed_steps == b.completed_steps
    &&& a.blockers == b.blockers
    &&& a.next_action == b.next_action
    &&& a.current_step == b.current_step
}

/// Marks `step` as the step in progress.
pub fn set_setup_state_current_step(setup: &mut SetupState, step: &OnboardingStep, now: &str)
    ensures
        final(setup).status@ == "in_progress"@,
        opt_string_view(final(setup).current_step) == Some(step_id_spec(*step)),
        opt_string_view(final(setup).next_action) == Some(
            step_next_action_spec(*old(setup), *step),
        ),
        final(setup).updated_at@ == now@,
        same_identity(*old(setup), *final(setup)),
        same_selection(*old(setup), *final(setup)),
        final(setup).bootstrap_outcomes == old(setup).bootstrap_outcomes,
        final(setup).completed_at == old(setup).completed_at,
        final(setup).selected_steps == old(setup).selected_steps,
        final(setup).completed_steps == old(setup).completed_steps,
        final(setup).blockers == old(setup).blockers,
{
    let next = step_next_action(setup, step);
    setup.status = owned("in_progress");
    setup.current_step = Some(owned(step.id()));
    setup.next_action = Some(next);
    setup.updated_at = owned(now);
}

/// The first index at or after `i` of a selected step not yet completed.
pub open spec fn first_pending(sel: Seq<Seq<char>>, done: Seq<Seq<char>>, i: int) -> Option<int>
    decreases sel.len() - i,
{
    if i < 0 || i >= sel.len() {
        None
    } else if !done.contains(sel[i]) {
        Some(i)
    } else {
        first_pending(sel, done, i + 1)
    }
}

/// The next action after the selected steps in `sel` minus those in `done`.
pub open spec fn pending_next_action(
    setup: SetupState,
    sel: Seq<Seq<char>>,
    done: Seq<Seq<char>>,
) -> Option<Seq<char>> {
    match first_pending(sel, done, 0) {
        Some(k) => match step_from_id_spec(sel[k]) {
            Some(s) => Some(step_next_action_spec(setup, s)),
            None => None,
        },
        None => None,
    }
}

proof fn lemma_first_pending_bounds(sel: Seq<Seq<char>>, done: Seq<Seq<char>>, i: int)
    ensures
        first_pending(sel, done, i) matches Some(k) ==> 0 <= k < sel.len(),
    decreases sel.len() - i,
{
    if 0 <= i < sel.len() && done.contains(sel[i]) {
        lemma_first_pending_bounds(sel, done, i + 1);
    }
}

/// The index of the first selected step that is not completed.
fn find_first_pending(sel: &Vec<String>, done: &Vec<String>) -> (r: Option<usize>)
    ensures
        match r {
            Some(k) => first_pending(strs(sel@), strs(done@), 0) == Some(k as int) && k
                < sel.len(),
            None => first_pending(strs(sel@), strs(done@), 0) is None,
        },
{
    let mut i: usize = 0;
    while i < sel.len()
        invariant
            i <= sel.len(),
            first_pending(strs(sel@), strs(done@), 0) == first_pending(
                strs(sel@),
                strs(done@),
                i as int,
            ),
        decreases sel.len() - i,
    {
        if !vec_contains_str(done, sel[i].as_str()) {
            return Some(i);
        }
        i = i + 1;
    }
    None
}

/// The step completed list with `id` added once.
pub open spec fn with_step(done: Seq<Seq<char>>, id: Seq<char>) -> Seq<Seq<char>> {
    if done.contains(id) {
        done
    } else {
        done.push(id)
    }
}

/// `after` is `before` with `step` recorded as completed at `now`: the step
/// added to the completed steps once, the blockers that mention it dropped,
/// no step in progress, the next action pointing at the first selected step
/// still pending, and everything else kept.
pub open spec fn step_completed_from(before: SetupState, after: SetupState, step: OnboardingStep, now: Seq<char>) -> bool {
    &&& strs(after.completed_steps@) == with_step(strs(before.completed_steps@), step_id_spec(step))
    &&& strs(after.blockers@) == strs(before.blockers@).filter(lacks_both(step_name_spec(step), step_id_spec(step)))
    &&& after.current_step is None
    &&& opt_string_view(after.next_action) == pending_next_action(
        before,
        strs(before.selected_steps@),
        strs(after.completed_steps@),
    )
    &&& after.updated_at@ == now
    &&& same_identity(before, after)
    &&& same_selection(before, after)
    &&& after.bootstrap_outcomes == before.bootstrap_outcomes
    &&& after.completed_at == before.completed_at
    &&& after.status == before.status
    &&& after.selected_steps == before.selected_steps
}

proof fn lemma_filter_twice(s: Seq<Seq<char>>, p: spec_fn(Seq<char>) -> bool)
    ensures
        s.filter(p).filter(p) == s.filter(p),
    decreases s.len(),
{
    reveal(Seq::filter);
    if s.len() > 0 {
        lemma_filter_twice(s.drop_last(), p);
        let sub = s.drop_last().filter(p);
        if p(s.last()) {
            assert(sub.push(s.last()).drop_last() =~= sub);
        }
    }
}

/// Completing a step a second time changes none of the step bookkeeping:
/// the completed steps, the blockers, the step in progress and the next
/// action stay as the first completion left them (only the time moves).
pub proof fn law_completing_a_step_again_changes_nothing(
    s0: SetupState,
    s1: SetupState,
    s2: SetupState,
    step: OnboardingStep,
    t1: Seq<char>,
    t2: Seq<char>,
)
    requires
        step_completed_from(s0, s1, step, t1),
        step_completed_from(s1, s2, step, t2),
    ensures
        strs(s2.completed_steps@) == strs(s1.completed_steps@),
        strs(s2.blockers@) == strs(s1.blockers@),
        s2.current_step == s1.current_step,
        opt_string_view(s2.next_action) == opt_string_view(s1.next_action),
        s2.updated_at@ == t2,
{
    let id = step_id_spec(step);
    assert(with_step(strs(s0.completed_steps@), id).contains(id)) by {
        let d = strs(s0.completed_steps@);
        if !d.contains(id) {
            assert(d.push(id)[d.len() as int] == id);
        }
    }
    lemma_filter_twice(strs(s0.blockers@), lacks_both(step_name_spec(step), id));
}

/// Records `step` as completed: adds it to the completed steps once, drops
/// the blockers that mention it, and points the next action at the first
/// selected step that is still pending.
pub fn mark_setup_state_step_completed(setup: &mut SetupState, step: &OnboardingStep, now: &str)
    ensures
        step_completed_from(*old(setup), *final(setup), *step, now@),
{
    let id = step.id();
    if !vec_contains_str(&setup.completed_steps, id) {
        setup.completed_steps.push(owned(id));
        assert(strs(setup.completed_steps@) =~= strs(old(setup).completed_steps@).push(id@));
    }
    setup.blockers = retain_lacking_both(&setup.blockers, step.name(), id);
    setup.current_step = None;
    let next = match find_first_pending(&setup.selected_steps, &setup.completed_steps) {
        Some(k) => match step_from_id(setup.selected_steps[k].as_str()) {
            Some(next_step) => Some(step_next_action(setup, &next_step)),
            None => None,
        },
        None => None,
    };
    setup.next_action = next;
    setup.updated_at = owned(now);
}

/// The next action recorded when `step` is blocked.
pub open spec fn blocked_next_action_spec(setup: SetupState, step: OnboardingStep) -> Seq<char> {
    let fallback = "Review "@ + step_name_spec(step) + " and rerun onboarding"@;
    if step == OnboardingStep::Model {
        match last_unready_provider(
            setup.bootstrap_outcomes@,
            setup.bootstrap_outcomes@.len() as int,
        ) {
            Some(k) => match opt_string_view(setup.bootstrap_outcomes@[k].suggested_action) {
                Some(a) => a,
                None => fallback,
            },
            None => fallback,
        }
    } else {
        fallback
    }
}

/// Records that `step` is blocked by `message`.
pub fn mark_setup_state_step_blocked(
    setup: &mut SetupState,
    step: &OnboardingStep,
    message: &str,
    now: &str,
)
    ensures
        final(setup).status@ == "blocked"@,
        opt_string_view(final(setup).current_step) == Some(step_id_spec(*step)),
        strs(final(setup).blockers@) == with_step(strs(old(setup).blockers@), message@),
        opt_string_view(final(setup).next_action) == Some(
            blocked_next_action_spec(*old(setup), *step),
        ),
        final(setup).updated_at@ == now@,
        same_identity(*old(setup), *final(setup)),
        same_selection(*old(setup), *final(setup)),
        final(setup).bootstrap_outcomes == old(setup).bootstrap_outcomes,
        final(setup).completed_at == old(setup).completed_at,
        final(setup).selected_steps == old(setup).selected_steps,
        final(setup).completed_steps == old(setup).completed_steps,
{
    setup.status = owned("blocked");
    setup.current_step = Some(owned(step.id()));
    if !vec_contains_str(&setup.blockers, message) {
        setup.blockers.push(owned(message));
        assert(strs(setup.blockers@) =~= strs(old(setup).blockers@).push(message@));
    }
    let fallback = concat3("Review ", step.name(), " and rerun onboarding");
    let next = match step {
        OnboardingStep::Model => match find_last_unready_provider_outcome(
            &setup.bootstrap_outcomes,
        ) {
            Some(k) => match &setup.bootstrap_outcomes[k].suggested_action {
                Some(a) => a.clone(),
                None => fallback,
            },
            None => fallback,
        },
        _ => fallback,
    };
    setup.next_action = Some(next);
    setup.updated_at = owned(now);
}

/// Closes the setup with the outcome of the first-start readiness check.
pub fn finalize_setup_state(
    setup: &mut SetupState,
    ready: bool,
    blocking_items: &Vec<String>,
    now: &str,
)
    ensures
        opt_string_view(final(setup).completed_at) == Some(now@),
        final(setup).current_step is None,
        ready ==> final(setup).status@ == "ready"@ && final(setup).blockers@.len() == 0
            && opt_string_view(final(setup).next_action) == Some(
            "Start the gateway or launch the persisted assistant session."@,
        ),
        !ready ==> final(setup).status@ == "blocked"@ && strs(final(setup).blockers@) == strs(
            blocking_items@,
        ) && opt_string_view(final(setup).next_action) == Some(
            "Run `openrustclaw doctor --deep`, fix blockers, then rerun onboarding."@,
        ),
        final(setup).updated_at@ == now@,
        same_identity(*old(setup), *final(setup)),
        same_selection(*old(setup), *final(setup)),
        final(setup).bootstrap_outcomes == old(setup).bootstrap_outcomes,
        final(setup).selected_steps == old(setup).selected_steps,
        final(setup).completed_steps == old(setup).completed_steps,
{
    setup.completed_at = Some(owned(now));
    setup.current_step = None;
    if ready {
        setup.status = owned("ready");
        setup.blockers = Vec::new();
        setup.next_action = Some(
            owned("Start the gateway or launch the persisted assistant session."),
        );
    } else {
        setup.status = owned("blocked");
        setup.blockers = clone_strings(blocking_items);
        setup.next_action = Some(
            owned("Run `openrustclaw doctor --deep`, fix blockers, then rerun onboarding."),
        );
    }
    setup.updated_at = owned(now);
}

/// Records the chosen primary model and where it came from.
pub fn persist_primary_model_selection(
    setup: &mut SetupState,
    model: &str,
    source: &str,
    now: &str,
)
    ensures
        opt_string_view(final(setup).selected_primary_model) == Some(model@),
        opt_string_view(final(setup).selected_primary_model_source) == Some(source@),
        final(setup).selected_provider == old(setup).selected_provider,
        final(setup).selected_lane_id == old(setup).selected_lane_id,
        final(setup).selected_lane_label == old(setup).selected_lane_label,
        final(setup).selected_lane_kind == old(setup).selected_lane_kind,
        final(setup).selected_backend_id == old(setup).selected_backend_id,
        final(setup).selected_lane_detail == old(setup).selected_lane_detail,
        final(setup).selected_lane_compatibility_note
            == old(setup).selected_lane_compatibility_note,
        final(setup).selected_access_mode == old(setup).selected_access_mode,
        final(setup).updated_at@ == now@,
        same_identity(*old(setup), *final(setup)),
        same_progress(*old(setup), *final(setup)),
        final(setup).bootstrap_outcomes == old(setup).bootstrap_outcomes,
{
    setup.selected_primary_model = Some(owned(model));
    setup.selected_primary_model_source = Some(owned(source));
    setup.updated_at = owned(now);
}

/// The descriptor of an onboarding lane as the wizard stores it.
#[derive(Debug, Clone)]
pub struct OnboardingLaneDescriptor {
    pub lane_id: String,
    pub provider_id: String,
    pub label: String,
    pub kind: OnboardingLaneKind,
    pub backend_id: Option<String>,
    pub detail: String,
    pub compatibility_note: Option<String>,
}

/// Records the chosen provider lane and access mode; a new provider path
/// clears any earlier primary model choice.
pub fn persist_provider_path_selection(
    setup: &mut SetupState,
    descriptor: &OnboardingLaneDescriptor,
    access_mode: Option<&str>,
    now: &str,
)
    ensures
        opt_string_view(final(setup).selected_provider) == Some(descriptor.provider_id@),
        opt_string_view(final(setup).selected_lane_id) == Some(descriptor.lane_id@),
        opt_string_view(final(setup).selected_lane_label) == Some(descriptor.label@),
        opt_string_view(final(setup).selected_lane_kind) == Some(
            match descriptor.kind {
                OnboardingLaneKind::DirectApi => "direct_api"@,
                OnboardingLaneKind::LocalRuntime => "local_runtime"@,
                OnboardingLaneKind::DelegatedAgent => "delegated_agent"@,
            },
        ),
        opt_string_view(final(setup).selected_backend_id) == opt_string_view(
            descriptor.backend_id,
        ),
        opt_string_view(final(setup).selected_lane_detail) == Some(descriptor.detail@),
        opt_string_view(final(setup).selected_lane_compatibility_note) == opt_string_view(
            descriptor.compatibility_note,
        ),
        opt_string_view(final(setup).selected_access_mode) == opt_str_view(access_mode),
        final(setup).selected_primary_model is None,
        final(setup).selected_primary_model_source is None,
        final(setup).updated_at@ == now@,
        same_identity(*old(setup), *final(setup)),
        same_progress(*old(setup), *final(setup)),
        final(setup).bootstrap_outcomes == old(setup).bootstrap_outcomes,
{
    setup.selected_provider = Some(descriptor.provider_id.clone());
    setup.selected_lane_id = Some(descriptor.lane_id.clone());
    setup.selected_lane_label = Some(descriptor.label.clone());
    setup.selected_lane_kind = Some(owned(lane_kind_id(&descriptor.kind)));
    setup.selected_backend_id = opt_clone(&descriptor.backend_id);
    setup.selected_lane_detail = Some(descriptor.detail.clone());
    setup.selected_lane_compatibility_note = opt_clone(&descriptor.compatibility_note);
    setup.selected_access_mode = crate::text::opt_owned(access_mode);
    setup.selected_primary_model = None;
    setup.selected_primary_model_source = None;
    setup.updated_at = owned(now);
}

/// The verdict of one bootstrap check during onboarding.
#[derive(Debug, Clone)]
pub struct BootstrapAssessment {
    pub status: &'static str,
    pub detail: String,
    pub blocking: bool,
    pub issue_kind: Option<String>,
    pub verification_stage: Option<String>,
    pub suggested_action: Option<String>,
}

/// The first index at or after `i` of an outcome for `category` and `target`.
pub open spec fn first_outcome_from(
    s: Seq<SetupBootstrapOutcome>,
    category: Seq<char>,
    target: Seq<char>,
    i: int,
) -> Option<int>
    decreases s.len() - i,
{
    if i < 0 || i >= s.len() {
        None
    } else if s[i].category@ == category && s[i].target@ == target {
        Some(i)
    } else {
        first_outcome_from(s, category, target, i + 1)
    }
}

/// The first index of an outcome for `category` and `target`.
pub open spec fn first_outcome(
    s: Seq<SetupBootstrapOutcome>,
    category: Seq<char>,
    target: Seq<char>,
) -> Option<int> {
    first_outcome_from(s, category, target, 0)
}

/// The outcomes after recording `o`: it replaces the first entry for the same
/// category and target, or is appended when there is none.
pub open spec fn upsert_outcome(
    s: Seq<SetupBootstrapOutcome>,
    o: SetupBootstrapOutcome,
) -> Seq<SetupBootstrapOutcome> {
    match first_outcome(s, o.category@, o.target@) {
        Some(k) => s.update(k, o),
        None => s.push(o),
    }
}

proof fn lemma_first_outcome_from(
    s: Seq<SetupBootstrapOutcome>,
    category: Seq<char>,
    target: Seq<char>,
    i: int,
)
    requires
        0 <= i,
    ensures
        first_outcome_from(s, category, target, i) matches Some(k) ==> i <= k < s.len()
            && s[k].category@ == category && s[k].target@ == target && forall|j: int|
            i <= j < k ==> !(s[j].category@ == category && s[j].target@ == target),
        first_outcome_from(s, category, target, i) is None ==> forall|j: int|
            i <= j < s.len() ==> !(s[j].category@ == category && s[j].target@ == target),
    decreases s.len() - i,
{
    if i < s.len() && !(s[i].category@ == category && s[i].target@ == target) {
        lemma_first_outcome_from(s, category, target, i + 1);
    }
}

/// The position of the first outcome for `category` and `target`.
fn find_outcome(outcomes: &Vec<SetupBootstrapOutcome>, category: &str, target: &str) -> (r: Option<
    usize,
>)
    ensures
        match r {
            Some(k) => first_outcome(outcomes@, category@, target@) == Some(k as int) && k
                < outcomes@.len(),
            None => first_outcome(outcomes@, category@, target@) is None,
        },
{
    let mut i: usize = 0;
    while i < outcomes.len()
        invariant
            i <= outcomes.len(),
            first_outcome(outcomes@, category@, target@) == first_outcome_from(
                outcomes@,
                category@,
                target@,
                i as int,
            ),
        decreases outcomes.len() - i,
    {
        if str_eq(outcomes[i].category.as_str(), category) && str_eq(
            outcomes[i].target.as_str(),
            target,
        ) {
            return Some(i);
        }
        i = i + 1;
    }
    None
}

/// The outcome recorded for `category` and `target`, if any.
pub fn bootstrap_outcome_for<'a>(
    setup: &'a SetupState,
    category: &str,
    target: &str,
) -> (r: Option<&'a SetupBootstrapOutcome>)
    ensures
        r is Some <==> first_outcome(setup.bootstrap_outcomes@, category@, target@) is Some,
        r matches Some(o) ==> *o == setup.bootstrap_outcomes@[first_outcome(
            setup.bootstrap_outcomes@,
            category@,
            target@,
        ).unwrap()],
{
    match find_outcome(&setup.bootstrap_outcomes, category, target) {
        Some(k) => Some(&setup.bootstrap_outcomes[k]),
        None => None,
    }
}

/// The outcome built from a status report and optional assessment metadata.
pub open spec fn outcome_fits(
    o: SetupBootstrapOutcome,
    category: Seq<char>,
    target: Seq<char>,
    status: Seq<char>,
    detail: Seq<char>,
    metadata: Option<BootstrapAssessment>,
    now: Seq<char>,
) -> bool {
    &&& o.category@ == category
    &&& o.target@ == target
    &&& o.status@ == status
    &&& o.detail@ == detail
    &&& opt_string_view(o.issue_kind) == match metadata {
        Some(m) => opt_string_view(m.issue_kind),
        None => None,
    }
    &&& opt_string_view(o.verification_stage) == match metadata {
        Some(m) => opt_string_view(m.verification_stage),
        None => None,
    }
    &&& opt_string_view(o.suggested_action) == match metadata {
        Some(m) => opt_string_view(m.suggested_action),
        None => None,
    }
    &&& o.updated_at@ == now
}

/// Records the outcome of bootstrapping `target` in `category`, replacing an
/// earlier outcome for the same pair; the assessment, when given, supplies
/// the issue kind, verification stage and suggested action.
pub fn record_bootstrap_outcome_with_metadata(
    setup: &mut SetupState,
    category: &str,
    target: &str,
    status: &str,
    detail: &str,
    metadata: Option<&BootstrapAssessment>,
    now: &str,
)
    ensures
        ({
            let old_outcomes = old(setup).bootstrap_outcomes@;
            let p = match first_outcome(old_outcomes, category@, target@) {
                Some(k) => k,
                None => old_outcomes.len() as int,
            };
            &&& 0 <= p < final(setup).bootstrap_outcomes@.len()
            &&& outcome_fits(
                final(setup).bootstrap_outcomes@[p],
                category@,
                target@,
                status@,
                detail@,
                match metadata {
                    Some(m) => Some(*m),
                    None => None,
                },
                now@,
            )
            &&& final(setup).bootstrap_outcomes@ == upsert_outcome(
                old_outcomes,
                final(setup).bootstrap_outcomes@[p],
            )
        }),
        final(setup).updated_at@ == now@,
        same_identity(*old(setup), *final(setup)),
        same_selection(*old(setup), *final(setup)),
        same_progress(*old(setup), *final(setup)),
{
    let outcome = SetupBootstrapOutcome {
        category: owned(category),
        target: owned(target),
        status: owned(status),
        detail: owned(detail),
        issue_kind: match metadata {
            Some(m) => opt_clone(&m.issue_kind),
            None => None,
        },
        verification_stage: match metadata {
            Some(m) => opt_clone(&m.verification_stage),
            None => None,
        },
        suggested_action: match metadata {
            Some(m) => opt_clone(&m.suggested_action),
            None => None,
        },
        updated_at: owned(now),
    };
    let ghost o = outcome;
    match find_outcome(&setup.bootstrap_outcomes, category, target) {
        Some(k) => {
            setup.bootstrap_outcomes.set(k, outcome);
        },
        None => {
            setup.bootstrap_outcomes.push(outcome);
        },
    }
    setup.updated_at = owned(now);
}

/// Records an outcome without assessment metadata.
pub fn record_bootstrap_outcome(
    setup: &mut SetupState,
    category: &str,
    target: &str,
    status: &str,
    detail: &str,
    now: &str,
)
    ensures
        ({
            let old_outcomes = old(setup).bootstrap_outcomes@;
            let p = match first_outcome(old_outcomes, category@, target@) {
                Some(k) => k,
                None => old_outcomes.len() as int,
            };
            &&& 0 <= p < final(setup).bootstrap_outcomes@.len()
            &&& outcome_fits(
                final(setup).bootstrap_outcomes@[p],
                category@,
                target@,
                status@,
                detail@,
                None,
                now@,
            )
            &&& final(setup).bootstrap_outcomes@ == upsert_outcome(
                old_outcomes,
                final(setup).bootstrap_outcomes@[p],
            )
        }),
        final(setup).updated_at@ == now@,
        same_identity(*old(setup), *final(setup)),
        same_selection(*old(setup), *final(setup)),
        same_progress(*old(setup), *final(setup)),
{
    record_bootstrap_outcome_with_metadata(setup, category, target, status, detail, None, now);
}

/// After an outcome is recorded, looking up its category and target gives
/// it back, and every other category/target pair finds what it found before.
pub proof fn law_record_then_lookup(
    s: Seq<SetupBootstrapOutcome>,
    o: SetupBootstrapOutcome,
    category: Seq<char>,
    target: Seq<char>,
)
    ensures
        first_outcome(upsert_outcome(s, o), o.category@, o.target@) matches Some(k) && upsert_outcome(
            s,
            o,
        )[k] == o,
        !(category == o.category@ && target == o.target@) ==> match first_outcome(
            s,
            category,
            target,
        ) {
            Some(k) => first_outcome(upsert_outcome(s, o), category, target) == Some(k) && upsert_outcome(
                s,
                o,
            )[k] == s[k],
            None => first_outcome(upsert_outcome(s, o), category, target) is None,
        },
{
    let u = upsert_outcome(s, o);
    lemma_first_outcome_from(s, o.category@, o.target@, 0);
    lemma_first_outcome_from(s, category, target, 0);
    lemma_first_outcome_from(u, o.category@, o.target@, 0);
    lemma_first_outcome_from(u, category, target, 0);
    match first_outcome(s, o.category@, o.target@) {
        Some(p) => {
            assert(u[p] == o);
            match first_outcome(u, o.category@, o.target@) {
                Some(k) => {
                    if k < p {
                        assert(u[k] == s[k]);
                    } else if k > p {
                        assert(u[p] == o);
                    }
                },
                None => {
                    assert(u[p] == o);
                },
            }
        },
        None => {
            let p = s.len() as int;
            assert(u[p] == o);
            match first_outcome(u, o.category@, o.target@) {
                Some(k) => {
                    if k < p {
                        assert(u[k] == s[k]);
                    }
                },
                None => {
                    assert(u[p] == o);
                },
            }
        },
    }
    if !(category == o.category@ && target == o.target@) {
        match first_outcome(s, category, target) {
            Some(k) => {
                assert(u[k] == s[k]);
                match first_outcome(u, category, target) {
                    Some(j) => {
                        if j < k {
                            assert(u[j] == s[j] || u[j] == o);
                        } else if j > k {
                            assert(u[k] == s[k]);
                        }
                    },
                    None => {
                        assert(u[k] == s[k]);
                    },
                }
            },
            None => {
                match first_outcome(u, category, target) {
                    Some(j) => {
                        assert(u[j] == s[j] || u[j] == o);
                    },
                    None => {},
                }
            },
        }
    }
}

/// Prepares the setup state for a repair run over `steps`: the selected
/// steps become exactly `steps`, their earlier completion is forgotten,
/// blockers are cleared, and a missing deployment mode or path is taken
/// from the stored product-mode manifest.
pub fn prepare_setup_state_for_repair(
    setup: &mut SetupState,
    steps: &Vec<OnboardingStep>,
    product_mode: Option<&SelfHostedProductManifest>,
    now: &str,
)
    ensures
        final(setup).workspace_action@ == "repair_existing"@,
        final(setup).status@ == "in_progress"@,
        final(setup).completed_at is None,
        strs(final(setup).selected_steps@) == steps@.map_values(
            |s: OnboardingStep| step_id_spec(s),
        ),
        strs(final(setup).completed_steps@) == strs(old(setup).completed_steps@).filter(
            not_in(steps@.map_values(|s: OnboardingStep| step_id_spec(s))),
        ),
        final(setup).blockers@.len() == 0,
        opt_string_view(final(setup).deployment_mode) == match old(setup).deployment_mode {
            Some(m) => Some(m@),
            None => match product_mode {
                Some(pm) => Some(pm.profile.mode@),
                None => None,
            },
        },
        opt_string_view(final(setup).deployment_path) == match old(setup).deployment_path {
            Some(p) => Some(p@),
            None => match product_mode {
                Some(pm) => Some(pm.profile.onboarding_path@),
                None => None,
            },
        },
        opt_string_view(final(setup).current_step) == if steps@.len() > 0 {
            Some(step_id_spec(steps@[0]))
        } else {
            None::<Seq<char>>
        },
        opt_string_view(final(setup).next_action) == if steps@.len() > 0 {
            Some(step_next_action_spec(*old(setup), steps@[0]))
        } else {
            None::<Seq<char>>
        },
        final(setup).updated_at@ == now@,
        final(setup).started_at == old(setup).started_at,
        final(setup).remote_connectivity_profile == old(setup).remote_connectivity_profile,
        final(setup).setup_path == old(setup).setup_path,
        same_selection(*old(setup), *final(setup)),
        final(setup).bootstrap_outcomes == old(setup).bootstrap_outcomes,
{
    let ids = step_ids(steps);
    setup.workspace_action = owned("repair_existing");
    setup.status = owned("in_progress");
    setup.completed_at = None;
    setup.completed_steps = retain_not_in(&setup.completed_steps, &ids);
    setup.selected_steps = ids;
    setup.blockers = Vec::new();
    if setup.deployment_mode.is_none() {
        setup.deployment_mode = match product_mode {
            Some(pm) => Some(pm.profile.mode.clone()),
            None => None,
        };
    }
    if setup.deployment_path.is_none() {
        setup.deployment_path = match product_mode {
            Some(pm) => Some(pm.profile.onboarding_path.clone()),
            None => None,
        };
    }
    if steps.len() > 0 {
        let first = steps[0];
        setup.current_step = Some(owned(first.id()));
        let next = step_next_action(setup, &first);
        setup.next_action = Some(next);
    } else {
        setup.current_step = None;
        setup.next_action = None;
    }
    setup.updated_at = owned(now);
}

/// The assessment of the saved execution mode `rt` against the deployment path.
pub open spec fn execution_mode_assessment_fits(
    a: BootstrapAssessment,
    rt: Seq<char>,
    execution_mode: Seq<char>,
    d: SelfHostedModeDescriptor,
) -> bool {
    &&& a.issue_kind is None
    &&& a.verification_stage is None
    &&& a.suggested_action is None
    &&& if rt == d.recommended_runtime_mode@ {
        a.status@ == "ready"@ && !a.blocking && a.detail@ == "Execution mode `"@ + rt
            + "` matches the recommended runtime shape for the "@ + d.label@
            + " deployment path."@
    } else if rt == execution_mode {
        a.status@ == "warning"@ && !a.blocking && a.detail@ == "Execution mode `"@ + rt
            + "` was saved successfully, but the "@ + d.label@ + " deployment path recommends `"@
            + d.recommended_runtime_mode@ + "` as the initial runtime shape."@
    } else {
        a.status@ == "blocked"@ && a.blocking && a.detail@
            == "Control-plane runtime registry saved `"@ + rt + "` instead of the selected `"@
            + execution_mode + "` mode."@
    }
}

/// The deployment mode assumed when none is given.
pub open spec fn deployment_mode_or_solo(m: Option<Seq<char>>) -> Seq<char> {
    match m {
        Some(v) => v,
        None => MODE_SOLO@,
    }
}

/// Checks the execution mode saved in the control registry (`runtime_mode`,
/// `None` when the registry has no runtime entry) against the mode chosen
/// during setup and the runtime shape that the deployment path recommends.
pub fn validate_execution_mode_bootstrap(
    runtime_mode: Option<&str>,
    execution_mode: &str,
    deployment_mode: Option<&str>,
) -> (r: Result<BootstrapAssessment, String>)
    ensures
        runtime_mode is None ==> (r matches Ok(a) && a.status@ == "blocked"@ && a.blocking
            && a.detail@ == "Control-plane runtime registry was not written during setup."@
            && a.issue_kind is None && a.verification_stage is None && a.suggested_action is None),
        runtime_mode is Some ==> (r is Ok <==> is_supported_mode(
            normalized_mode(deployment_mode_or_solo(opt_str_view(deployment_mode))),
        )),
        r matches Err(e) ==> e@ == crate::self_hosted::unsupported_mode_message(
            deployment_mode_or_solo(opt_str_view(deployment_mode)),
        ),
        runtime_mode is Some ==> (r matches Ok(a) ==> exists|d: SelfHostedModeDescriptor|
            descriptor_fits(
                d,
                normalized_mode(deployment_mode_or_solo(opt_str_view(deployment_mode))),
            ) && execution_mode_assessment_fits(
                a,
                runtime_mode.unwrap()@,
                execution_mode@,
                d,
            )),
{
    let rt = match runtime_mode {
        Some(m) => m,
        None => {
            return Ok(
                BootstrapAssessment {
                    status: "blocked",
                    detail: owned("Control-plane runtime registry was not written during setup."),
                    blocking: true,
                    issue_kind: None,
                    verification_stage: None,
                    suggested_action: None,
                },
            );
        },
    };
    let mode = match deployment_mode {
        Some(m) => m,
        None => MODE_SOLO,
    };
    let d = descriptor_for(mode)?;
    let a = if str_eq(rt, d.recommended_runtime_mode) {
        BootstrapAssessment {
            status: "ready",
            detail: concat5(
                "Execution mode `",
                rt,
                "` matches the recommended runtime shape for the ",
                d.label,
                " deployment path.",
            ),
            blocking: false,
            issue_kind: None,
            verification_stage: None,
            suggested_action: None,
        }
    } else if str_eq(rt, execution_mode) {
        let head = concat5(
            "Execution mode `",
            rt,
            "` was saved successfully, but the ",
            d.label,
            " deployment path recommends `",
        );
        let detail = concat3(head.as_str(), d.recommended_runtime_mode, "` as the initial runtime shape.");
        BootstrapAssessment {
            status: "warning",
            detail,
            blocking: false,
            issue_kind: None,
            verification_stage: None,
            suggested_action: None,
        }
    } else {
        BootstrapAssessment {
            status: "blocked",
            detail: concat5(
                "Control-plane runtime registry saved `",
                rt,
                "` instead of the selected `",
                execution_mode,
                "` mode.",
            ),
            blocking: true,
            issue_kind: None,
            verification_stage: None,
            suggested_action: None,
        }
    };
    assert(execution_mode_assessment_fits(a, rt@, execution_mode@, d));
    Ok(a)
}

/// A model name that is not blank.
pub open spec fn nonblank() -> spec_fn(Seq<char>) -> bool {
    |x: Seq<char>| trim_seq(x).len() > 0
}

/// A name other than `rec`.
pub open spec fn other_than(rec: Seq<char>) -> spec_fn(Seq<char>) -> bool {
    |x: Seq<char>| x != rec
}

/// The shortlist drawn from the sorted, distinct candidates `sd`: the
/// recommended model first when it is a candidate, then the other
/// candidates in order, at most 25 in all.
pub open spec fn shortlist_of(rec: Seq<char>, sd: Seq<Seq<char>>) -> Seq<Seq<char>> {
    let head: Seq<Seq<char>> = if rec.len() > 0 && sd.contains(rec) {
        seq![rec]
    } else {
        seq![]
    };
    let all = head + sd.filter(other_than(rec));
    if all.len() > 25 {
        all.take(25)
    } else {
        all
    }
}

/// Keeps the names that are not blank.
fn drop_blank(v: &Vec<String>) -> (r: Vec<String>)
    ensures
        strs(r@) == strs(v@).filter(nonblank()),
{
    let mut out: Vec<String> = Vec::new();
    let mut i: usize = 0;
    while i < v.len()
        invariant
            i <= v.len(),
            strs(out@) == strs(v@.subrange(0, i as int)).filter(nonblank()),
        decreases v.len() - i,
    {
        let x = &v[i];
        assert(strs(v@.subrange(0, i + 1)) =~= strs(v@.subrange(0, i as int)).push(x@));
        proof {
            strs(v@.subrange(0, i as int)).lemma_filter_push(x@, nonblank());
        }
        if !is_blank(x.as_str()) {
            out.push(x.clone());
            assert(strs(out@) =~= strs(v@.subrange(0, i + 1)).filter(nonblank()));
        }
        i = i + 1;
    }
    assert(v@.subrange(0, v.len() as int) =~= v@);
    out
}

proof fn lemma_take_filter_split(s: Seq<Seq<char>>, i: int, p: spec_fn(Seq<char>) -> bool)
    requires
        0 <= i <= s.len(),
    ensures
        s.filter(p) == s.take(i).filter(p) + s.skip(i).filter(p),
{
    assert(s =~= s.take(i) + s.skip(i));
    Seq::filter_distributes_over_add(s.take(i), s.skip(i), p);
}

/// The models offered when choosing a primary model: the discovered names
/// that are not blank, sorted and without repeats, with the recommended
/// model moved first when it was discovered, capped at 25.
pub fn build_model_shortlist(recommended: &str, discovered: Vec<String>) -> (r: Vec<String>)
    ensures
        exists|sd: Seq<Seq<char>>|
            sorted_strict(sd) && sd.to_set() == strs(discovered@).filter(nonblank()).to_set()
                && strs(r@) == shortlist_of(recommended@, sd),
{
    let kept = drop_blank(&discovered);
    let sorted = sort_dedup(kept);
    let ghost sd = strs(sorted@);
    let ghost rec = recommended@;
    let ghost p = other_than(rec);
    let mut shortlist: Vec<String> = Vec::new();
    let with_head = recommended.unicode_len() > 0 && crate::text::vec_contains_str(&sorted, recommended);
    if with_head {
        shortlist.push(owned(recommended));
    }
    let ghost head: Seq<Seq<char>> = if with_head {
        seq![rec]
    } else {
        seq![]
    };
    assert(strs(shortlist@) =~= head);
    let mut i: usize = 0;
    assert(sd.take(0).filter(p) =~= seq![]) by {
        reveal(Seq::filter);
    }
    assert(strs(shortlist@) =~= head + sd.take(0).filter(p));
    let mut full = false;
    while i < sorted.len()
        invariant_except_break
            sd == strs(sorted@),
            sorted_strict(sd),
            rec == recommended@,
            p == other_than(rec),
            head == (if with_head { seq![rec] } else { Seq::<Seq<char>>::empty() }),
            !full,
            i <= sorted.len(),
            strs(shortlist@) == head + sd.take(i as int).filter(p),
            shortlist@.len() < 25,
        ensures
            full ==> strs(shortlist@) == head + sd.take(i as int).filter(p) && shortlist@.len() == 25
                && i <= sorted.len(),
            !full ==> i == sorted.len() && strs(shortlist@) == head + sd.take(i as int).filter(p)
                && shortlist@.len() < 25,
        decreases sorted.len() - i,
    {
        let model = &sorted[i];
        let ghost before = sd.take(i as int);
        assert(sd.take(i + 1) =~= before.push(model@));
        proof {
            before.lemma_filter_push(model@, p);
        }
        if crate::text::str_eq(model.as_str(), recommended) {
            assert(!p(model@));
            assert(sd.take(i + 1).filter(p) == before.filter(p));
            i = i + 1;
            continue;
        }
        assert(p(model@));
        let seen = crate::text::vec_contains_str(&shortlist, model.as_str());
        if seen {
            proof {
                let hs = strs(shortlist@);
                let t = before.filter(p);
                assert(hs == head + t);
                let k = choose|k: int| 0 <= k < hs.len() && hs[k] == model@;
                if k < head.len() {
                    assert(hs[k] == head[k]);
                    assert(head[k] == rec);
                    assert(false);
                } else {
                    assert(hs[k] == t[k - head.len()]);
                    assert(t.contains(model@));
                    before.lemma_filter_contains_rev(p, model@);
                    let j = choose|j: int| 0 <= j < before.len() && before[j] == model@;
                    assert(before[j] == sd[j]);
                    assert(lex_lt(sd[j], sd[i as int]));
                    assert(false);
                }
            }
            i = i + 1;
            continue;
        }
        let ghost prev = strs(shortlist@);
        shortlist.push(model.clone());
        assert(strs(shortlist@) =~= prev.push(model@));
        assert(sd.take(i + 1).filter(p) == before.filter(p).push(model@));
        i = i + 1;
        if shortlist.len() >= 25 {
            full = true;
            break;
        }
    }
    proof {
        lemma_take_filter_split(sd, i as int, p);
        let tf = sd.take(i as int).filter(p);
        let rest = sd.skip(i as int).filter(p);
        let all = head + sd.filter(p);
        assert(all =~= (head + tf) + rest);
        assert(with_head == (rec.len() > 0 && sd.contains(rec)));
        if full {
            assert(all.take(25) =~= head + tf);
            if all.len() == 25 {
                assert(all =~= head + tf);
            }
        } else {
            assert(sd.skip(i as int) =~= seq![]);
            assert(rest =~= seq![]) by {
                reveal(Seq::filter);
            }
            assert(all =~= head + tf);
        }
        assert(strs(shortlist@) == shortlist_of(rec, sd));
    }
    shortlist
}


// ---------------------------------------------------------------------
// Live provider verification

/// The phrases that show a local runtime could not be reached.
pub open spec fn unreachable_text(lower_issue: Seq<char>) -> bool {
    has_sub(lower_issue, "failed to reach"@) || has_sub(lower_issue, "connection refused"@) || has_sub(
        lower_issue,
        "tcp connect"@,
    ) || has_sub(lower_issue, "timed out"@)
}

/// The issue kind onboarding reports for a provider that failed its probe:
/// a local Ollama runtime that is not reachable is `local_runtime_missing`;
/// otherwise the probe's own kind, `probe_failed` when it gave none.
pub open spec fn provider_issue_kind(
    provider: Seq<char>,
    access_mode: Option<Seq<char>>,
    e: RuntimeHealthProviderEntry,
) -> Seq<char> {
    let raw = crate::text::lower_seq(
        match opt_string_view(e.issue) {
            Some(i) => i,
            None => seq![],
        },
    );
    let kind = opt_string_view(e.issue_kind);
    if provider == "ollama"@ && access_mode == Some("local_runtime"@) && (kind == Some("probe_failed"@) || kind
        == Some("provider_unavailable"@)) && unreachable_text(raw) {
        "local_runtime_missing"@
    } else {
        match kind {
            Some(k) => k,
            None => "probe_failed"@,
        }
    }
}

/// The issue kind onboarding reports for a provider that failed its probe.
pub fn onboarding_provider_issue_kind(
    provider_name: &str,
    access_mode: Option<&str>,
    entry: &RuntimeHealthProviderEntry,
) -> (r: String)
    ensures
        r@ == provider_issue_kind(provider_name@, opt_str_view(access_mode), *entry),
{
    let raw_issue = match &entry.issue {
        Some(i) => crate::text::to_ascii_lowercase(i.as_str()),
        None => String::new(),
    };
    proof {
        assert(crate::text::lower_seq(Seq::<char>::empty()) =~= Seq::<char>::empty());
    }
    let local = match access_mode {
        Some(m) => str_eq(m, "local_runtime"),
        None => false,
    };
    let probe_kind = match &entry.issue_kind {
        Some(k) => str_eq(k.as_str(), "probe_failed") || str_eq(k.as_str(), "provider_unavailable"),
        None => false,
    };
    let r = raw_issue.as_str();
    if str_eq(provider_name, "ollama") && local && probe_kind && (contains(r, "failed to reach") || contains(
        r,
        "connection refused",
    ) || contains(r, "tcp connect") || contains(r, "timed out")) {
        return owned("local_runtime_missing");
    }
    match &entry.issue_kind {
        Some(k) => k.clone(),
        None => owned("probe_failed"),
    }
}

/// The probe's message, or a stand-in when it gave none.
pub open spec fn raw_issue_text(e: RuntimeHealthProviderEntry) -> Seq<char> {
    match opt_string_view(e.issue) {
        Some(i) => i,
        None => "health probe failed"@,
    }
}

/// The sentence that explains a failed verification.
pub open spec fn verification_detail(provider: Seq<char>, kind: Seq<char>, e: RuntimeHealthProviderEntry) -> Seq<char> {
    let raw = raw_issue_text(e);
    if kind == "auth"@ {
        "Provider `"@ + provider + "` rejected live verification due to authentication or access: "@ + raw
    } else if kind == "local_runtime_missing"@ {
        "Local runtime for `"@ + provider + "` is not reachable during live verification: "@ + raw
    } else if kind == "model_unavailable"@ {
        "Configured model `"@ + e.model@ + "` is not available during live verification for provider `"@ + provider
            + "`: "@ + raw
    } else if kind == "billing"@ {
        "Provider `"@ + provider + "` blocked live verification because billing or quota is not available: "@ + raw
    } else if kind == "rate_limited"@ {
        "Provider `"@ + provider + "` is rate-limited, so onboarding cannot verify readiness yet: "@ + raw
    } else if kind == "provider_unavailable"@ {
        "Provider `"@ + provider + "` could not be reached during live verification: "@ + raw
    } else if kind == "not_configured"@ {
        "Provider `"@ + provider
            + "` is selected but the required credential or runtime configuration is missing: "@ + raw
    } else {
        "Provider `"@ + provider + "` failed live verification: "@ + raw
    }
}

fn concat4(a: &str, b: &str, c: &str, d: &str) -> (r: String)
    ensures
        r@ == a@ + b@ + c@ + d@,
{
    let x = concat3(a, b, c);
    concat2(x.as_str(), d)
}

/// The sentence that explains a failed verification.
pub fn provider_verification_detail(provider_name: &str, issue_kind: &str, entry: &RuntimeHealthProviderEntry) -> (r:
    String)
    ensures
        r@ == verification_detail(provider_name@, issue_kind@, *entry),
{
    let raw_issue = match &entry.issue {
        Some(i) => i.clone(),
        None => owned("health probe failed"),
    };
    let raw = raw_issue.as_str();
    let p = provider_name;
    if str_eq(issue_kind, "auth") {
        concat4("Provider `", p, "` rejected live verification due to authentication or access: ", raw)
    } else if str_eq(issue_kind, "local_runtime_missing") {
        concat4("Local runtime for `", p, "` is not reachable during live verification: ", raw)
    } else if str_eq(issue_kind, "model_unavailable") {
        let head = concat3(
            "Configured model `",
            entry.model.as_str(),
            "` is not available during live verification for provider `",
        );
        concat4(head.as_str(), p, "`: ", raw)
    } else if str_eq(issue_kind, "billing") {
        concat4("Provider `", p, "` blocked live verification because billing or quota is not available: ", raw)
    } else if str_eq(issue_kind, "rate_limited") {
        concat4("Provider `", p, "` is rate-limited, so onboarding cannot verify readiness yet: ", raw)
    } else if str_eq(issue_kind, "provider_unavailable") {
        concat4("Provider `", p, "` could not be reached during live verification: ", raw)
    } else if str_eq(issue_kind, "not_configured") {
        concat4(
            "Provider `",
            p,
            "` is selected but the required credential or runtime configuration is missing: ",
            raw,
        )
    } else {
        concat4("Provider `", p, "` failed live verification: ", raw)
    }
}

/// What the operator should do after a failed verification.
pub open spec fn verification_next_action(provider: Seq<char>, kind: Seq<char>) -> Seq<char> {
    if kind == "auth"@ {
        "Review the `"@ + provider + "` credential or account access, then rerun onboarding."@
    } else if kind == "local_runtime_missing"@ {
        "Start the local runtime, confirm it is reachable, then rerun onboarding."@
    } else if kind == "model_unavailable"@ {
        "Choose or pull a model that `"@ + provider + "` exposes, then rerun onboarding."@
    } else if kind == "billing"@ {
        "Resolve billing or quota for `"@ + provider + "`, then rerun onboarding."@
    } else if kind == "rate_limited"@ {
        "Wait for `"@ + provider + "` rate limits to reset or switch provider path, then rerun onboarding."@
    } else if kind == "provider_unavailable"@ {
        "Check provider reachability for `"@ + provider + "`, then rerun onboarding."@
    } else if kind == "not_configured"@ {
        "Configure the required `"@ + provider + "` credential or runtime, then rerun onboarding."@
    } else {
        "Review the `"@ + provider + "` verification failure and rerun onboarding."@
    }
}

/// What the operator should do after a failed verification.
pub fn provider_verification_next_action(provider_name: &str, issue_kind: &str) -> (r: String)
    ensures
        r@ == verification_next_action(provider_name@, issue_kind@),
{
    let p = provider_name;
    if str_eq(issue_kind, "auth") {
        concat3("Review the `", p, "` credential or account access, then rerun onboarding.")
    } else if str_eq(issue_kind, "local_runtime_missing") {
        owned("Start the local runtime, confirm it is reachable, then rerun onboarding.")
    } else if str_eq(issue_kind, "model_unavailable") {
        concat3("Choose or pull a model that `", p, "` exposes, then rerun onboarding.")
    } else if str_eq(issue_kind, "billing") {
        concat3("Resolve billing or quota for `", p, "`, then rerun onboarding.")
    } else if str_eq(issue_kind, "rate_limited") {
        concat3("Wait for `", p, "` rate limits to reset or switch provider path, then rerun onboarding.")
    } else if str_eq(issue_kind, "provider_unavailable") {
        concat3("Check provider reachability for `", p, "`, then rerun onboarding.")
    } else if str_eq(issue_kind, "not_configured") {
        concat3("Configure the required `", p, "` credential or runtime, then rerun onboarding.")
    } else {
        concat3("Review the `", p, "` verification failure and rerun onboarding.")
    }
}

/// What a live verification of `provider` concludes from the entries of a
/// fresh health scan.
pub open spec fn provider_assessment_fits(
    a: BootstrapAssessment,
    provider: Seq<char>,
    access_mode: Option<Seq<char>>,
    allow_model_unavailable: bool,
    entries: Seq<RuntimeHealthProviderEntry>,
) -> bool {
    &&& opt_string_view(a.verification_stage) == Some("provider_connection"@)
    &&& match entry_for(entries, provider) {
        None => {
            &&& a.status@ == "blocked"@
            &&& a.blocking
            &&& a.detail@ == "Runtime health did not return a `"@ + provider + "` provider entry after setup."@
            &&& opt_string_view(a.issue_kind) == Some("provider_unavailable"@)
            &&& opt_string_view(a.suggested_action) == Some(
                "Review the `"@ + provider + "` runtime configuration, then rerun onboarding."@,
            )
        },
        Some(e) => if e.healthy {
            &&& a.status@ == "ready"@
            &&& !a.blocking
            &&& a.detail@ == "Live verification succeeded for provider `"@ + provider + "` with model `"@ + e.model@
                + "`."@
            &&& a.issue_kind is None
            &&& a.suggested_action is None
        } else {
            let kind = provider_issue_kind(provider, access_mode, e);
            let allow = kind == "model_unavailable"@ && allow_model_unavailable;
            &&& a.status@ == (if allow { "warning"@ } else { "blocked"@ })
            &&& a.blocking == !allow
            &&& a.detail@ == verification_detail(provider, kind, e)
            &&& opt_string_view(a.issue_kind) == Some(kind)
            &&& opt_string_view(a.suggested_action) == Some(verification_next_action(provider, kind))
        },
    }
}

/// What a live verification of `provider` concludes from a fresh health
/// scan's provider entries: blocked when the scan lacks the provider, ready
/// when it is healthy, and otherwise blocked with the classified issue (a
/// warning for an unavailable model when that is allowed).
pub fn validate_provider_bootstrap(
    providers: &Vec<RuntimeHealthProviderEntry>,
    provider_name: &str,
    access_mode: Option<&str>,
    allow_model_unavailable: bool,
) -> (r: BootstrapAssessment)
    ensures
        provider_assessment_fits(r, provider_name@, opt_str_view(access_mode), allow_model_unavailable, providers@),
{
    match crate::runtime::find_provider_entry(providers, provider_name) {
        None => BootstrapAssessment {
            status: "blocked",
            detail: concat3("Runtime health did not return a `", provider_name, "` provider entry after setup."),
            blocking: true,
            issue_kind: Some(owned("provider_unavailable")),
            verification_stage: Some(owned("provider_connection")),
            suggested_action: Some(
                concat3("Review the `", provider_name, "` runtime configuration, then rerun onboarding."),
            ),
        },
        Some(entry) => {
            if entry.healthy {
                BootstrapAssessment {
                    status: "ready",
                    detail: concat5(
                        "Live verification succeeded for provider `",
                        provider_name,
                        "` with model `",
                        entry.model.as_str(),
                        "`.",
                    ),
                    blocking: false,
                    issue_kind: None,
                    verification_stage: Some(owned("provider_connection")),
                    suggested_action: None,
                }
            } else {
                let issue_kind = onboarding_provider_issue_kind(provider_name, access_mode, entry);
                let allow_warning = str_eq(issue_kind.as_str(), "model_unavailable") && allow_model_unavailable;
                let detail = provider_verification_detail(provider_name, issue_kind.as_str(), entry);
                let action = provider_verification_next_action(provider_name, issue_kind.as_str());
                BootstrapAssessment {
                    status: if allow_warning {
                        "warning"
                    } else {
                        "blocked"
                    },
                    detail,
                    blocking: !allow_warning,
                    issue_kind: Some(issue_kind),
                    verification_stage: Some(owned("provider_connection")),
                    suggested_action: Some(action),
                }
            }
        },
    }
}

/// What onboarding concludes of the runtime's provider lane from a fresh
/// health scan.
pub open spec fn lane_assessment_fits(
    a: BootstrapAssessment,
    degraded: bool,
    recommendations: Seq<Seq<char>>,
    warnings: Seq<Seq<char>>,
    deployment_mode: Option<Seq<char>>,
) -> bool {
    &&& !a.blocking
    &&& a.issue_kind is None
    &&& a.verification_stage is None
    &&& a.suggested_action is None
    &&& if degraded {
        &&& a.status@ == "warning"@
        &&& a.detail@ == (if recommendations.len() > 0 {
            recommendations[0]
        } else if warnings.len() > 0 {
            warnings[0]
        } else {
            "No healthy control-plane fallback is available yet for the current runtime lane."@
        })
    } else {
        &&& a.status@ == "ready"@
        &&& a.detail@ == "Runtime provider lane is healthy for the current `"@ + deployment_mode_or_solo(
            deployment_mode,
        ) + "` deployment path."@
    }
}

/// What onboarding concludes of the runtime's provider lane: a warning
/// with the scan's first recommendation (or warning) when the control
/// plane is degraded, ready otherwise.
pub fn runtime_lane_assessment(
    degraded_control_plane_mode: bool,
    failover_recommendations: &Vec<String>,
    operator_warnings: &Vec<String>,
    deployment_mode: Option<&str>,
) -> (r: BootstrapAssessment)
    ensures
        lane_assessment_fits(
            r,
            degraded_control_plane_mode,
            strs(failover_recommendations@),
            strs(operator_warnings@),
            opt_str_view(deployment_mode),
        ),
{
    if degraded_control_plane_mode {
        let detail = if failover_recommendations.len() > 0 {
            failover_recommendations[0].clone()
        } else if operator_warnings.len() > 0 {
            operator_warnings[0].clone()
        } else {
            owned("No healthy control-plane fallback is available yet for the current runtime lane.")
        };
        return BootstrapAssessment {
            status: "warning",
            detail,
            blocking: false,
            issue_kind: None,
            verification_stage: None,
            suggested_action: None,
        };
    }
    let mode_label = match deployment_mode {
        Some(m) => m,
        None => MODE_SOLO,
    };
    BootstrapAssessment {
        status: "ready",
        detail: concat3("Runtime provider lane is healthy for the current `", mode_label, "` deployment path."),
        blocking: false,
        issue_kind: None,
        verification_stage: None,
        suggested_action: None,
    }
}

/// The position of the first probe of `platform` at or after `i`.
pub open spec fn first_probe_from(entries: Seq<ChannelProbeEntry>, platform: Seq<char>, i: int) -> Option<int>
    decreases entries.len() - i,
{
    if i < 0 || i >= entries.len() {
        None
    } else if entries[i].platform@ == platform {
        Some(i)
    } else {
        first_probe_from(entries, platform, i + 1)
    }
}

/// What onboarding concludes of a channel after its setup, from the probe
/// of that channel: ready, a blocking warning, or blocked (also when no
/// probe of it ran).
pub open spec fn channel_assessment_fits(
    a: BootstrapAssessment,
    platform: Seq<char>,
    entries: Seq<ChannelProbeEntry>,
) -> bool {
    &&& a.issue_kind is None
    &&& a.verification_stage is None
    &&& a.suggested_action is None
    &&& match first_probe_from(entries, platform, 0) {
        None => {
            &&& a.status@ == "blocked"@
            &&& a.blocking
            &&& a.detail@ == "No `"@ + platform + "` channel probe result was produced after setup."@
        },
        Some(k) => {
            &&& a.detail@ == entries[k].detail@
            &&& match entries[k].status {
                ChannelProbeStatus::Ready => a.status@ == "ready"@ && !a.blocking,
                ChannelProbeStatus::Warning => a.status@ == "warning"@ && a.blocking,
                ChannelProbeStatus::Failed => a.status@ == "blocked"@ && a.blocking,
            }
        },
    }
}

/// The channel's verdict after setup, from the channel probes that ran.
pub fn channel_bootstrap_assessment(platform: &str, entries: &Vec<ChannelProbeEntry>) -> (r: BootstrapAssessment)
    ensures
        channel_assessment_fits(r, platform@, entries@),
{
    let mut i: usize = 0;
    while i < entries.len()
        invariant
            i <= entries@.len(),
            first_probe_from(entries@, platform@, 0) == first_probe_from(entries@, platform@, i as int),
        decreases entries@.len() - i,
    {
        if str_eq(entries[i].platform.as_str(), platform) {
            let entry = &entries[i];
            let (status, blocking) = match entry.status {
                ChannelProbeStatus::Ready => ("ready", false),
                ChannelProbeStatus::Warning => ("warning", true),
                ChannelProbeStatus::Failed => ("blocked", true),
            };
            return BootstrapAssessment {
                status,
                detail: entry.detail.clone(),
                blocking,
                issue_kind: None,
                verification_stage: None,
                suggested_action: None,
            };
        }
        i = i + 1;
    }
    BootstrapAssessment {
        status: "blocked",
        detail: concat3("No `", platform, "` channel probe result was produced after setup."),
        blocking: true,
        issue_kind: None,
        verification_stage: None,
        suggested_action: None,
    }
}

/// The contract of a delegated agent backend, as discovery reports it.
pub struct DelegatedBackendContract {
    pub execution_eligible: bool,
    pub readiness_reason: Option<String>,
}

/// What onboarding concludes of the delegated backend `backend_id` from
/// its contract and the number of models it exposes.
pub open spec fn delegated_assessment_fits(
    a: BootstrapAssessment,
    backend_id: Seq<char>,
    contract: DelegatedBackendContract,
    discovered_models: nat,
) -> bool {
    &&& opt_string_view(a.verification_stage) == Some("delegated_backend_contract"@)
    &&& if contract.execution_eligible {
        &&& a.status@ == "ready"@
        &&& !a.blocking
        &&& a.issue_kind is None
        &&& a.suggested_action is None
        &&& a.detail@ == (if discovered_models > 0 {
            "Delegated backend `"@ + backend_id + "` is installed, signed in, and currently exposes "@
                + crate::text::decimal(discovered_models) + " discoverable model option(s)."@
        } else {
            "Delegated backend `"@ + backend_id
                + "` is installed, signed in, and ready for bounded routed execution once operator policy allows it."@
        })
    } else {
        &&& a.status@ == "blocked"@
        &&& a.blocking
        &&& opt_string_view(a.issue_kind) == Some("delegated_backend_unavailable"@)
        &&& a.detail@ == match contract.readiness_reason {
            Some(reason) => reason@,
            None => "Delegated backend `"@ + backend_id + "` is visible, but not ready yet."@,
        }
        &&& opt_string_view(a.suggested_action) == Some(
            "Sign in to `"@ + backend_id + "` locally or review its documented CLI surface, then rerun onboarding."@,
        )
    }
}

/// How onboarding judges a delegated backend: an error without a
/// contract for it, else ready or blocked.
pub fn delegated_backend_assessment(
    backend_id: &str,
    contract: Option<DelegatedBackendContract>,
    discovered_models: usize,
) -> (r: Result<BootstrapAssessment, String>)
    ensures
        contract is None ==> (r matches Err(e) && e@ == "delegated backend `"@ + backend_id@ + "` is not discoverable"@),
        contract matches Some(c) ==> (r matches Ok(a) && delegated_assessment_fits(
            a,
            backend_id@,
            c,
            discovered_models as nat,
        )),
{
    let contract = match contract {
        None => {
            return Err(concat3("delegated backend `", backend_id, "` is not discoverable"));
        },
        Some(c) => c,
    };
    let stage = owned("delegated_backend_contract");
    if contract.execution_eligible {
        let detail = if discovered_models > 0 {
            let head = concat3("Delegated backend `", backend_id, "` is installed, signed in, and currently exposes ");
            concat3(head.as_str(), crate::text::usize_text(discovered_models).as_str(), " discoverable model option(s).")
        } else {
            concat3(
                "Delegated backend `",
                backend_id,
                "` is installed, signed in, and ready for bounded routed execution once operator policy allows it.",
            )
        };
        return Ok(
            BootstrapAssessment {
                status: "ready",
                detail,
                blocking: false,
                issue_kind: None,
                verification_stage: Some(stage),
                suggested_action: None,
            },
        );
    }
    let detail = match contract.readiness_reason {
        Some(reason) => reason,
        None => concat3("Delegated backend `", backend_id, "` is visible, but not ready yet."),
    };
    Ok(
        BootstrapAssessment {
            status: "blocked",
            detail,
            blocking: true,
            issue_kind: Some(owned("delegated_backend_unavailable")),
            verification_stage: Some(stage),
            suggested_action: Some(
                concat3(
                    "Sign in to `",
                    backend_id,
                    "` locally or review its documented CLI surface, then rerun onboarding.",
                ),
            ),
        },
    )
}

/// Whether a direct provider lane can be used, with its label.
pub struct DirectProviderLaneStatus {
    pub provider_id: String,
    pub available: bool,
    pub status_label: String,
}

/// The direct provider lanes in catalog order, each labelled by whether
/// its key is set (the local runtime: whether it was detected).
pub open spec fn direct_lanes(
    anthropic: bool,
    openai: bool,
    openrouter: bool,
    gemini: bool,
    ollama: bool,
) -> Seq<(Seq<char>, bool, Seq<char>)> {
    seq![
        ("anthropic"@, anthropic, if anthropic { "configured"@ } else { "not configured"@ }),
        ("openai"@, openai, if openai { "configured"@ } else { "not configured"@ }),
        ("openrouter"@, openrouter, if openrouter { "configured"@ } else { "not configured"@ }),
        ("gemini"@, gemini, if gemini { "configured"@ } else { "not configured"@ }),
        ("ollama"@, ollama, if ollama { "available"@ } else { "not detected"@ }),
    ]
}

fn lane(provider_id: &str, available: bool, yes: &str, no: &str) -> (r: DirectProviderLaneStatus)
    ensures
        r.provider_id@ == provider_id@,
        r.available == available,
        r.status_label@ == (if available { yes@ } else { no@ }),
{
    DirectProviderLaneStatus {
        provider_id: owned(provider_id),
        available,
        status_label: if available { owned(yes) } else { owned(no) },
    }
}

/// The direct provider lanes, from which keys are set: the Gemini lane
/// takes `GEMINI_API_KEY` or `GOOGLE_API_KEY`.
pub fn direct_provider_lane_statuses(
    anthropic_key_set: bool,
    openai_key_set: bool,
    openrouter_key_set: bool,
    gemini_key_set: bool,
    google_key_set: bool,
    ollama_available: bool,
) -> (r: Vec<DirectProviderLaneStatus>)
    ensures
        r@.map_values(|l: DirectProviderLaneStatus| (l.provider_id@, l.available, l.status_label@)) == direct_lanes(
            anthropic_key_set,
            openai_key_set,
            openrouter_key_set,
            gemini_key_set || google_key_set,
            ollama_available,
        ),
{
    let mut v: Vec<DirectProviderLaneStatus> = Vec::new();
    v.push(lane("anthropic", anthropic_key_set, "configured", "not configured"));
    v.push(lane("openai", openai_key_set, "configured", "not configured"));
    v.push(lane("openrouter", openrouter_key_set, "configured", "not configured"));
    v.push(lane("gemini", gemini_key_set || google_key_set, "configured", "not configured"));
    v.push(lane("ollama", ollama_available, "available", "not detected"));
    assert(v@.map_values(|l: DirectProviderLaneStatus| (l.provider_id@, l.available, l.status_label@)) =~= direct_lanes(
        anthropic_key_set,
        openai_key_set,
        openrouter_key_set,
        gemini_key_set || google_key_set,
        ollama_available,
    ));
    v
}

/// The models configured per provider, as onboarding reads them.
pub struct ConfiguredModels {
    pub anthropic: String,
    pub openai: String,
    pub codex: String,
    pub openrouter: String,
    pub gemini: String,
    pub ollama: String,
}

/// The model onboarding recommends for `provider`: the configured one;
/// `auto` for Cursor; none for other providers.
pub open spec fn configured_model_spec(m: ConfiguredModels, provider: Seq<char>) -> Seq<char> {
    if provider == "anthropic"@ {
        m.anthropic@
    } else if provider == "openai"@ {
        m.openai@
    } else if provider == "codex"@ {
        m.codex@
    } else if provider == "openrouter"@ {
        m.openrouter@
    } else if provider == "gemini"@ {
        m.gemini@
    } else if provider == "ollama"@ {
        m.ollama@
    } else if provider == "cursor"@ {
        "auto"@
    } else {
        seq![]
    }
}

/// The model onboarding recommends for `provider`.
pub fn configured_model_for_provider(m: &ConfiguredModels, provider: &str) -> (r: String)
    ensures
        r@ == configured_model_spec(*m, provider@),
{
    if str_eq(provider, "anthropic") {
        m.anthropic.clone()
    } else if str_eq(provider, "openai") {
        m.openai.clone()
    } else if str_eq(provider, "codex") {
        m.codex.clone()
    } else if str_eq(provider, "openrouter") {
        m.openrouter.clone()
    } else if str_eq(provider, "gemini") {
        m.gemini.clone()
    } else if str_eq(provider, "ollama") {
        m.ollama.clone()
    } else if str_eq(provider, "cursor") {
        owned("auto")
    } else {
        String::new()
    }
}

/// The label of a shortlisted model: the recommended one says so.
pub open spec fn model_label(model: Seq<char>, recommended: Seq<char>) -> Seq<char> {
    if model == recommended {
        model + " - Recommended"@
    } else {
        model
    }
}

/// The first position of `x` in `s`, if any.
pub open spec fn first_position(s: Seq<Seq<char>>, x: Seq<char>) -> Option<int>
    decreases s.len(),
{
    if s.len() == 0 {
        None
    } else {
        match first_position(s.drop_last(), x) {
            Some(k) => Some(k),
            None => if s.last() == x {
                Some(s.len() - 1)
            } else {
                None
            },
        }
    }
}

/// The menu of a model shortlist: one label per model, then a manual
/// entry; the recommended model is selected first when it is listed,
/// else the first.
pub fn model_menu(shortlist: &Vec<String>, recommended: &str) -> (r: (Vec<String>, usize))
    ensures
        strs(r.0@) == Seq::new(shortlist@.len(), |i: int| model_label(shortlist@[i]@, recommended@)).push(
            "Enter a model manually"@,
        ),
        r.1 == match first_position(strs(shortlist@), recommended@) {
            Some(k) => k,
            None => 0,
        },
{
    let mut labels: Vec<String> = Vec::new();
    let mut default: Option<usize> = None;
    let mut i: usize = 0;
    while i < shortlist.len()
        invariant
            i <= shortlist@.len(),
            strs(labels@) == Seq::new(i as nat, |j: int| model_label(shortlist@[j]@, recommended@)),
            default matches Some(k) ==> first_position(strs(shortlist@.take(i as int)), recommended@) == Some(
                k as int,
            ) && k < i,
            default is None ==> first_position(strs(shortlist@.take(i as int)), recommended@) is None,
        decreases shortlist@.len() - i,
    {
        let m = shortlist[i].as_str();
        let ghost before = strs(labels@);
        assert(strs(shortlist@.take(i + 1)).drop_last() =~= strs(shortlist@.take(i as int)));
        assert(m@ == shortlist@[i as int]@);
        assert(strs(shortlist@.take(i + 1)).last() == m@);
        if str_eq(m, recommended) {
            labels.push(concat2(m, " - Recommended"));
            if default.is_none() {
                default = Some(i);
            }
        } else {
            labels.push(owned(m));
        }
        assert(strs(labels@).last() == model_label(shortlist@[i as int]@, recommended@));
        assert(strs(labels@).drop_last() =~= before);
        assert forall|j: int| 0 <= j < i + 1 implies #[trigger] strs(labels@)[j] == model_label(
            shortlist@[j]@,
            recommended@,
        ) by {
            if j < i {
                assert(strs(labels@)[j] == strs(labels@).drop_last()[j]);
            }
        }
        assert(strs(labels@) =~= Seq::new((i + 1) as nat, |j: int| model_label(shortlist@[j]@, recommended@)));
        i = i + 1;
    }
    let ghost before = strs(labels@);
    labels.push(owned("Enter a model manually"));
    assert(strs(labels@) =~= before.push("Enter a model manually"@));
    assert(shortlist@.take(shortlist@.len() as int) =~= shortlist@);
    let d = match default {
        Some(k) => k,
        None => 0,
    };
    (labels, d)
}

/// The model picked from the menu: a shortlisted one, or `None` for the
/// manual entry.
pub fn shortlist_choice(shortlist: &Vec<String>, selection: usize) -> (r: Option<String>)
    ensures
        selection < shortlist@.len() ==> (r matches Some(m) && m@ == shortlist@[selection as int]@),
        selection >= shortlist@.len() ==> r is None,
{
    if selection < shortlist.len() {
        Some(shortlist[selection].clone())
    } else {
        None
    }
}

/// Where a model typed by hand came from: the recommended model kept, or
/// a manual entry.
pub fn manual_model_source(selected: &str, recommended: &str) -> (r: &'static str)
    ensures
        selected@ == recommended@ ==> r@ == "recommended_fallback"@,
        selected@ != recommended@ ==> r@ == "manual_entry"@,
{
    if str_eq(selected, recommended) {
        "recommended_fallback"
    } else {
        "manual_entry"
    }
}

/// `value`, or `default` when unset.
pub open spec fn or_default(value: Option<String>, default: Seq<char>) -> Seq<char> {
    match value {
        Some(v) => v@,
        None => default,
    }
}

/// A line that is present only when `value` is set.
pub open spec fn optional_line(label: Seq<char>, value: Option<String>) -> Seq<Seq<char>> {
    match value {
        Some(v) => seq![label + v@],
        None => seq![],
    }
}

/// The first lines of the completion summary.
pub open spec fn summary_head(s: OnboardingState) -> Seq<Seq<char>> {
    seq![
        "  Deployment Mode: "@ + or_default(s.deployment_mode, "solo (default)"@),
        "  Deployment Path: "@ + or_default(s.deployment_path, "solo_starter"@),
        "  Path: "@ + or_default(s.profile, "Standard"@),
        "  Gateway: "@ + (if s.gateway_configured { "✓ Configured"@ } else { "✗ Not configured"@ }),
        "  Channels: "@ + (if s.channels_configured@.len() == 0 {
            "None"@
        } else {
            crate::runtime::joined(strs(s.channels_configured@), ", "@)
        }),
        "  Model: "@ + (if s.model_configured { "✓ Configured"@ } else { "✗ Not configured"@ }),
    ]
}

/// The lines of the choices that were made, when they were.
pub open spec fn summary_choices(s: OnboardingState) -> Seq<Seq<char>> {
    optional_line("  Provider: "@, s.preferred_provider) + optional_line("  Selected Lane: "@, s.selected_lane_label)
        + optional_line("  Access Mode: "@, s.selected_access_mode) + optional_line(
        "  Primary Model: "@,
        s.selected_primary_model,
    )
}

/// The last lines of the completion summary.
pub open spec fn summary_tail(s: OnboardingState) -> Seq<Seq<char>> {
    seq![
        "  Runtime Mode: "@ + or_default(s.execution_mode, "solo_claw (default)"@),
        "  Skills: "@ + (if s.skills_installed@.len() == 0 {
            "None"@
        } else {
            crate::text::decimal(s.skills_installed@.len()) + " installed"@
        }),
        "  System Service: "@ + (if s.daemon_installed { "✓ Installed"@ } else { "✗ Not installed"@ }),
    ]
}

/// The configuration summary shown when onboarding completes.
pub open spec fn completion_summary(s: OnboardingState) -> Seq<Seq<char>> {
    summary_head(s) + summary_choices(s) + summary_tail(s)
}

fn labelled_or(label: &str, value: &Option<String>, default: &str) -> (r: String)
    ensures
        r@ == label@ + or_default(*value, default@),
{
    match value {
        Some(v) => concat2(label, v.as_str()),
        None => concat2(label, default),
    }
}

fn push_optional(lines: &mut Vec<String>, label: &str, value: &Option<String>)
    ensures
        strs(final(lines)@) == strs(old(lines)@) + optional_line(label@, *value),
{
    let ghost before = strs(lines@);
    match value {
        Some(v) => {
            lines.push(concat2(label, v.as_str()));
            assert(strs(lines@) =~= before + seq![label@ + v@]);
        },
        None => {
            assert(strs(lines@) =~= before + Seq::<Seq<char>>::empty());
        },
    }
}

/// The configuration summary of a completed onboarding, line by line.
pub fn completion_summary_lines(s: &OnboardingState) -> (r: Vec<String>)
    ensures
        strs(r@) == completion_summary(*s),
{
    let mut lines: Vec<String> = Vec::new();
    lines.push(labelled_or("  Deployment Mode: ", &s.deployment_mode, "solo (default)"));
    lines.push(labelled_or("  Deployment Path: ", &s.deployment_path, "solo_starter"));
    lines.push(labelled_or("  Path: ", &s.profile, "Standard"));
    lines.push(concat2("  Gateway: ", if s.gateway_configured { "✓ Configured" } else { "✗ Not configured" }));
    let channels = if s.channels_configured.len() == 0 {
        owned("None")
    } else {
        crate::runtime::join_strings(&s.channels_configured, ", ")
    };
    lines.push(concat2("  Channels: ", channels.as_str()));
    lines.push(concat2("  Model: ", if s.model_configured { "✓ Configured" } else { "✗ Not configured" }));
    assert(strs(lines@) =~= summary_head(*s));
    let ghost head = strs(lines@);
    push_optional(&mut lines, "  Provider: ", &s.preferred_provider);
    push_optional(&mut lines, "  Selected Lane: ", &s.selected_lane_label);
    push_optional(&mut lines, "  Access Mode: ", &s.selected_access_mode);
    push_optional(&mut lines, "  Primary Model: ", &s.selected_primary_model);
    assert(strs(lines@) =~= summary_head(*s) + summary_choices(*s));
    let ghost mid = strs(lines@);
    lines.push(labelled_or("  Runtime Mode: ", &s.execution_mode, "solo_claw (default)"));
    let skills = if s.skills_installed.len() == 0 {
        owned("None")
    } else {
        concat2(crate::text::usize_text(s.skills_installed.len()).as_str(), " installed")
    };
    lines.push(concat2("  Skills: ", skills.as_str()));
    lines.push(concat2("  System Service: ", if s.daemon_installed { "✓ Installed" } else { "✗ Not installed" }));
    assert(strs(lines@) =~= mid + summary_tail(*s));
    lines
}

// ---------------------------------------------------------------------
// Workspace status

/// The onboarding-relevant state of a workspace.
pub struct OnboardingWorkspaceStatus {
    pub workspace_root: String,
    pub env_present: bool,
    pub control_registry_present: bool,
    pub channels_registry_present: bool,
    pub product_mode_present: bool,
    pub product_mode_label: Option<String>,
    pub setup_state_present: bool,
    pub setup_status: Option<String>,
    pub setup_next_action: Option<String>,
    pub user_service_present: bool,
}

/// The setup-state file of a workspace.
pub fn setup_state_path(workspace_root: &str) -> (r: String)
    ensures
        r@ == crate::paths::join_path(crate::paths::control_root_spec(workspace_root@), "setup-state.json"@),
{
    let root = crate::paths::control_root_for(workspace_root);
    crate::paths::join(root.as_str(), "setup-state.json")
}

/// The onboarding-relevant state of a workspace, from what was found in it:
/// the `.env` file, the control and channel registries, the product-mode
/// manifest, the setup state and the user service.
pub fn workspace_status(
    workspace_root: &str,
    env_present: bool,
    control_registry_present: bool,
    channels_registry_present: bool,
    product_mode: Option<&SelfHostedProductManifest>,
    setup_state: Option<&SetupStateManifest>,
    user_service_present: bool,
) -> (r: OnboardingWorkspaceStatus)
    ensures
        r.workspace_root@ == workspace_root@,
        r.env_present == env_present,
        r.control_registry_present == control_registry_present,
        r.channels_registry_present == channels_registry_present,
        r.product_mode_present == (product_mode is Some),
        product_mode is None ==> r.product_mode_label is None,
        product_mode matches Some(m) ==> (is_supported_mode(normalized_mode(m.profile.mode@)) <==> r.product_mode_label is Some),
        product_mode matches Some(m) ==> (r.product_mode_label matches Some(l) ==> exists|d: SelfHostedModeDescriptor|
            descriptor_fits(d, normalized_mode(m.profile.mode@)) && l@ == d.label@),
        r.setup_state_present == (setup_state is Some),
        setup_state is None ==> r.setup_status is None && r.setup_next_action is None,
        setup_state matches Some(s) ==> (opt_string_view(r.setup_status) == Some(s.setup.status@)
            && opt_string_view(r.setup_next_action) == opt_string_view(s.setup.next_action)),
        r.user_service_present == user_service_present,
{
    let product_mode_label = match product_mode {
        Some(m) => match descriptor_for(m.profile.mode.as_str()) {
            Ok(d) => Some(owned(d.label)),
            Err(_) => None,
        },
        None => None,
    };
    let (setup_status, setup_next_action) = match setup_state {
        Some(s) => (Some(s.setup.status.clone()), opt_clone(&s.setup.next_action)),
        None => (None, None),
    };
    OnboardingWorkspaceStatus {
        workspace_root: owned(workspace_root),
        env_present,
        control_registry_present,
        channels_registry_present,
        product_mode_present: product_mode.is_some(),
        product_mode_label,
        setup_state_present: setup_state.is_some(),
        setup_status,
        setup_next_action,
        user_service_present,
    }
}

/// A fresh gateway signing secret: 32 random bytes in standard base64.
pub fn generate_jwt_secret() -> (r: String)
    ensures
        exists|b: Seq<u8>| b.len() == 32 && r@ == crate::crypto::b64(b),
{
    let bytes = crate::crypto::random_bytes(32);
    crate::crypto::b64_encode(bytes.as_slice())
}


proof fn lemma_filter_sorted(s: Seq<Seq<char>>, p: spec_fn(Seq<char>) -> bool)
    requires
        sorted_strict(s),
    ensures
        sorted_strict(s.filter(p)),
    decreases s.len(),
{
    reveal(Seq::filter);
    if s.len() > 0 {
        let init = s.drop_last();
        assert(sorted_strict(init)) by {
            assert forall|i: int, j: int| 0 <= i < j < init.len() implies lex_lt(#[trigger] init[i], #[trigger] init[j]) by {
                assert(init[i] == s[i] && init[j] == s[j]);
            }
        }
        lemma_filter_sorted(init, p);
        if p(s.last()) {
            let f = init.filter(p);
            assert forall|i: int, j: int| 0 <= i < j < f.push(s.last()).len() implies lex_lt(
                #[trigger] f.push(s.last())[i],
                #[trigger] f.push(s.last())[j],
            ) by {
                if j == f.len() {
                    assert(f.push(s.last())[i] == f[i]);
                    assert(f.contains(f[i]));
                    init.lemma_filter_contains_rev(p, f[i]);
                    let k = choose|k: int| 0 <= k < init.len() && init[k] == f[i];
                    assert(s[k] == f[i]);
                    assert(lex_lt(s[k], s[s.len() - 1]));
                } else {
                    assert(f.push(s.last())[i] == f[i] && f.push(s.last())[j] == f[j]);
                }
            }
        }
    }
}

/// The model shortlist holds at most 25 names, none twice, every one a
/// discovered model, and starts with the recommended model whenever that
/// model was discovered.
pub proof fn law_shortlist_shape(rec: Seq<char>, sd: Seq<Seq<char>>)
    requires
        sorted_strict(sd),
    ensures
        shortlist_of(rec, sd).len() <= 25,
        forall|i: int, j: int|
            0 <= i < j < shortlist_of(rec, sd).len() ==> #[trigger] shortlist_of(rec, sd)[i] != #[trigger] shortlist_of(
                rec,
                sd,
            )[j],
        forall|i: int| 0 <= i < shortlist_of(rec, sd).len() ==> sd.contains(#[trigger] shortlist_of(rec, sd)[i]),
        rec.len() > 0 && sd.contains(rec) ==> shortlist_of(rec, sd)[0] == rec,
{
    let p = other_than(rec);
    let f = sd.filter(p);
    lemma_filter_sorted(sd, p);
    sd.filter_lemma(p);
    let head: Seq<Seq<char>> = if rec.len() > 0 && sd.contains(rec) { seq![rec] } else { seq![] };
    let all = head + f;
    assert forall|i: int, j: int| 0 <= i < j < all.len() implies all[i] != all[j] by {
        if i < head.len() {
            assert(all[i] == rec);
            assert(all[j] == f[j - head.len()]);
            assert(p(f[j - head.len()]));
        } else {
            assert(all[i] == f[i - head.len()] && all[j] == f[j - head.len()]);
            assert(lex_lt(f[i - head.len()], f[j - head.len()]));
        }
    }
    assert forall|i: int| 0 <= i < all.len() implies sd.contains(#[trigger] all[i]) by {
        if i >= head.len() {
            assert(all[i] == f[i - head.len()]);
            assert(f.contains(f[i - head.len()]));
            sd.lemma_filter_contains_rev(p, f[i - head.len()]);
        }
    }
    let r = shortlist_of(rec, sd);
    assert(r == (if all.len() > 25 { all.take(25) } else { all }));
    assert forall|i: int| 0 <= i < r.len() implies r[i] == all[i] by {}
}


/// Onboarding resumes what it left part-way: a setup that was just
/// started, stopped at a blocked step, finalized with blockers or reopened
/// for repair is resumable; one finalized as ready is not.
pub proof fn law_resumable_states()
    ensures
        resumable_status("in_progress"@),
        resumable_status("blocked"@),
        !resumable_status("ready"@),
{
    reveal_strlit("ready");
    reveal_strlit("in_progress");
    reveal_strlit("blocked");
    assert("ready"@[0] != "in_progress"@[0]);
    assert("ready"@[0] != "blocked"@[0]);
}

/// Whether to offer launching the assistant after onboarding: only when the
/// health check passed, input comes from a terminal, and a provider is
/// resolved.
pub fn should_offer_assistant_launch(healthy: bool, stdin_is_terminal: bool, provider: Option<&str>) -> (r: bool)
    ensures
        r == (healthy && stdin_is_terminal && provider is Some),
{
    healthy && stdin_is_terminal && provider.is_some()
}

/// The connectivity profile as plain values.
pub open spec fn profile_view(p: RemoteConnectivityProfile) -> (Seq<char>, Seq<char>, Seq<Seq<char>>, Seq<char>) {
    (p.mode@, p.primary_path@, strs(p.fallback_paths@), p.detail@)
}

pub open spec fn opt_profile_view(o: Option<RemoteConnectivityProfile>) -> Option<(Seq<char>, Seq<char>, Seq<Seq<char>>, Seq<char>)> {
    match o {
        Some(p) => Some(profile_view(p)),
        None => None,
    }
}

fn copy_profile(o: &Option<RemoteConnectivityProfile>) -> (r: Option<RemoteConnectivityProfile>)
    ensures
        opt_profile_view(r) == opt_profile_view(*o),
{
    match o {
        Some(p) => Some(RemoteConnectivityProfile {
            mode: p.mode.clone(),
            primary_path: p.primary_path.clone(),
            fallback_paths: crate::text::clone_strings(&p.fallback_paths),
            detail: p.detail.clone(),
        }),
        None => None,
    }
}

/// Takes the choices a stored setup recorded into the wizard's state, to
/// resume or repair it: deployment, connectivity, depth, lane, access
/// mode, primary model and workspace action.
pub fn load_from_setup_state(state: &mut OnboardingState, setup: &SetupState)
    ensures
        opt_string_view(final(state).deployment_mode) == opt_string_view(setup.deployment_mode),
        opt_string_view(final(state).deployment_path) == opt_string_view(setup.deployment_path),
        opt_profile_view(final(state).remote_connectivity_profile) == opt_profile_view(setup.remote_connectivity_profile),
        opt_string_view(final(state).profile) == opt_string_view(setup.setup_path),
        opt_string_view(final(state).preferred_provider) == opt_string_view(setup.selected_provider),
        opt_string_view(final(state).selected_lane_id) == opt_string_view(setup.selected_lane_id),
        opt_string_view(final(state).selected_lane_label) == opt_string_view(setup.selected_lane_label),
        opt_string_view(final(state).selected_lane_kind) == opt_string_view(setup.selected_lane_kind),
        opt_string_view(final(state).selected_backend_id) == opt_string_view(setup.selected_backend_id),
        opt_string_view(final(state).selected_lane_detail) == opt_string_view(setup.selected_lane_detail),
        opt_string_view(final(state).selected_lane_compatibility_note) == opt_string_view(
            setup.selected_lane_compatibility_note,
        ),
        opt_string_view(final(state).selected_access_mode) == opt_string_view(setup.selected_access_mode),
        opt_string_view(final(state).selected_primary_model) == opt_string_view(setup.selected_primary_model),
        opt_string_view(final(state).selected_primary_model_source) == opt_string_view(
            setup.selected_primary_model_source,
        ),
        opt_string_view(final(state).workspace_action) == Some(setup.workspace_action@),
        final(state).gateway_configured == old(state).gateway_configured,
        final(state).model_configured == old(state).model_configured,
        final(state).channels_configured == old(state).channels_configured,
        final(state).daemon_installed == old(state).daemon_installed,
        final(state).skills_installed == old(state).skills_installed,
        final(state).execution_mode == old(state).execution_mode,
{
    state.deployment_mode = crate::text::opt_clone(&setup.deployment_mode);
    state.deployment_path = crate::text::opt_clone(&setup.deployment_path);
    state.remote_connectivity_profile = copy_profile(&setup.remote_connectivity_profile);
    state.profile = crate::text::opt_clone(&setup.setup_path);
    state.preferred_provider = crate::text::opt_clone(&setup.selected_provider);
    state.selected_lane_id = crate::text::opt_clone(&setup.selected_lane_id);
    state.selected_lane_label = crate::text::opt_clone(&setup.selected_lane_label);
    state.selected_lane_kind = crate::text::opt_clone(&setup.selected_lane_kind);
    state.selected_backend_id = crate::text::opt_clone(&setup.selected_backend_id);
    state.selected_lane_detail = crate::text::opt_clone(&setup.selected_lane_detail);
    state.selected_lane_compatibility_note = crate::text::opt_clone(&setup.selected_lane_compatibility_note);
    state.selected_access_mode = crate::text::opt_clone(&setup.selected_access_mode);
    state.selected_primary_model = crate::text::opt_clone(&setup.selected_primary_model);
    state.selected_primary_model_source = crate::text::opt_clone(&setup.selected_primary_model_source);
    state.workspace_action = Some(setup.workspace_action.clone());
}

} // verus!

//! Self-hosted product modes: descriptors, mode ranking, transition rules.

use vstd::prelude::*;
use vstd::string::*;

use crate::text::{
    concat3, is_blank, lower_seq, opt_str_view, opt_string_view, owned, str_eq, strs,
    to_ascii_lowercase, trim, trim_seq, trimmed_nonempty, trimmed_nonempty_spec,
};

verus! {

pub const MODE_SOLO: &'static str = "solo";

pub const MODE_TEAM: &'static str = "team";

pub const MODE_COMPANY: &'static str = "company";

pub const MODE_ENTERPRISE: &'static str = "enterprise";

/// The manifest format version written by this library.
pub const SELF_HOSTED_PRODUCT_VERSION: u32 = 1;

/// The manifest version a stored manifest without one is read as.
pub fn default_version() -> (r: u32)
    ensures
        r == SELF_HOSTED_PRODUCT_VERSION,
{
    SELF_HOSTED_PRODUCT_VERSION
}

/// What a stored profile without the `self_hosted` or `open_source` flag
/// is read as.
pub fn default_true() -> (r: bool)
    ensures
        r,
{
    true
}

/// Stored product-mode manifest.
#[derive(Debug, Clone)]
pub struct SelfHostedProductManifest {
    pub version: u32,
    pub profile: SelfHostedProductProfile,
}

/// The profile part of the product-mode manifest.
#[derive(Debug, Clone)]
pub struct SelfHostedProductProfile {
    pub mode: String,
    pub onboarding_path: String,
    pub self_hosted: bool,
    pub open_source: bool,
    pub note: Option<String>,
    pub updated_at: String,
}

/// A request to move the workspace to another product mode.
#[derive(Debug, Clone)]
pub struct SelfHostedProductTransitionRequest {
    pub target_mode: String,
    pub actor: String,
    pub reason: Option<String>,
    pub via: Option<String>,
}

/// The record of one product-mode transition.
#[derive(Debug, Clone)]
pub struct SelfHostedProductTransitionEvent {
    pub created_at: String,
    pub from_mode: String,
    pub to_mode: String,
    pub direction: String,
    pub actor: String,
    pub reason: Option<String>,
    pub via: String,
    pub warnings: Vec<String>,
}

/// The fixed description of one product mode.
#[derive(Debug, Clone)]
pub struct SelfHostedModeDescriptor {
    pub mode: &'static str,
    pub label: &'static str,
    pub onboarding_path: &'static str,
    pub operator_model: &'static str,
    pub recommended_runtime_mode: &'static str,
    pub multi_user: bool,
}

/// A mode name as the library normalizes it: trimmed, ASCII lower-cased.
pub open spec fn normalized_mode(mode: Seq<char>) -> Seq<char> {
    lower_seq(trim_seq(mode))
}

/// Whether `m` is one of the four supported product modes.
pub open spec fn is_supported_mode(m: Seq<char>) -> bool {
    m == MODE_SOLO@ || m == MODE_TEAM@ || m == MODE_COMPANY@ || m == MODE_ENTERPRISE@
}

/// The rank of a mode on the solo < team < company < enterprise scale.
pub open spec fn rank_of(m: Seq<char>) -> nat {
    if m == MODE_TEAM@ {
        1
    } else if m == MODE_COMPANY@ {
        2
    } else if m == MODE_ENTERPRISE@ {
        3
    } else {
        0
    }
}

/// The descriptor that belongs to the supported mode `m`.
pub open spec fn descriptor_fits(d: SelfHostedModeDescriptor, m: Seq<char>) -> bool {
    &&& d.mode@ == m
    &&& (m == MODE_SOLO@ ==> {
        &&& d.label@ == "Solo"@
        &&& d.onboarding_path@ == "solo_starter"@
        &&& d.operator_model@ == "One primary operator on one self-hosted workspace"@
        &&& d.recommended_runtime_mode@ == "solo_claw"@
        &&& !d.multi_user
    })
    &&& (m == MODE_TEAM@ ==> {
        &&& d.label@ == "Multi-User Team"@
        &&& d.onboarding_path@ == "shared_team_setup"@
        &&& d.operator_model@ == "A small team shares one self-hosted deployment"@
        &&& d.recommended_runtime_mode@ == "task_assigned"@
        &&& d.multi_user
    })
    &&& (m == MODE_COMPANY@ ==> {
        &&& d.label@ == "Company"@
        &&& d.onboarding_path@ == "company_ops_setup"@
        &&& d.operator_model@
            == "An operator-managed company deployment with stronger operational defaults"@
        &&& d.recommended_runtime_mode@ == "orchestrated"@
        &&& d.multi_user
    })
    &&& (m == MODE_ENTERPRISE@ ==> {
        &&& d.label@ == "Enterprise"@
        &&& d.onboarding_path@ == "enterprise_governed_setup"@
        &&& d.operator_model@
            == "A governed enterprise deployment with explicit access, policy, and audit expectations"@
        &&& d.recommended_runtime_mode@ == "orchestrated"@
        &&& d.multi_user
    })
}

/// The four mode names are pairwise distinct.
pub proof fn lemma_modes_distinct()
    ensures
        MODE_SOLO@ != MODE_TEAM@,
        MODE_SOLO@ != MODE_COMPANY@,
        MODE_SOLO@ != MODE_ENTERPRISE@,
        MODE_TEAM@ != MODE_COMPANY@,
        MODE_TEAM@ != MODE_ENTERPRISE@,
        MODE_COMPANY@ != MODE_ENTERPRISE@,
{
    reveal_strlit("solo");
    reveal_strlit("team");
    reveal_strlit("company");
    reveal_strlit("enterprise");
    assert(MODE_SOLO@[0] != MODE_TEAM@[0]);
    assert(MODE_SOLO@[0] != MODE_COMPANY@[0]);
    assert(MODE_SOLO@[0] != MODE_ENTERPRISE@[0]);
    assert(MODE_TEAM@[0] != MODE_COMPANY@[0]);
    assert(MODE_TEAM@[0] != MODE_ENTERPRISE@[0]);
    assert(MODE_COMPANY@[0] != MODE_ENTERPRISE@[0]);
}

/// The error text for an unsupported mode.
pub open spec fn unsupported_mode_message(mode: Seq<char>) -> Seq<char> {
    "unsupported product mode '"@ + mode
        + "'; expected one of: solo, team, company, enterprise"@
}

/// Trims and lower-cases a mode name, rejecting modes that are not supported.
pub fn normalize_mode(mode: &str) -> (r: Result<String, String>)
    ensures
        match r {
            Ok(m) => is_supported_mode(normalized_mode(mode@)) && m@ == normalized_mode(mode@),
            Err(e) => !is_supported_mode(normalized_mode(mode@)) && e@
                == unsupported_mode_message(mode@),
        },
{
    let trimmed = trim(mode);
    let normalized = to_ascii_lowercase(trimmed.as_str());
    if str_eq(normalized.as_str(), MODE_SOLO) || str_eq(normalized.as_str(), MODE_TEAM)
        || str_eq(normalized.as_str(), MODE_COMPANY) || str_eq(
        normalized.as_str(),
        MODE_ENTERPRISE,
    ) {
        Ok(normalized)
    } else {
        Err(concat3("unsupported product mode '", mode, "'; expected one of: solo, team, company, enterprise"))
    }
}

/// The descriptor of a product mode; unsupported modes are an error.
pub fn descriptor_for(mode: &str) -> (r: Result<SelfHostedModeDescriptor, String>)
    ensures
        match r {
            Ok(d) => is_supported_mode(normalized_mode(mode@)) && descriptor_fits(
                d,
                normalized_mode(mode@),
            ),
            Err(e) => !is_supported_mode(normalized_mode(mode@)) && e@
                == unsupported_mode_message(mode@),
        },
{
    let normalized = normalize_mode(mode)?;
    let m = normalized.as_str();
    proof {
        lemma_modes_distinct();
    }
    if str_eq(m, MODE_SOLO) {
        Ok(
            SelfHostedModeDescriptor {
                mode: MODE_SOLO,
                label: "Solo",
                onboarding_path: "solo_starter",
                operator_model: "One primary operator on one self-hosted workspace",
                recommended_runtime_mode: "solo_claw",
                multi_user: false,
            },
        )
    } else if str_eq(m, MODE_TEAM) {
        Ok(
            SelfHostedModeDescriptor {
                mode: MODE_TEAM,
                label: "Multi-User Team",
                onboarding_path: "shared_team_setup",
                operator_model: "A small team shares one self-hosted deployment",
                recommended_runtime_mode: "task_assigned",
                multi_user: true,
            },
        )
    } else if str_eq(m, MODE_COMPANY) {
        Ok(
            SelfHostedModeDescriptor {
                mode: MODE_COMPANY,
                label: "Company",
                onboarding_path: "company_ops_setup",
                operator_model: "An operator-managed company deployment with stronger operational defaults",
                recommended_runtime_mode: "orchestrated",
                multi_user: true,
            },
        )
    } else {
        Ok(
            SelfHostedModeDescriptor {
                mode: MODE_ENTERPRISE,
                label: "Enterprise",
                onboarding_path: "enterprise_governed_setup",
                operator_model: "A governed enterprise deployment with explicit access, policy, and audit expectations",
                recommended_runtime_mode: "orchestrated",
                multi_user: true,
            },
        )
    }
}

/// The solo descriptor, the default when no product mode is stored.
pub fn default_descriptor() -> (d: SelfHostedModeDescriptor)
    ensures
        descriptor_fits(d, MODE_SOLO@),
{
    proof {
        lemma_modes_distinct();
    }
    SelfHostedModeDescriptor {
        mode: MODE_SOLO,
        label: "Solo",
        onboarding_path: "solo_starter",
        operator_model: "One primary operator on one self-hosted workspace",
        recommended_runtime_mode: "solo_claw",
        multi_user: false,
    }
}

/// The rank of a mode name as stored (no normalization); unknown names rank 0.
pub fn mode_rank(mode: &str) -> (r: usize)
    ensures
        r == rank_of(mode@),
{
    if str_eq(mode, MODE_TEAM) {
        1
    } else if str_eq(mode, MODE_COMPANY) {
        2
    } else if str_eq(mode, MODE_ENTERPRISE) {
        3
    } else {
        0
    }
}

/// The direction word of a transition between two modes.
pub open spec fn direction_of(from: Seq<char>, to: Seq<char>) -> Seq<char> {
    if rank_of(to) > rank_of(from) {
        "upgrade"@
    } else {
        "downgrade"@
    }
}

/// `upgrade` when the target ranks above the current mode, else `downgrade`.
pub fn transition_direction(from_mode: &str, to_mode: &str) -> (r: &'static str)
    ensures
        r@ == direction_of(from_mode@, to_mode@),
{
    if mode_rank(to_mode) > mode_rank(from_mode) {
        "upgrade"
    } else {
        "downgrade"
    }
}

/// The warning text about a runtime mode other than `solo_claw` after a move to solo.
pub open spec fn solo_runtime_transition_warning(runtime_mode: Seq<char>) -> Seq<char> {
    "Runtime execution mode remains `"@ + runtime_mode
        + "` until you change it explicitly; solo mode recommends `solo_claw`."@
}

/// Whether the stored runtime registry names a mode other than `solo_claw`.
pub open spec fn runtime_not_solo(runtime_mode: Option<Seq<char>>) -> bool {
    match runtime_mode {
        Some(m) => m != "solo_claw"@,
        None => false,
    }
}

/// The warnings of a transition from `from` to `to`, in the order they are reported.
pub open spec fn transition_warnings_spec(
    from: Seq<char>,
    to: Seq<char>,
    access_present: bool,
    autonomy_present: bool,
    runtime_mode: Option<Seq<char>>,
) -> Seq<Seq<char>> {
    let w1: Seq<Seq<char>> = if to == MODE_ENTERPRISE@ && !access_present {
        seq![
            "Enterprise mode expects explicit access bootstrap; bootstrap enterprise access after the transition."@,
        ]
    } else {
        seq![]
    };
    let w2: Seq<Seq<char>> = if rank_of(to) < rank_of(from) && access_present {
        seq![
            "Enterprise access and governance data will be retained on disk until you remove or reconfigure it explicitly."@,
        ]
    } else {
        seq![]
    };
    let w3: Seq<Seq<char>> = if rank_of(to) < rank_of(from) && autonomy_present {
        seq![
            "Enterprise autonomy data will be retained on disk and should be reviewed after the downgrade."@,
        ]
    } else {
        seq![]
    };
    let w4: Seq<Seq<char>> = if to == MODE_SOLO@ && runtime_not_solo(runtime_mode) {
        seq![solo_runtime_transition_warning(runtime_mode.unwrap())]
    } else {
        seq![]
    };
    w1 + w2 + w3 + w4
}

/// Warnings for a transition, given what is stored in the workspace: whether
/// enterprise access and autonomy manifests exist, and the runtime mode of the
/// control registry when it could be read.
pub fn transition_warnings(
    from_mode: &str,
    to_mode: &str,
    access_present: bool,
    autonomy_present: bool,
    runtime_mode: Option<&str>,
) -> (r: Vec<String>)
    ensures
        strs(r@) == transition_warnings_spec(
            from_mode@,
            to_mode@,
            access_present,
            autonomy_present,
            opt_str_view(runtime_mode),
        ),
{
    let mut warnings: Vec<String> = Vec::new();
    let ghost from = from_mode@;
    let ghost to = to_mode@;
    if str_eq(to_mode, MODE_ENTERPRISE) && !access_present {
        warnings.push(owned("Enterprise mode expects explicit access bootstrap; bootstrap enterprise access after the transition."));
    }
    let ghost s1 = strs(warnings@);
    let downgrade = mode_rank(to_mode) < mode_rank(from_mode);
    if downgrade && access_present {
        warnings.push(owned("Enterprise access and governance data will be retained on disk until you remove or reconfigure it explicitly."));
    }
    let ghost s2 = strs(warnings@);
    if downgrade && autonomy_present {
        warnings.push(owned("Enterprise autonomy data will be retained on disk and should be reviewed after the downgrade."));
    }
    let ghost s3 = strs(warnings@);
    if str_eq(to_mode, MODE_SOLO) {
        if let Some(rt) = runtime_mode {
            if !str_eq(rt, "solo_claw") {
                warnings.push(concat3("Runtime execution mode remains `", rt, "` until you change it explicitly; solo mode recommends `solo_claw`."));
            }
        }
    }
    assert(strs(warnings@) =~= transition_warnings_spec(
        from,
        to,
        access_present,
        autonomy_present,
        opt_str_view(runtime_mode),
    ));
    warnings
}

/// The warning text about a runtime mode other than `solo_claw` while in solo mode.
pub open spec fn solo_runtime_current_warning(runtime_mode: Seq<char>) -> Seq<char> {
    "Runtime execution mode is still `"@ + runtime_mode
        + "`; solo product mode recommends `solo_claw`."@
}

/// The warnings that hold for the current mode, in the order they are reported.
pub open spec fn current_warnings_spec(
    mode: Seq<char>,
    access_present: bool,
    autonomy_present: bool,
    runtime_mode: Option<Seq<char>>,
) -> Seq<Seq<char>> {
    let w1: Seq<Seq<char>> = if mode != MODE_ENTERPRISE@ && access_present {
        seq![
            "Enterprise access data is still present on disk even though the current product mode is below enterprise."@,
        ]
    } else {
        seq![]
    };
    let w2: Seq<Seq<char>> = if mode != MODE_ENTERPRISE@ && autonomy_present {
        seq![
            "Enterprise full-autonomy data is still present on disk and should be reviewed after this downgrade."@,
        ]
    } else {
        seq![]
    };
    let w3: Seq<Seq<char>> = if mode == MODE_ENTERPRISE@ && !access_present {
        seq!["Enterprise mode is selected, but enterprise access is not bootstrapped yet."@]
    } else {
        seq![]
    };
    let w4: Seq<Seq<char>> = if mode == MODE_SOLO@ && runtime_not_solo(runtime_mode) {
        seq![solo_runtime_current_warning(runtime_mode.unwrap())]
    } else {
        seq![]
    };
    w1 + w2 + w3 + w4
}

/// Warnings about the current product mode, given what is stored in the workspace.
pub fn current_warnings(
    mode: &str,
    access_present: bool,
    autonomy_present: bool,
    runtime_mode: Option<&str>,
) -> (r: Vec<String>)
    ensures
        strs(r@) == current_warnings_spec(
            mode@,
            access_present,
            autonomy_present,
            opt_str_view(runtime_mode),
        ),
{
    let mut warnings: Vec<String> = Vec::new();
    let enterprise = str_eq(mode, MODE_ENTERPRISE);
    if !enterprise && access_present {
        warnings.push(owned("Enterprise access data is still present on disk even though the current product mode is below enterprise."));
    }
    if !enterprise && autonomy_present {
        warnings.push(owned("Enterprise full-autonomy data is still present on disk and should be reviewed after this downgrade."));
    }
    if enterprise && !access_present {
        warnings.push(owned("Enterprise mode is selected, but enterprise access is not bootstrapped yet."));
    }
    if str_eq(mode, MODE_SOLO) {
        if let Some(rt) = runtime_mode {
            if !str_eq(rt, "solo_claw") {
                warnings.push(concat3("Runtime execution mode is still `", rt, "`; solo product mode recommends `solo_claw`."));
            }
        }
    }
    assert(strs(warnings@) =~= current_warnings_spec(
        mode@,
        access_present,
        autonomy_present,
        opt_str_view(runtime_mode),
    ));
    warnings
}

/// The manifest that `configure_mode` writes for a supported mode.
pub open spec fn configured_manifest_fits(
    m: SelfHostedProductManifest,
    mode: Seq<char>,
    onboarding_path: Option<Seq<char>>,
    note: Option<Seq<char>>,
    updated_at: Seq<char>,
) -> bool {
    let n = normalized_mode(mode);
    &&& m.version == SELF_HOSTED_PRODUCT_VERSION
    &&& m.profile.mode@ == n
    &&& m.profile.onboarding_path@ == trim_seq(
        match onboarding_path {
            Some(p) => p,
            None => default_onboarding_path(n),
        },
    )
    &&& m.profile.self_hosted
    &&& m.profile.open_source
    &&& opt_string_view(m.profile.note) == trimmed_nonempty_spec(note)
    &&& m.profile.updated_at@ == updated_at
}

/// The onboarding path that the descriptor of a supported mode names.
pub open spec fn default_onboarding_path(m: Seq<char>) -> Seq<char> {
    if m == MODE_TEAM@ {
        "shared_team_setup"@
    } else if m == MODE_COMPANY@ {
        "company_ops_setup"@
    } else if m == MODE_ENTERPRISE@ {
        "enterprise_governed_setup"@
    } else {
        "solo_starter"@
    }
}

/// A descriptor that fits a mode names that mode's default onboarding path.
proof fn lemma_descriptor_path(d: SelfHostedModeDescriptor, m: Seq<char>)
    requires
        is_supported_mode(m),
        descriptor_fits(d, m),
    ensures
        d.onboarding_path@ == default_onboarding_path(m),
{
    lemma_modes_distinct();
}

/// The product-mode manifest for `mode`, stamped with `updated_at`.
/// An unsupported mode is an error.
pub fn configure_mode(
    mode: &str,
    onboarding_path: Option<&str>,
    note: Option<&str>,
    updated_at: &str,
) -> (r: Result<SelfHostedProductManifest, String>)
    ensures
        match r {
            Ok(m) => is_supported_mode(normalized_mode(mode@)) && configured_manifest_fits(
                m,
                mode@,
                opt_str_view(onboarding_path),
                opt_str_view(note),
                updated_at@,
            ),
            Err(e) => !is_supported_mode(normalized_mode(mode@)) && e@
                == unsupported_mode_message(mode@),
        },
{
    let descriptor = descriptor_for(mode)?;
    proof {
        lemma_descriptor_path(descriptor, normalized_mode(mode@));
    }
    let path = match onboarding_path {
        Some(p) => p,
        None => descriptor.onboarding_path,
    };
    Ok(
        SelfHostedProductManifest {
            version: SELF_HOSTED_PRODUCT_VERSION,
            profile: SelfHostedProductProfile {
                mode: owned(descriptor.mode),
                onboarding_path: trim(path),
                self_hosted: true,
                open_source: true,
                note: trimmed_nonempty(note),
                updated_at: owned(updated_at),
            },
        },
    )
}

/// The mode currently stored, or solo when no manifest exists.
pub open spec fn current_mode_of(current: Option<SelfHostedProductManifest>) -> Seq<char> {
    match current {
        Some(m) => m.profile.mode@,
        None => MODE_SOLO@,
    }
}

/// The error text for a transition to the mode already in use.
pub open spec fn already_in_mode_message(mode: Seq<char>) -> Seq<char> {
    "product mode is already `"@ + mode + "`"@
}

/// Decides a product-mode transition. `current` is the stored manifest, if
/// any; the flags and `runtime_mode` describe the workspace as
/// `transition_warnings` takes them; `now` stamps the new manifest and event.
/// Returns the manifest to store and the event to append.
pub fn transition_mode(
    request: &SelfHostedProductTransitionRequest,
    current: &Option<SelfHostedProductManifest>,
    access_present: bool,
    autonomy_present: bool,
    runtime_mode: Option<&str>,
    now: &str,
) -> (r: Result<(SelfHostedProductManifest, SelfHostedProductTransitionEvent), String>)
    ensures
        trim_seq(request.actor@).len() == 0 ==> r is Err && r->Err_0@
            == "transition actor must not be empty"@,
        trim_seq(request.actor@).len() > 0 && !is_supported_mode(
            normalized_mode(request.target_mode@),
        ) ==> r is Err && r->Err_0@ == unsupported_mode_message(request.target_mode@),
        trim_seq(request.actor@).len() > 0 && is_supported_mode(
            normalized_mode(request.target_mode@),
        ) && current_mode_of(*current) == normalized_mode(request.target_mode@) ==> r is Err
            && r->Err_0@ == already_in_mode_message(normalized_mode(request.target_mode@)),
        r is Ok <==> (trim_seq(request.actor@).len() > 0 && is_supported_mode(
            normalized_mode(request.target_mode@),
        ) && current_mode_of(*current) != normalized_mode(request.target_mode@)),
        r matches Ok((m, e)) ==> {
            let from = current_mode_of(*current);
            let to = normalized_mode(request.target_mode@);
            &&& configured_manifest_fits(
                m,
                to,
                Some(default_onboarding_path(to)),
                opt_string_view(request.reason),
                now@,
            )
            &&& e.created_at@ == now@
            &&& e.from_mode@ == from
            &&& e.to_mode@ == to
            &&& e.direction@ == direction_of(from, to)
            &&& e.actor@ == trim_seq(request.actor@)
            &&& opt_string_view(e.reason) == trimmed_nonempty_spec(opt_string_view(request.reason))
            &&& e.via@ == match trimmed_nonempty_spec(opt_string_view(request.via)) {
                Some(v) => v,
                None => "control_api"@,
            }
            &&& strs(e.warnings@) == transition_warnings_spec(
                from,
                to,
                access_present,
                autonomy_present,
                opt_str_view(runtime_mode),
            )
        },
{
    let actor = trim(request.actor.as_str());
    if actor.unicode_len() == 0 {
        return Err(owned("transition actor must not be empty"));
    }
    let current_mode: String = match current {
        Some(m) => m.profile.mode.clone(),
        None => owned(MODE_SOLO),
    };
    let target = descriptor_for(request.target_mode.as_str())?;
    proof {
        lemma_descriptor_path(target, normalized_mode(request.target_mode@));
    }
    if str_eq(current_mode.as_str(), target.mode) {
        return Err(concat3("product mode is already `", target.mode, "`"));
    }
    let warnings = transition_warnings(
        current_mode.as_str(),
        target.mode,
        access_present,
        autonomy_present,
        runtime_mode,
    );
    let reason = crate::text::opt_as_str(&request.reason);
    let manifest = configure_mode(target.mode, Some(target.onboarding_path), reason, now);
    proof {
        lemma_supported_mode_normal(normalized_mode(request.target_mode@));
    }
    let manifest = match manifest {
        Ok(m) => m,
        Err(e) => {
            return Err(e);
        },
    };
    let via = match trimmed_nonempty(crate::text::opt_as_str(&request.via)) {
        Some(v) => v,
        None => owned("control_api"),
    };
    let direction = transition_direction(current_mode.as_str(), target.mode);
    let event = SelfHostedProductTransitionEvent {
        created_at: owned(now),
        from_mode: current_mode,
        to_mode: owned(target.mode),
        direction: owned(direction),
        actor,
        reason: trimmed_nonempty(crate::text::opt_as_str(&request.reason)),
        via,
        warnings,
    };
    Ok((manifest, event))
}

/// Supported mode names are already trimmed and lower-case.
pub proof fn lemma_supported_mode_normal(m: Seq<char>)
    requires
        is_supported_mode(m),
    ensures
        normalized_mode(m) == m,
{
    reveal_strlit("solo");
    reveal_strlit("team");
    reveal_strlit("company");
    reveal_strlit("enterprise");
    assert(!crate::text::is_ws(m[0]));
    assert(!crate::text::is_ws(m.last()));
    assert(trim_seq(m) == m);
    assert(lower_seq(m) =~= m);
}


// ---------------------------------------------------------------------
// Files and the event log

/// The product-mode manifest of a workspace.
pub fn self_hosted_product_path(workspace_root: &str) -> (r: String)
    ensures
        r@ == crate::paths::join_path(
            crate::paths::join_path(crate::paths::control_root_spec(workspace_root@), "self-hosted"@),
            "product-mode.json"@,
        ),
{
    let root = crate::paths::control_root_for(workspace_root);
    let dir = crate::paths::join(root.as_str(), "self-hosted");
    crate::paths::join(dir.as_str(), "product-mode.json")
}

/// The product-mode transition log of a workspace.
pub fn self_hosted_product_events_path(workspace_root: &str) -> (r: String)
    ensures
        r@ == crate::paths::join_path(
            crate::paths::join_path(crate::paths::control_root_spec(workspace_root@), "self-hosted"@),
            "product-mode-events.jsonl"@,
        ),
{
    let root = crate::paths::control_root_for(workspace_root);
    let dir = crate::paths::join(root.as_str(), "self-hosted");
    crate::paths::join(dir.as_str(), "product-mode-events.jsonl")
}

impl crate::order::Stamped for SelfHostedProductTransitionEvent {
    open spec fn stamp(&self) -> Seq<char> {
        self.created_at@
    }

    fn stamp_str(&self) -> (r: &str) {
        self.created_at.as_str()
    }
}

/// The number of events a listing of `limit` shows out of `n`: at least one
/// is asked for.
pub open spec fn shown_count(n: nat, limit: nat) -> nat {
    let want: nat = if limit == 0 { 1 } else { limit };
    if n < want { n } else { want }
}

/// The newest events of a log: the events sorted newest first (events of
/// one time stamp in their order in the log) and cut to `limit`, showing at
/// least one.
pub fn recent_transition_events(
    events: Vec<SelfHostedProductTransitionEvent>,
    limit: usize,
) -> (r: Vec<SelfHostedProductTransitionEvent>)
    ensures
        exists|sorted: Seq<SelfHostedProductTransitionEvent>|
            sorted.to_multiset() == events@.to_multiset() && crate::order::newest_first_by(sorted)
                && crate::order::equal_stamps_keep_order(sorted, events@) && r@ == sorted.take(
                shown_count(events@.len(), limit as nat) as int,
            ),
{
    broadcast use vstd::seq_lib::group_to_multiset_ensures;

    let ghost original = events@;
    let mut sorted = crate::order::sort_newest_first(events);
    let ghost full = sorted@;
    proof {
        assert(full.to_multiset().len() == original.to_multiset().len());
    }
    let want: usize = if limit == 0 {
        1
    } else {
        limit
    };
    sorted.truncate(want);
    assert(sorted@ =~= full.take(shown_count(original.len(), limit as nat) as int));
    sorted
}


/// Moving between two different supported modes is an upgrade one way and
/// a downgrade the other way.
pub proof fn law_direction_reverses(a: Seq<char>, b: Seq<char>)
    requires
        is_supported_mode(a),
        is_supported_mode(b),
        a != b,
    ensures
        direction_of(a, b) == "upgrade"@ <==> direction_of(b, a) == "downgrade"@,
        direction_of(a, b) != direction_of(b, a),
{
    lemma_modes_distinct();
    reveal_strlit("upgrade");
    reveal_strlit("downgrade");
    assert("upgrade"@[0] != "downgrade"@[0]);
    assert(rank_of(a) != rank_of(b));
}


/// A move to enterprise while enterprise access is not bootstrapped warns
/// first that access must be bootstrapped; with access present that warning
/// is never given.
pub proof fn law_enterprise_bootstrap_warning(
    from: Seq<char>,
    access_present: bool,
    autonomy_present: bool,
    runtime_mode: Option<Seq<char>>,
)
    ensures
        !access_present ==> transition_warnings_spec(from, "enterprise"@, access_present, autonomy_present, runtime_mode).len()
            >= 1,
        !access_present ==> transition_warnings_spec(from, "enterprise"@, access_present, autonomy_present, runtime_mode)[0]
            == "Enterprise mode expects explicit access bootstrap; bootstrap enterprise access after the transition."@,
        access_present ==> !transition_warnings_spec(from, "enterprise"@, access_present, autonomy_present, runtime_mode).contains(
            "Enterprise mode expects explicit access bootstrap; bootstrap enterprise access after the transition."@,
        ),
{
    lemma_modes_distinct();
    let boot = "Enterprise mode expects explicit access bootstrap; bootstrap enterprise access after the transition."@;
    let keep = "Enterprise access and governance data will be retained on disk until you remove or reconfigure it explicitly."@;
    let auto = "Enterprise autonomy data will be retained on disk and should be reviewed after the downgrade."@;
    reveal_strlit("Enterprise mode expects explicit access bootstrap; bootstrap enterprise access after the transition.");
    reveal_strlit("Enterprise access and governance data will be retained on disk until you remove or reconfigure it explicitly.");
    reveal_strlit("Enterprise autonomy data will be retained on disk and should be reviewed after the downgrade.");
    reveal_strlit("enterprise");
    assert(boot[11] != keep[11]);
    assert(boot[11] != auto[11]);
    let w = transition_warnings_spec(from, "enterprise"@, access_present, autonomy_present, runtime_mode);
    if access_present {
        assert forall|i: int| 0 <= i < w.len() implies w[i] != boot by {
            assert(w[i] == keep || w[i] == auto);
        }
    }
}

} // verus!

//! The decisions of onboarding's model step: which provider lane and
//! access mode, whether an API key is asked for, when the provider is
//! verified, and when the primary model is chosen. The prompts, the
//! configuration writes and the verifications run outside; each answer
//! comes back as an event.

use vstd::prelude::*;

use crate::onboarding::OnboardingProviderAccessMode;
use crate::text::{concat2, opt_string_view, owned, str_eq};

verus! {

/// A provider lane as the model step offers it.
pub struct LaneOption {
    pub provider_id: String,
    pub lane_id: String,
    pub label: String,
    pub backend_id: Option<String>,
    /// The access modes the lane supports, in the order offered.
    pub access_modes: Vec<OnboardingProviderAccessMode>,
    pub api_key_prompt: Option<String>,
}

pub struct LaneView {
    pub provider_id: Seq<char>,
    pub lane_id: Seq<char>,
    pub label: Seq<char>,
    pub backend_id: Option<Seq<char>>,
    pub access_modes: Seq<OnboardingProviderAccessMode>,
    pub api_key_prompt: Option<Seq<char>>,
}

impl View for LaneOption {
    type V = LaneView;

    open spec fn view(&self) -> LaneView {
        LaneView {
            provider_id: self.provider_id@,
            lane_id: self.lane_id@,
            label: self.label@,
            backend_id: opt_string_view(self.backend_id),
            access_modes: self.access_modes@,
            api_key_prompt: opt_string_view(self.api_key_prompt),
        }
    }
}

pub open spec fn lanes_view(v: Seq<LaneOption>) -> Seq<LaneView> {
    v.map_values(|l: LaneOption| l@)
}

/// Where the model step stands.
#[derive(Clone, Copy, Debug, PartialEq, Eq, Structural)]
pub enum ModelSetupPhase {
    ChoosingLane,
    ChoosingAccess,
    EnteringKey,
    Preflight,
    ChoosingModel,
    Verifying,
    AssessingRuntime,
    Done,
}

/// The model step's state between two answers.
pub struct ModelSetupState {
    pub phase: ModelSetupPhase,
    pub lanes: Vec<LaneOption>,
    /// The index of the chosen lane.
    pub lane: usize,
    pub access_mode: Option<OnboardingProviderAccessMode>,
    /// The last verification's blocking flag and detail.
    pub blocking: bool,
    pub detail: String,
}

pub struct ModelSetupStateView {
    pub phase: ModelSetupPhase,
    pub lanes: Seq<LaneView>,
    pub lane: nat,
    pub access_mode: Option<OnboardingProviderAccessMode>,
    pub blocking: bool,
    pub detail: Seq<char>,
}

impl View for ModelSetupState {
    type V = ModelSetupStateView;

    open spec fn view(&self) -> ModelSetupStateView {
        ModelSetupStateView {
            phase: self.phase,
            lanes: lanes_view(self.lanes@),
            lane: self.lane as nat,
            access_mode: self.access_mode,
            blocking: self.blocking,
            detail: self.detail@,
        }
    }
}

/// An answer from outside.
pub enum ModelSetupEvent {
    /// The index of the lane chosen.
    LaneChosen(usize),
    /// The access mode chosen.
    AccessChosen(OnboardingProviderAccessMode),
    /// The API key entered (empty when none was).
    KeyEntered(String),
    /// A verification of the provider: whether it blocks, and its detail.
    Assessed { blocking: bool, detail: String },
    /// The primary model chosen, with where it came from.
    ModelChosen { model: String, source: String },
    /// The control-plane lane was assessed and recorded.
    RuntimeAssessed,
}

pub enum ModelSetupEventView {
    LaneChosen(nat),
    AccessChosen(OnboardingProviderAccessMode),
    KeyEntered(Seq<char>),
    Assessed { blocking: bool, detail: Seq<char> },
    ModelChosen { model: Seq<char>, source: Seq<char> },
    RuntimeAssessed,
}

impl View for ModelSetupEvent {
    type V = ModelSetupEventView;

    open spec fn view(&self) -> ModelSetupEventView {
        match self {
            ModelSetupEvent::LaneChosen(i) => ModelSetupEventView::LaneChosen(*i as nat),
            ModelSetupEvent::AccessChosen(m) => ModelSetupEventView::AccessChosen(*m),
            ModelSetupEvent::KeyEntered(k) => ModelSetupEventView::KeyEntered(k@),
            ModelSetupEvent::Assessed { blocking, detail } => ModelSetupEventView::Assessed {
                blocking: *blocking,
                detail: detail@,
            },
            ModelSetupEvent::ModelChosen { model, source } => ModelSetupEventView::ModelChosen {
                model: model@,
                source: source@,
            },
            ModelSetupEvent::RuntimeAssessed => ModelSetupEventView::RuntimeAssessed,
        }
    }
}

/// What the model step asks to be done next.
pub enum ModelSetupAction {
    /// Ask for the access mode among these, with the default index.
    ChooseAccess { modes: Vec<OnboardingProviderAccessMode>, default: usize },
    /// Ask for the API key with this prompt.
    AskApiKey(String),
    /// Record the lane and access mode, save the key when one is given,
    /// switch the runtime to `target` and run the preflight verification of
    /// `provider_id`.
    Activate { provider_id: String, target: String, api_key: Option<String> },
    /// Ask for the primary model of `target`.
    ChooseModel { target: String },
    /// Switch `target` to `model`, record it, and verify `provider_id` again.
    ApplyModel { provider_id: String, target: String, model: String, source: String },
    /// Assess and record the control-plane lane.
    AssessRuntime,
    /// The step ends: completed or not.
    Finish(bool),
    /// The step fails with this message.
    Fail(String),
    /// The answer does not fit where the step stands; nothing changes.
    Ignore,
}

pub enum ModelSetupActionView {
    ChooseAccess { modes: Seq<OnboardingProviderAccessMode>, default: nat },
    AskApiKey(Seq<char>),
    Activate { provider_id: Seq<char>, target: Seq<char>, api_key: Option<Seq<char>> },
    ChooseModel { target: Seq<char> },
    ApplyModel { provider_id: Seq<char>, target: Seq<char>, model: Seq<char>, source: Seq<char> },
    AssessRuntime,
    Finish(bool),
    Fail(Seq<char>),
    Ignore,
}

impl View for ModelSetupAction {
    type V = ModelSetupActionView;

    open spec fn view(&self) -> ModelSetupActionView {
        match self {
            ModelSetupAction::ChooseAccess { modes, default } => ModelSetupActionView::ChooseAccess {
                modes: modes@,
                default: *default as nat,
            },
            ModelSetupAction::AskApiKey(p) => ModelSetupActionView::AskApiKey(p@),
            ModelSetupAction::Activate { provider_id, target, api_key } => ModelSetupActionView::Activate {
                provider_id: provider_id@,
                target: target@,
                api_key: opt_string_view(*api_key),
            },
            ModelSetupAction::ChooseModel { target } => ModelSetupActionView::ChooseModel { target: target@ },
            ModelSetupAction::ApplyModel { provider_id, target, model, source } => ModelSetupActionView::ApplyModel {
                provider_id: provider_id@,
                target: target@,
                model: model@,
                source: source@,
            },
            ModelSetupAction::AssessRuntime => ModelSetupActionView::AssessRuntime,
            ModelSetupAction::Finish(b) => ModelSetupActionView::Finish(*b),
            ModelSetupAction::Fail(m) => ModelSetupActionView::Fail(m@),
            ModelSetupAction::Ignore => ModelSetupActionView::Ignore,
        }
    }
}

/// The index of the first lane whose provider or lane id is `id`.
pub open spec fn lane_position(lanes: Seq<LaneView>, id: Seq<char>, i: int) -> Option<nat>
    decreases lanes.len() - i,
{
    if i < 0 || i >= lanes.len() {
        None
    } else if lanes[i].provider_id == id || lanes[i].lane_id == id {
        Some(i as nat)
    } else {
        lane_position(lanes, id, i + 1)
    }
}

/// The lane offered first: the one chosen before (by lane, else by
/// provider), else the first.
pub open spec fn default_lane(lanes: Seq<LaneView>, prior: Option<Seq<char>>) -> nat {
    match prior {
        Some(id) => match lane_position(lanes, id, 0) {
            Some(k) => k,
            None => 0,
        },
        None => 0,
    }
}

/// The index of `m` among `modes`.
pub open spec fn mode_position(modes: Seq<OnboardingProviderAccessMode>, m: OnboardingProviderAccessMode, i: int) -> Option<nat>
    decreases modes.len() - i,
{
    if i < 0 || i >= modes.len() {
        None
    } else if modes[i] == m {
        Some(i as nat)
    } else {
        mode_position(modes, m, i + 1)
    }
}

/// The access mode offered first: the one chosen before when the lane has
/// it, else the first.
pub open spec fn default_mode(modes: Seq<OnboardingProviderAccessMode>, prior: Option<OnboardingProviderAccessMode>) -> nat {
    match prior {
        Some(m) => match mode_position(modes, m, 0) {
            Some(k) => k,
            None => 0,
        },
        None => 0,
    }
}

/// Where the runtime is pointed for a lane and access mode: the delegated
/// backend for a subscription-managed lane, else the provider.
pub open spec fn runtime_target(lane: LaneView, mode: OnboardingProviderAccessMode) -> Seq<char> {
    if mode == OnboardingProviderAccessMode::SubscriptionManaged {
        match lane.backend_id {
            Some(b) => b,
            None => lane.provider_id,
        }
    } else {
        lane.provider_id
    }
}

/// The step after the access mode is known.
pub open spec fn after_access(s: ModelSetupStateView, m: OnboardingProviderAccessMode) -> (
    ModelSetupStateView,
    ModelSetupActionView,
) {
    let lane = s.lanes[s.lane as int];
    let s1 = ModelSetupStateView { access_mode: Some(m), ..s };
    match m {
        OnboardingProviderAccessMode::ApiKey => match lane.api_key_prompt {
            Some(p) => (ModelSetupStateView { phase: ModelSetupPhase::EnteringKey, ..s1 }, ModelSetupActionView::AskApiKey(p)),
            None => (
                ModelSetupStateView { phase: ModelSetupPhase::Done, ..s1 },
                ModelSetupActionView::Fail(lane.provider_id + " requires an API key prompt"@),
            ),
        },
        OnboardingProviderAccessMode::LocalRuntime => (
            ModelSetupStateView { phase: ModelSetupPhase::Preflight, ..s1 },
            ModelSetupActionView::Activate { provider_id: lane.provider_id, target: lane.provider_id, api_key: None },
        ),
        OnboardingProviderAccessMode::SubscriptionManaged => match lane.backend_id {
            Some(b) => (
                ModelSetupStateView { phase: ModelSetupPhase::Preflight, ..s1 },
                ModelSetupActionView::Activate { provider_id: lane.provider_id, target: b, api_key: None },
            ),
            None => (
                ModelSetupStateView { phase: ModelSetupPhase::Done, ..s1 },
                ModelSetupActionView::Fail(
                    lane.label + " does not yet expose a subscription-managed onboarding path"@,
                ),
            ),
        },
    }
}

/// The model step's next state and action, given an answer.
pub open spec fn model_setup_transition(
    s: ModelSetupStateView,
    e: ModelSetupEventView,
    prior_access: Option<OnboardingProviderAccessMode>,
) -> (ModelSetupStateView, ModelSetupActionView) {
    let ignore = (s, ModelSetupActionView::Ignore);
    match e {
        ModelSetupEventView::LaneChosen(i) => if s.phase == ModelSetupPhase::ChoosingLane {
            if i >= s.lanes.len() {
                (
                    ModelSetupStateView { phase: ModelSetupPhase::Done, ..s },
                    ModelSetupActionView::Fail("invalid provider selection"@),
                )
            } else {
                let lane = s.lanes[i as int];
                let s1 = ModelSetupStateView { lane: i, ..s };
                if lane.access_modes.len() == 0 {
                    (
                        ModelSetupStateView { phase: ModelSetupPhase::Done, ..s1 },
                        ModelSetupActionView::Fail(lane.label + " does not yet expose a supported onboarding path"@),
                    )
                } else if lane.access_modes.len() == 1 {
                    after_access(s1, lane.access_modes[0])
                } else {
                    (
                        ModelSetupStateView { phase: ModelSetupPhase::ChoosingAccess, ..s1 },
                        ModelSetupActionView::ChooseAccess {
                            modes: lane.access_modes,
                            default: default_mode(lane.access_modes, prior_access),
                        },
                    )
                }
            }
        } else {
            ignore
        },
        ModelSetupEventView::AccessChosen(m) => if s.phase == ModelSetupPhase::ChoosingAccess && s.lane
            < s.lanes.len() {
            after_access(s, m)
        } else {
            ignore
        },
        ModelSetupEventView::KeyEntered(k) => if s.phase == ModelSetupPhase::EnteringKey && s.lane < s.lanes.len() {
            let lane = s.lanes[s.lane as int];
            if k.len() == 0 {
                (ModelSetupStateView { phase: ModelSetupPhase::Done, ..s }, ModelSetupActionView::Finish(true))
            } else {
                (
                    ModelSetupStateView { phase: ModelSetupPhase::Preflight, ..s },
                    ModelSetupActionView::Activate {
                        provider_id: lane.provider_id,
                        target: lane.provider_id,
                        api_key: Some(k),
                    },
                )
            }
        } else {
            ignore
        },
        ModelSetupEventView::Assessed { blocking, detail } => if s.phase == ModelSetupPhase::Preflight && s.lane
            < s.lanes.len() && s.access_mode is Some {
            if blocking {
                (
                    ModelSetupStateView { phase: ModelSetupPhase::Done, blocking, detail, ..s },
                    ModelSetupActionView::Fail(detail),
                )
            } else {
                (
                    ModelSetupStateView { phase: ModelSetupPhase::ChoosingModel, blocking, detail, ..s },
                    ModelSetupActionView::ChooseModel {
                        target: runtime_target(s.lanes[s.lane as int], s.access_mode->0),
                    },
                )
            }
        } else if s.phase == ModelSetupPhase::Verifying {
            (
                ModelSetupStateView { phase: ModelSetupPhase::AssessingRuntime, blocking, detail, ..s },
                ModelSetupActionView::AssessRuntime,
            )
        } else {
            ignore
        },
        ModelSetupEventView::ModelChosen { model, source } => if s.phase == ModelSetupPhase::ChoosingModel && s.lane
            < s.lanes.len() && s.access_mode is Some {
            let lane = s.lanes[s.lane as int];
            (
                ModelSetupStateView { phase: ModelSetupPhase::Verifying, ..s },
                ModelSetupActionView::ApplyModel {
                    provider_id: lane.provider_id,
                    target: runtime_target(lane, s.access_mode->0),
                    model,
                    source,
                },
            )
        } else {
            ignore
        },
        ModelSetupEventView::RuntimeAssessed => if s.phase == ModelSetupPhase::AssessingRuntime {
            if s.blocking {
                (ModelSetupStateView { phase: ModelSetupPhase::Done, ..s }, ModelSetupActionView::Fail(s.detail))
            } else {
                (ModelSetupStateView { phase: ModelSetupPhase::Done, ..s }, ModelSetupActionView::Finish(true))
            }
        } else {
            ignore
        },
    }
}

fn lane_index_of(lanes: &Vec<LaneOption>, id: &str) -> (r: Option<usize>)
    ensures
        r matches Some(k) ==> lane_position(lanes_view(lanes@), id@, 0) == Some(k as nat),
        r is None ==> lane_position(lanes_view(lanes@), id@, 0) is None,
{
    let ghost lv = lanes_view(lanes@);
    let mut i: usize = 0;
    while i < lanes.len()
        invariant
            i <= lanes@.len(),
            lv == lanes_view(lanes@),
            lane_position(lv, id@, 0) == lane_position(lv, id@, i as int),
        decreases lanes@.len() - i,
    {
        assert(lv[i as int] == lanes@[i as int]@);
        if str_eq(lanes[i].provider_id.as_str(), id) || str_eq(lanes[i].lane_id.as_str(), id) {
            return Some(i);
        }
        i = i + 1;
    }
    None
}

fn mode_index_of(modes: &Vec<OnboardingProviderAccessMode>, m: OnboardingProviderAccessMode) -> (r: Option<usize>)
    ensures
        r matches Some(k) ==> mode_position(modes@, m, 0) == Some(k as nat),
        r is None ==> mode_position(modes@, m, 0) is None,
{
    let mut i: usize = 0;
    while i < modes.len()
        invariant
            i <= modes@.len(),
            mode_position(modes@, m, 0) == mode_position(modes@, m, i as int),
        decreases modes@.len() - i,
    {
        if modes[i] == m {
            return Some(i);
        }
        i = i + 1;
    }
    None
}

/// The start of the model step: the lanes offered and the one offered first
/// (the lane or provider chosen before, else the first).
pub fn start_model_setup(lanes: Vec<LaneOption>, prior_lane: Option<&str>) -> (r: (ModelSetupState, usize))
    ensures
        r.0@.phase == ModelSetupPhase::ChoosingLane,
        r.0@.lanes == lanes_view(lanes@),
        r.0@.access_mode is None,
        !r.0@.blocking,
        r.1 as nat == default_lane(lanes_view(lanes@), crate::text::opt_str_view(prior_lane)),
{
    let default = match prior_lane {
        Some(id) => match lane_index_of(&lanes, id) {
            Some(k) => k,
            None => 0,
        },
        None => 0,
    };
    (
        ModelSetupState {
            phase: ModelSetupPhase::ChoosingLane,
            lanes,
            lane: 0,
            access_mode: None,
            blocking: false,
            detail: String::new(),
        },
        default,
    )
}

fn copy_modes(v: &Vec<OnboardingProviderAccessMode>) -> (r: Vec<OnboardingProviderAccessMode>)
    ensures
        r@ == v@,
{
    let mut out: Vec<OnboardingProviderAccessMode> = Vec::new();
    let mut i: usize = 0;
    while i < v.len()
        invariant
            i <= v.len(),
            out@ == v@.take(i as int),
        decreases v.len() - i,
    {
        out.push(v[i]);
        assert(v@.take(i + 1) =~= v@.take(i as int).push(v@[i as int]));
        i = i + 1;
    }
    assert(v@.take(v.len() as int) =~= v@);
    out
}

fn exec_after_access(s: ModelSetupState, m: OnboardingProviderAccessMode) -> (r: (ModelSetupState, ModelSetupAction))
    requires
        s.lane < s.lanes@.len(),
    ensures
        (r.0@, r.1@) == after_access(s@, m),
{
    let ghost sv = s@;
    assert(sv.lanes[s.lane as int] == s.lanes@[s.lane as int]@);
    let provider = s.lanes[s.lane].provider_id.clone();
    let label = s.lanes[s.lane].label.clone();
    let prompt = crate::text::opt_clone(&s.lanes[s.lane].api_key_prompt);
    let backend = crate::text::opt_clone(&s.lanes[s.lane].backend_id);
    let s1 = ModelSetupState { access_mode: Some(m), ..s };
    match m {
        OnboardingProviderAccessMode::ApiKey => match prompt {
            Some(p) => (ModelSetupState { phase: ModelSetupPhase::EnteringKey, ..s1 }, ModelSetupAction::AskApiKey(p)),
            None => (
                ModelSetupState { phase: ModelSetupPhase::Done, ..s1 },
                ModelSetupAction::Fail(concat2(provider.as_str(), " requires an API key prompt")),
            ),
        },
        OnboardingProviderAccessMode::LocalRuntime => {
            let target = provider.clone();
            (
                ModelSetupState { phase: ModelSetupPhase::Preflight, ..s1 },
                ModelSetupAction::Activate { provider_id: provider, target, api_key: None },
            )
        },
        OnboardingProviderAccessMode::SubscriptionManaged => match backend {
            Some(b) => (
                ModelSetupState { phase: ModelSetupPhase::Preflight, ..s1 },
                ModelSetupAction::Activate { provider_id: provider, target: b, api_key: None },
            ),
            None => (
                ModelSetupState { phase: ModelSetupPhase::Done, ..s1 },
                ModelSetupAction::Fail(
                    concat2(label.as_str(), " does not yet expose a subscription-managed onboarding path"),
                ),
            ),
        },
    }
}

fn exec_runtime_target(lane: &LaneOption, m: OnboardingProviderAccessMode) -> (r: String)
    ensures
        r@ == runtime_target(lane@, m),
{
    if m == OnboardingProviderAccessMode::SubscriptionManaged {
        match &lane.backend_id {
            Some(b) => b.clone(),
            None => lane.provider_id.clone(),
        }
    } else {
        lane.provider_id.clone()
    }
}

/// One step of the model setup: its next state and what to do, given an
/// answer; `prior_access` is the access mode chosen before, offered first
/// when the lane has it.
pub fn model_setup_step(
    state: ModelSetupState,
    event: ModelSetupEvent,
    prior_access: Option<OnboardingProviderAccessMode>,
) -> (r: (ModelSetupState, ModelSetupAction))
    ensures
        (r.0@, r.1@) == model_setup_transition(state@, event@, prior_access),
{
    let s = state;
    let ghost sv = s@;
    match event {
        ModelSetupEvent::LaneChosen(i) => {
            if s.phase != ModelSetupPhase::ChoosingLane {
                return (s, ModelSetupAction::Ignore);
            }
            if i >= s.lanes.len() {
                return (
                    ModelSetupState { phase: ModelSetupPhase::Done, ..s },
                    ModelSetupAction::Fail(owned("invalid provider selection")),
                );
            }
            assert(sv.lanes[i as int] == s.lanes@[i as int]@);
            let n = s.lanes[i].access_modes.len();
            let s1 = ModelSetupState { lane: i, ..s };
            if n == 0 {
                let msg = concat2(s1.lanes[i].label.as_str(), " does not yet expose a supported onboarding path");
                (ModelSetupState { phase: ModelSetupPhase::Done, ..s1 }, ModelSetupAction::Fail(msg))
            } else if n == 1 {
                let m = s1.lanes[i].access_modes[0];
                exec_after_access(s1, m)
            } else {
                let modes = copy_modes(&s1.lanes[i].access_modes);
                let default = match prior_access {
                    Some(m) => match mode_index_of(&modes, m) {
                        Some(k) => k,
                        None => 0,
                    },
                    None => 0,
                };
                (
                    ModelSetupState { phase: ModelSetupPhase::ChoosingAccess, ..s1 },
                    ModelSetupAction::ChooseAccess { modes, default },
                )
            }
        },
        ModelSetupEvent::AccessChosen(m) => {
            if s.phase != ModelSetupPhase::ChoosingAccess || s.lane >= s.lanes.len() {
                return (s, ModelSetupAction::Ignore);
            }
            exec_after_access(s, m)
        },
        ModelSetupEvent::KeyEntered(k) => {
            if s.phase != ModelSetupPhase::EnteringKey || s.lane >= s.lanes.len() {
                return (s, ModelSetupAction::Ignore);
            }
            assert(sv.lanes[s.lane as int] == s.lanes@[s.lane as int]@);
            if k.as_str().unicode_len() == 0 {
                (ModelSetupState { phase: ModelSetupPhase::Done, ..s }, ModelSetupAction::Finish(true))
            } else {
                let provider = s.lanes[s.lane].provider_id.clone();
                let target = provider.clone();
                (
                    ModelSetupState { phase: ModelSetupPhase::Preflight, ..s },
                    ModelSetupAction::Activate { provider_id: provider, target, api_key: Some(k) },
                )
            }
        },
        ModelSetupEvent::Assessed { blocking, detail } => {
            if s.phase == ModelSetupPhase::Preflight && s.lane < s.lanes.len() && s.access_mode.is_some() {
                assert(sv.lanes[s.lane as int] == s.lanes@[s.lane as int]@);
                if blocking {
                    let shown = detail.clone();
                    (
                        ModelSetupState { phase: ModelSetupPhase::Done, blocking, detail, ..s },
                        ModelSetupAction::Fail(shown),
                    )
                } else {
                    let m = match s.access_mode {
                        Some(m) => m,
                        None => OnboardingProviderAccessMode::ApiKey,
                    };
                    let target = exec_runtime_target(&s.lanes[s.lane], m);
                    (
                        ModelSetupState { phase: ModelSetupPhase::ChoosingModel, blocking, detail, ..s },
                        ModelSetupAction::ChooseModel { target },
                    )
                }
            } else if s.phase == ModelSetupPhase::Verifying {
                (
                    ModelSetupState { phase: ModelSetupPhase::AssessingRuntime, blocking, detail, ..s },
                    ModelSetupAction::AssessRuntime,
                )
            } else {
                (s, ModelSetupAction::Ignore)
            }
        },
        ModelSetupEvent::ModelChosen { model, source } => {
            if s.phase != ModelSetupPhase::ChoosingModel || s.lane >= s.lanes.len() || s.access_mode.is_none() {
                return (s, ModelSetupAction::Ignore);
            }
            assert(sv.lanes[s.lane as int] == s.lanes@[s.lane as int]@);
            let m = match s.access_mode {
                Some(m) => m,
                None => OnboardingProviderAccessMode::ApiKey,
            };
            let provider = s.lanes[s.lane].provider_id.clone();
            let target = exec_runtime_target(&s.lanes[s.lane], m);
            (
                ModelSetupState { phase: ModelSetupPhase::Verifying, ..s },
                ModelSetupAction::ApplyModel { provider_id: provider, target, model, source },
            )
        },
        ModelSetupEvent::RuntimeAssessed => {
            if s.phase != ModelSetupPhase::AssessingRuntime {
                return (s, ModelSetupAction::Ignore);
            }
            if s.blocking {
                let msg = s.detail.clone();
                (ModelSetupState { phase: ModelSetupPhase::Done, ..s }, ModelSetupAction::Fail(msg))
            } else {
                (ModelSetupState { phase: ModelSetupPhase::Done, ..s }, ModelSetupAction::Finish(true))
            }
        },
    }
}

/// A key is saved only when the operator entered one, and it is the key
/// entered.
pub proof fn law_a_key_is_saved_only_when_entered(
    s: ModelSetupStateView,
    e: ModelSetupEventView,
    prior: Option<OnboardingProviderAccessMode>,
)
    ensures
        model_setup_transition(s, e, prior).1 matches ModelSetupActionView::Activate { api_key: Some(k), .. } ==> (e
            == ModelSetupEventView::KeyEntered(k) && k.len() > 0),
{
}

/// A verification that blocks ends the step in failure, with its detail:
/// right away before the model is chosen, and once the control-plane lane
/// is assessed after.
pub proof fn law_a_blocking_verification_fails_the_step(
    s: ModelSetupStateView,
    e: ModelSetupEventView,
    prior: Option<OnboardingProviderAccessMode>,
)
    ensures
        (s.phase == ModelSetupPhase::Preflight && s.lane < s.lanes.len() && s.access_mode is Some) ==> (
        e matches ModelSetupEventView::Assessed { blocking, detail } ==> (blocking ==> model_setup_transition(
            s,
            e,
            prior,
        ).1 == ModelSetupActionView::Fail(detail))),
        s.phase == ModelSetupPhase::AssessingRuntime && s.blocking && e == ModelSetupEventView::RuntimeAssessed
            ==> model_setup_transition(s, e, prior).1 == ModelSetupActionView::Fail(s.detail),
{
}

} // verus!

//! The decisions of the interactive onboarding wizard: what to offer on an
//! existing workspace (resume, repair, modify, health check or reset), how
//! the chosen setup depth becomes steps, and when the health check and the
//! completion follow. The prompts, the file writes and the steps themselves
//! run outside; each answer comes back as an event.

use vstd::prelude::*;

use crate::onboarding::{OnboardingProfile, OnboardingStep};
use crate::text::strs;

verus! {

/// What onboarding does to the workspace it finds.
#[derive(Clone, Copy, Debug, PartialEq, Eq, Structural)]
pub enum WorkspaceAction {
    NewWorkspace,
    RepairExisting,
    ModifyExisting,
    ResetWithBackup,
}

impl WorkspaceAction {
    /// The identifier the setup state records.
    pub fn id(self) -> (r: &'static str)
        ensures
            r@ == match self {
                WorkspaceAction::NewWorkspace => "new_workspace"@,
                WorkspaceAction::RepairExisting => "repair_existing"@,
                WorkspaceAction::ModifyExisting => "modify_existing"@,
                WorkspaceAction::ResetWithBackup => "reset_with_backup"@,
            },
    {
        match self {
            WorkspaceAction::NewWorkspace => "new_workspace",
            WorkspaceAction::RepairExisting => "repair_existing",
            WorkspaceAction::ModifyExisting => "modify_existing",
            WorkspaceAction::ResetWithBackup => "reset_with_backup",
        }
    }
}

/// An entry of the menu shown on an existing workspace.
#[derive(Clone, Copy, Debug, PartialEq, Eq, Structural)]
pub enum MenuChoice {
    Resume,
    Repair,
    Modify,
    HealthCheck,
    Reset,
}

/// Where the wizard stands.
#[derive(Clone, Copy, Debug, PartialEq, Eq, Structural)]
pub enum WizardPhase {
    Inspecting,
    Menu,
    PlanningRepair,
    ConfirmingRepair,
    Resetting,
    ChoosingMode,
    ChoosingDepth,
    ChoosingSteps,
    RunningSteps,
    CheckingHealth,
    Finished,
}

/// The wizard's state between two answers.
pub struct WizardState {
    pub phase: WizardPhase,
    pub workspace_action: Option<WorkspaceAction>,
    /// Whether the menu offers to resume the previous setup.
    pub resumable: bool,
    /// The selected steps of the previous setup that are not completed.
    pub remaining_steps: Vec<OnboardingStep>,
    /// The steps of the repair plan awaiting confirmation.
    pub repair_steps: Vec<OnboardingStep>,
    pub deployment_mode: Option<String>,
    pub profile: Option<OnboardingProfile>,
}

/// An answer from outside: what was found, chosen or done.
pub enum WizardEvent {
    /// The workspace was inspected: whether any onboarding-managed state is
    /// there, whether the stored setup can be resumed, and its selected
    /// steps that are not completed.
    Inspected { existing: bool, resumable: bool, remaining_steps: Vec<OnboardingStep> },
    /// The index of the menu entry chosen.
    MenuChosen(usize),
    /// The steps of the repair plan.
    RepairPlanned(Vec<OnboardingStep>),
    /// Whether the operator confirmed the repair plan.
    RepairConfirmed(bool),
    /// The onboarding-managed state was backed up and reset.
    ResetDone,
    /// The deployment mode chosen (and configured).
    ModeChosen(String),
    /// The setup depth chosen.
    DepthChosen(OnboardingProfile),
    /// For a custom depth, one flag per step in canonical order.
    StepsChosen(Vec<bool>),
    /// The steps to run have run.
    StepsFinished,
    /// Whether the post-onboarding health check passed.
    HealthChecked(bool),
}

/// What the wizard asks to be done next.
pub enum WizardAction {
    /// Show the menu of an existing workspace, with its default entry.
    ShowMenu { choices: Vec<MenuChoice>, default: usize },
    /// Build the targeted repair plan.
    PlanRepair,
    /// Ask whether to run the repair plan.
    ConfirmRepair(Vec<OnboardingStep>),
    /// Prepare the setup state for the repair and run its steps.
    RunRepair(Vec<OnboardingStep>),
    /// Run the remaining steps of the previous setup.
    ResumeSteps(Vec<OnboardingStep>),
    /// Back up and reset the onboarding-managed state.
    BackupAndReset,
    /// Ask for the deployment mode.
    ChooseMode,
    /// Ask for the setup depth.
    ChooseDepth,
    /// Ask which steps to run, all but the skill and service steps preselected.
    ChooseSteps,
    /// Record a new setup with these steps and run them.
    StartSteps { steps: Vec<OnboardingStep>, workspace_action: WorkspaceAction, profile: OnboardingProfile },
    /// Run the post-onboarding health check.
    CheckHealth,
    /// Print the completion summary, and offer the assistant when healthy.
    Finish { healthy: bool },
    /// The answer does not fit where the wizard stands; nothing changes.
    Ignore,
}

/// The wizard's state as plain values.
pub struct WizardStateView {
    pub phase: WizardPhase,
    pub workspace_action: Option<WorkspaceAction>,
    pub resumable: bool,
    pub remaining_steps: Seq<OnboardingStep>,
    pub repair_steps: Seq<OnboardingStep>,
    pub deployment_mode: Option<Seq<char>>,
    pub profile: Option<OnboardingProfile>,
}

pub enum WizardEventView {
    Inspected { existing: bool, resumable: bool, remaining_steps: Seq<OnboardingStep> },
    MenuChosen(nat),
    RepairPlanned(Seq<OnboardingStep>),
    RepairConfirmed(bool),
    ResetDone,
    ModeChosen(Seq<char>),
    DepthChosen(OnboardingProfile),
    StepsChosen(Seq<bool>),
    StepsFinished,
    HealthChecked(bool),
}

pub enum WizardActionView {
    ShowMenu { choices: Seq<MenuChoice>, default: nat },
    PlanRepair,
    ConfirmRepair(Seq<OnboardingStep>),
    RunRepair(Seq<OnboardingStep>),
    ResumeSteps(Seq<OnboardingStep>),
    BackupAndReset,
    ChooseMode,
    ChooseDepth,
    ChooseSteps,
    StartSteps { steps: Seq<OnboardingStep>, workspace_action: WorkspaceAction, profile: OnboardingProfile },
    CheckHealth,
    Finish { healthy: bool },
    Ignore,
}

impl View for WizardState {
    type V = WizardStateView;

    open spec fn view(&self) -> WizardStateView {
        WizardStateView {
            phase: self.phase,
            workspace_action: self.workspace_action,
            resumable: self.resumable,
            remaining_steps: self.remaining_steps@,
            repair_steps: self.repair_steps@,
            deployment_mode: crate::text::opt_string_view(self.deployment_mode),
            profile: self.profile,
        }
    }
}

impl View for WizardEvent {
    type V = WizardEventView;

    open spec fn view(&self) -> WizardEventView {
        match self {
            WizardEvent::Inspected { existing, resumable, remaining_steps } => WizardEventView::Inspected {
                existing: *existing,
                resumable: *resumable,
                remaining_steps: remaining_steps@,
            },
            WizardEvent::MenuChosen(i) => WizardEventView::MenuChosen(*i as nat),
            WizardEvent::RepairPlanned(s) => WizardEventView::RepairPlanned(s@),
            WizardEvent::RepairConfirmed(b) => WizardEventView::RepairConfirmed(*b),
            WizardEvent::ResetDone => WizardEventView::ResetDone,
            WizardEvent::ModeChosen(m) => WizardEventView::ModeChosen(m@),
            WizardEvent::DepthChosen(p) => WizardEventView::DepthChosen(*p),
            WizardEvent::StepsChosen(f) => WizardEventView::StepsChosen(f@),
            WizardEvent::StepsFinished => WizardEventView::StepsFinished,
            WizardEvent::HealthChecked(h) => WizardEventView::HealthChecked(*h),
        }
    }
}

impl View for WizardAction {
    type V = WizardActionView;

    open spec fn view(&self) -> WizardActionView {
        match self {
            WizardAction::ShowMenu { choices, default } => WizardActionView::ShowMenu {
                choices: choices@,
                default: *default as nat,
            },
            WizardAction::PlanRepair => WizardActionView::PlanRepair,
            WizardAction::ConfirmRepair(s) => WizardActionView::ConfirmRepair(s@),
            WizardAction::RunRepair(s) => WizardActionView::RunRepair(s@),
            WizardAction::ResumeSteps(s) => WizardActionView::ResumeSteps(s@),
            WizardAction::BackupAndReset => WizardActionView::BackupAndReset,
            WizardAction::ChooseMode => WizardActionView::ChooseMode,
            WizardAction::ChooseDepth => WizardActionView::ChooseDepth,
            WizardAction::ChooseSteps => WizardActionView::ChooseSteps,
            WizardAction::StartSteps { steps, workspace_action, profile } => WizardActionView::StartSteps {
                steps: steps@,
                workspace_action: *workspace_action,
                profile: *profile,
            },
            WizardAction::CheckHealth => WizardActionView::CheckHealth,
            WizardAction::Finish { healthy } => WizardActionView::Finish { healthy: *healthy },
            WizardAction::Ignore => WizardActionView::Ignore,
        }
    }
}

/// All six steps in their canonical order.
pub open spec fn all_steps() -> Seq<OnboardingStep> {
    seq![
        OnboardingStep::Gateway,
        OnboardingStep::Channel,
        OnboardingStep::Model,
        OnboardingStep::ControlPlane,
        OnboardingStep::Skill,
        OnboardingStep::Daemon,
    ]
}

/// The steps of a depth, as its menu entry describes them: Standard is the
/// gateway, one channel, the provider and the control plane; Advanced adds
/// the skills and the system service.
pub open spec fn profile_steps(profile: OnboardingProfile) -> Seq<OnboardingStep> {
    match profile {
        OnboardingProfile::Advanced => all_steps(),
        _ => all_steps().take(4),
    }
}

/// The steps a custom choice selects, in canonical order.
pub open spec fn chosen_steps(flags: Seq<bool>, n: int) -> Seq<OnboardingStep>
    decreases n,
{
    if n <= 0 {
        seq![]
    } else {
        chosen_steps(flags, n - 1) + if n - 1 < flags.len() && flags[n - 1] {
            seq![all_steps()[n - 1]]
        } else {
            Seq::<OnboardingStep>::empty()
        }
    }
}

/// The steps of a custom choice: the chosen ones, or Standard's when none
/// is chosen.
pub open spec fn custom_steps(flags: Seq<bool>) -> Seq<OnboardingStep> {
    let c = chosen_steps(flags, 6);
    if c.len() == 0 {
        profile_steps(OnboardingProfile::Standard)
    } else {
        c
    }
}

/// The menu of an existing workspace: resume first when the previous setup
/// can be resumed, then repair, modify, health check and reset.
pub open spec fn menu_of(resumable: bool) -> Seq<MenuChoice> {
    if resumable {
        seq![MenuChoice::Resume, MenuChoice::Repair, MenuChoice::Modify, MenuChoice::HealthCheck, MenuChoice::Reset]
    } else {
        seq![MenuChoice::Repair, MenuChoice::Modify, MenuChoice::HealthCheck, MenuChoice::Reset]
    }
}

/// The menu's default entry: resume when offered, else modify.
pub open spec fn menu_default(resumable: bool) -> nat {
    if resumable {
        0
    } else {
        1
    }
}

pub open spec fn in_phase(s: WizardStateView, phase: WizardPhase) -> WizardStateView {
    WizardStateView { phase, ..s }
}

/// The wizard's next state and action, given an answer.
pub open spec fn wizard_transition(s: WizardStateView, e: WizardEventView) -> (WizardStateView, WizardActionView) {
    let ignore = (s, WizardActionView::Ignore);
    match e {
        WizardEventView::Inspected { existing, resumable, remaining_steps } => if s.phase == WizardPhase::Inspecting {
            if existing {
                (
                    WizardStateView {
                        phase: WizardPhase::Menu,
                        resumable,
                        remaining_steps,
                        ..s
                    },
                    WizardActionView::ShowMenu { choices: menu_of(resumable), default: menu_default(resumable) },
                )
            } else {
                (
                    WizardStateView {
                        phase: WizardPhase::ChoosingMode,
                        workspace_action: Some(WorkspaceAction::NewWorkspace),
                        ..s
                    },
                    WizardActionView::ChooseMode,
                )
            }
        } else {
            ignore
        },
        WizardEventView::MenuChosen(i) => if s.phase == WizardPhase::Menu && i < menu_of(s.resumable).len() {
            match menu_of(s.resumable)[i as int] {
                MenuChoice::Resume => (in_phase(s, WizardPhase::RunningSteps), WizardActionView::ResumeSteps(
                    s.remaining_steps,
                )),
                MenuChoice::Repair => (
                    WizardStateView {
                        phase: WizardPhase::PlanningRepair,
                        workspace_action: Some(WorkspaceAction::RepairExisting),
                        ..s
                    },
                    WizardActionView::PlanRepair,
                ),
                MenuChoice::Modify => (
                    WizardStateView {
                        phase: WizardPhase::ChoosingMode,
                        workspace_action: Some(WorkspaceAction::ModifyExisting),
                        ..s
                    },
                    WizardActionView::ChooseMode,
                ),
                MenuChoice::HealthCheck => (in_phase(s, WizardPhase::CheckingHealth), WizardActionView::CheckHealth),
                MenuChoice::Reset => (in_phase(s, WizardPhase::Resetting), WizardActionView::BackupAndReset),
            }
        } else {
            ignore
        },
        WizardEventView::RepairPlanned(steps) => if s.phase == WizardPhase::PlanningRepair {
            if steps.len() == 0 {
                (in_phase(s, WizardPhase::CheckingHealth), WizardActionView::CheckHealth)
            } else {
                (
                    WizardStateView { phase: WizardPhase::ConfirmingRepair, repair_steps: steps, ..s },
                    WizardActionView::ConfirmRepair(steps),
                )
            }
        } else {
            ignore
        },
        WizardEventView::RepairConfirmed(yes) => if s.phase == WizardPhase::ConfirmingRepair {
            if yes {
                (in_phase(s, WizardPhase::RunningSteps), WizardActionView::RunRepair(s.repair_steps))
            } else {
                (in_phase(s, WizardPhase::CheckingHealth), WizardActionView::CheckHealth)
            }
        } else {
            ignore
        },
        WizardEventView::ResetDone => if s.phase == WizardPhase::Resetting {
            (
                WizardStateView {
                    phase: WizardPhase::ChoosingMode,
                    workspace_action: Some(WorkspaceAction::ResetWithBackup),
                    ..s
                },
                WizardActionView::ChooseMode,
            )
        } else {
            ignore
        },
        WizardEventView::ModeChosen(mode) => if s.phase == WizardPhase::ChoosingMode {
            (
                WizardStateView { phase: WizardPhase::ChoosingDepth, deployment_mode: Some(mode), ..s },
                WizardActionView::ChooseDepth,
            )
        } else {
            ignore
        },
        WizardEventView::DepthChosen(p) => if s.phase == WizardPhase::ChoosingDepth {
            match p {
                OnboardingProfile::Custom => (
                    WizardStateView { phase: WizardPhase::ChoosingSteps, profile: Some(p), ..s },
                    WizardActionView::ChooseSteps,
                ),
                _ => (
                    WizardStateView { phase: WizardPhase::RunningSteps, profile: Some(p), ..s },
                    WizardActionView::StartSteps {
                        steps: profile_steps(p),
                        workspace_action: action_or_new(s.workspace_action),
                        profile: p,
                    },
                ),
            }
        } else {
            ignore
        },
        WizardEventView::StepsChosen(flags) => if s.phase == WizardPhase::ChoosingSteps {
            (
                in_phase(s, WizardPhase::RunningSteps),
                WizardActionView::StartSteps {
                    steps: custom_steps(flags),
                    workspace_action: action_or_new(s.workspace_action),
                    profile: OnboardingProfile::Custom,
                },
            )
        } else {
            ignore
        },
        WizardEventView::StepsFinished => if s.phase == WizardPhase::RunningSteps {
            (in_phase(s, WizardPhase::CheckingHealth), WizardActionView::CheckHealth)
        } else {
            ignore
        },
        WizardEventView::HealthChecked(h) => if s.phase == WizardPhase::CheckingHealth {
            (in_phase(s, WizardPhase::Finished), WizardActionView::Finish { healthy: h })
        } else {
            ignore
        },
    }
}

/// The recorded workspace action, new workspace when none was set.
pub open spec fn action_or_new(a: Option<WorkspaceAction>) -> WorkspaceAction {
    match a {
        Some(x) => x,
        None => WorkspaceAction::NewWorkspace,
    }
}

/// A wizard that has not looked at the workspace yet.
pub fn new_wizard_state() -> (r: WizardState)
    ensures
        r@.phase == WizardPhase::Inspecting,
        r@.workspace_action is None,
        !r@.resumable,
        r@.remaining_steps.len() == 0,
        r@.repair_steps.len() == 0,
        r@.deployment_mode is None,
        r@.profile is None,
{
    WizardState {
        phase: WizardPhase::Inspecting,
        workspace_action: None,
        resumable: false,
        remaining_steps: Vec::new(),
        repair_steps: Vec::new(),
        deployment_mode: None,
        profile: None,
    }
}

fn copy_steps(v: &Vec<OnboardingStep>) -> (r: Vec<OnboardingStep>)
    ensures
        r@ == v@,
{
    let mut out: Vec<OnboardingStep> = Vec::new();
    let mut i: usize = 0;
    while i < v.len()
        invariant
            i <= v.len(),
            out@ == v@.take(i as int),
        decreases v.len() - i,
    {
        out.push(v[i]);
        assert(v@.take(i + 1) =~= v@.take(i as int).push(v@[i as int]));
        i = i + 1;
    }
    assert(v@.take(v.len() as int) =~= v@);
    out
}

fn all_steps_vec() -> (r: Vec<OnboardingStep>)
    ensures
        r@ == all_steps(),
{
    let v = vec![
        OnboardingStep::Gateway,
        OnboardingStep::Channel,
        OnboardingStep::Model,
        OnboardingStep::ControlPlane,
        OnboardingStep::Skill,
        OnboardingStep::Daemon,
    ];
    assert(v@ =~= all_steps());
    v
}

/// The steps a setup depth runs (a custom depth asks; it starts from
/// Standard's).
pub fn steps_for_profile(profile: OnboardingProfile) -> (r: Vec<OnboardingStep>)
    ensures
        r@ == profile_steps(profile),
{
    let mut v = all_steps_vec();
    match profile {
        OnboardingProfile::Advanced => v,
        _ => {
            v.truncate(4);
            v
        },
    }
}

/// The steps a custom choice runs: one flag per step in canonical order;
/// Standard's steps when none is chosen.
pub fn steps_from_choice(flags: &Vec<bool>) -> (r: Vec<OnboardingStep>)
    ensures
        r@ == custom_steps(flags@),
{
    let all = all_steps_vec();
    let mut out: Vec<OnboardingStep> = Vec::new();
    let mut i: usize = 0;
    while i < 6
        invariant
            i <= 6,
            all@ == all_steps(),
            out@ == chosen_steps(flags@, i as int),
        decreases 6 - i,
    {
        if i < flags.len() && flags[i] {
            out.push(all[i]);
            assert(out@ =~= chosen_steps(flags@, i as int) + seq![all_steps()[i as int]]);
        } else {
            assert(out@ =~= chosen_steps(flags@, i as int) + Seq::<OnboardingStep>::empty());
        }
        i = i + 1;
    }
    if out.len() == 0 {
        steps_for_profile(OnboardingProfile::Standard)
    } else {
        out
    }
}

fn menu_vec(resumable: bool) -> (r: Vec<MenuChoice>)
    ensures
        r@ == menu_of(resumable),
{
    let v = if resumable {
        vec![MenuChoice::Resume, MenuChoice::Repair, MenuChoice::Modify, MenuChoice::HealthCheck, MenuChoice::Reset]
    } else {
        vec![MenuChoice::Repair, MenuChoice::Modify, MenuChoice::HealthCheck, MenuChoice::Reset]
    };
    assert(v@ =~= menu_of(resumable));
    v
}

/// One step of the wizard: its next state and what to do, given an answer.
pub fn wizard_step(state: &WizardState, event: WizardEvent) -> (r: (WizardState, WizardAction))
    ensures
        (r.0@, r.1@) == wizard_transition(state@, event@),
{
    let s = WizardState {
        phase: state.phase,
        workspace_action: state.workspace_action,
        resumable: state.resumable,
        remaining_steps: copy_steps(&state.remaining_steps),
        repair_steps: copy_steps(&state.repair_steps),
        deployment_mode: crate::text::opt_clone(&state.deployment_mode),
        profile: state.profile,
    };
    assert(s@ == state@);
    let phase = state.phase;
    match event {
        WizardEvent::Inspected { existing, resumable, remaining_steps } => {
            if phase != WizardPhase::Inspecting {
                return (s, WizardAction::Ignore);
            }
            if existing {
                let default: usize = if resumable { 0 } else { 1 };
                let next = WizardState { phase: WizardPhase::Menu, resumable, remaining_steps, ..s };
                (next, WizardAction::ShowMenu { choices: menu_vec(resumable), default })
            } else {
                let next = WizardState {
                    phase: WizardPhase::ChoosingMode,
                    workspace_action: Some(WorkspaceAction::NewWorkspace),
                    ..s
                };
                (next, WizardAction::ChooseMode)
            }
        },
        WizardEvent::MenuChosen(i) => {
            let menu = menu_vec(state.resumable);
            if phase != WizardPhase::Menu || i >= menu.len() {
                return (s, WizardAction::Ignore);
            }
            match menu[i] {
                MenuChoice::Resume => {
                    let steps = copy_steps(&state.remaining_steps);
                    (WizardState { phase: WizardPhase::RunningSteps, ..s }, WizardAction::ResumeSteps(steps))
                },
                MenuChoice::Repair => (
                    WizardState {
                        phase: WizardPhase::PlanningRepair,
                        workspace_action: Some(WorkspaceAction::RepairExisting),
                        ..s
                    },
                    WizardAction::PlanRepair,
                ),
                MenuChoice::Modify => (
                    WizardState {
                        phase: WizardPhase::ChoosingMode,
                        workspace_action: Some(WorkspaceAction::ModifyExisting),
                        ..s
                    },
                    WizardAction::ChooseMode,
                ),
                MenuChoice::HealthCheck => (
                    WizardState { phase: WizardPhase::CheckingHealth, ..s },
                    WizardAction::CheckHealth,
                ),
                MenuChoice::Reset => (WizardState { phase: WizardPhase::Resetting, ..s }, WizardAction::BackupAndReset),
            }
        },
        WizardEvent::RepairPlanned(steps) => {
            if phase != WizardPhase::PlanningRepair {
                return (s, WizardAction::Ignore);
            }
            if steps.len() == 0 {
                (WizardState { phase: WizardPhase::CheckingHealth, ..s }, WizardAction::CheckHealth)
            } else {
                let shown = copy_steps(&steps);
                (
                    WizardState { phase: WizardPhase::ConfirmingRepair, repair_steps: steps, ..s },
                    WizardAction::ConfirmRepair(shown),
                )
            }
        },
        WizardEvent::RepairConfirmed(yes) => {
            if phase != WizardPhase::ConfirmingRepair {
                return (s, WizardAction::Ignore);
            }
            if yes {
                let steps = copy_steps(&state.repair_steps);
                (WizardState { phase: WizardPhase::RunningSteps, ..s }, WizardAction::RunRepair(steps))
            } else {
                (WizardState { phase: WizardPhase::CheckingHealth, ..s }, WizardAction::CheckHealth)
            }
        },
        WizardEvent::ResetDone => {
            if phase != WizardPhase::Resetting {
                return (s, WizardAction::Ignore);
            }
            (
                WizardState {
                    phase: WizardPhase::ChoosingMode,
                    workspace_action: Some(WorkspaceAction::ResetWithBackup),
                    ..s
                },
                WizardAction::ChooseMode,
            )
        },
        WizardEvent::ModeChosen(mode) => {
            if phase != WizardPhase::ChoosingMode {
                return (s, WizardAction::Ignore);
            }
            (
                WizardState { phase: WizardPhase::ChoosingDepth, deployment_mode: Some(mode), ..s },
                WizardAction::ChooseDepth,
            )
        },
        WizardEvent::DepthChosen(p) => {
            if phase != WizardPhase::ChoosingDepth {
                return (s, WizardAction::Ignore);
            }
            match p {
                OnboardingProfile::Custom => (
                    WizardState { phase: WizardPhase::ChoosingSteps, profile: Some(p), ..s },
                    WizardAction::ChooseSteps,
                ),
                _ => {
                    let wa = match state.workspace_action {
                        Some(x) => x,
                        None => WorkspaceAction::NewWorkspace,
                    };
                    (
                        WizardState { phase: WizardPhase::RunningSteps, profile: Some(p), ..s },
                        WizardAction::StartSteps { steps: steps_for_profile(p), workspace_action: wa, profile: p },
                    )
                },
            }
        },
        WizardEvent::StepsChosen(flags) => {
            if phase != WizardPhase::ChoosingSteps {
                return (s, WizardAction::Ignore);
            }
            let wa = match state.workspace_action {
                Some(x) => x,
                None => WorkspaceAction::NewWorkspace,
            };
            (
                WizardState { phase: WizardPhase::RunningSteps, ..s },
                WizardAction::StartSteps {
                    steps: steps_from_choice(&flags),
                    workspace_action: wa,
                    profile: OnboardingProfile::Custom,
                },
            )
        },
        WizardEvent::StepsFinished => {
            if phase != WizardPhase::RunningSteps {
                return (s, WizardAction::Ignore);
            }
            (WizardState { phase: WizardPhase::CheckingHealth, ..s }, WizardAction::CheckHealth)
        },
        WizardEvent::HealthChecked(h) => {
            if phase != WizardPhase::CheckingHealth {
                return (s, WizardAction::Ignore);
            }
            (WizardState { phase: WizardPhase::Finished, ..s }, WizardAction::Finish { healthy: h })
        },
    }
}

/// The wizard finishes, and so may offer the assistant, only right after
/// the health check, reporting that check's result.
pub proof fn law_finish_follows_the_health_check(s: WizardStateView, e: WizardEventView)
    ensures
        wizard_transition(s, e).1 matches WizardActionView::Finish { healthy } ==> (s.phase
            == WizardPhase::CheckingHealth && e == WizardEventView::HealthChecked(healthy)),
        wizard_transition(s, e).1 matches WizardActionView::CheckHealth ==> s.phase != WizardPhase::Inspecting,
{
}

/// An answer that does not fit where the wizard stands changes nothing.
pub proof fn law_ignored_answers_change_nothing(s: WizardStateView, e: WizardEventView)
    ensures
        wizard_transition(s, e).1 is Ignore ==> wizard_transition(s, e).0 == s,
{
}

/// The selected steps of a stored setup that are not completed, in the
/// order selected; an id that names no step is left out.
pub open spec fn remaining_steps_spec(selected: Seq<Seq<char>>, completed: Seq<Seq<char>>) -> Seq<OnboardingStep>
    decreases selected.len(),
{
    if selected.len() == 0 {
        seq![]
    } else {
        remaining_steps_spec(selected.drop_last(), completed) + if completed.contains(selected.last()) {
            Seq::<OnboardingStep>::empty()
        } else {
            match crate::onboarding::step_from_id_spec(selected.last()) {
                Some(step) => seq![step],
                None => Seq::<OnboardingStep>::empty(),
            }
        }
    }
}

/// The steps a resumed setup still runs.
pub fn remaining_selected_steps(setup: &crate::onboarding::SetupState) -> (r: Vec<OnboardingStep>)
    ensures
        r@ == remaining_steps_spec(strs(setup.selected_steps@), strs(setup.completed_steps@)),
{
    let sel = &setup.selected_steps;
    let mut out: Vec<OnboardingStep> = Vec::new();
    let mut i: usize = 0;
    while i < sel.len()
        invariant
            i <= sel@.len(),
            sel == &setup.selected_steps,
            out@ == remaining_steps_spec(strs(sel@).take(i as int), strs(setup.completed_steps@)),
        decreases sel@.len() - i,
    {
        assert(strs(sel@).take(i + 1).drop_last() =~= strs(sel@).take(i as int));
        assert(strs(sel@).take(i + 1).last() == sel@[i as int]@);
        let id = sel[i].as_str();
        if crate::text::vec_contains_str(&setup.completed_steps, id) {
            assert(out@ =~= out@ + Seq::<OnboardingStep>::empty());
        } else {
            match crate::onboarding::step_from_id(id) {
                Some(step) => {
                    out.push(step);
                },
                None => {
                    assert(out@ =~= out@ + Seq::<OnboardingStep>::empty());
                },
            }
        }
        i = i + 1;
    }
    assert(strs(sel@).take(sel@.len() as int) =~= strs(sel@));
    out
}

/// What the resume entry shows of the previous setup: the step in
/// progress, else the next action, else a plain reminder.
pub fn resume_detail(setup: &crate::onboarding::SetupState) -> (r: String)
    ensures
        r@ == match crate::text::opt_string_view(setup.current_step) {
            Some(c) => c,
            None => match crate::text::opt_string_view(setup.next_action) {
                Some(n) => n,
                None => "continue previous setup"@,
            },
        },
{
    match &setup.current_step {
        Some(c) => c.clone(),
        None => match &setup.next_action {
            Some(n) => n.clone(),
            None => crate::text::owned("continue previous setup"),
        },
    }
}

/// The text of a menu entry; `detail` is what the resume entry shows.
pub fn menu_label(choice: MenuChoice, detail: &str) -> (r: String)
    ensures
        r@ == match choice {
            MenuChoice::Resume => "Resume previous setup ("@ + detail@ + ")"@,
            MenuChoice::Repair => "Repair setup blockers or workspace drift"@,
            MenuChoice::Modify => "Modify existing workspace state"@,
            MenuChoice::HealthCheck => "Keep existing state and only run a health check"@,
            MenuChoice::Reset => "Reset onboarding-managed state with backup"@,
        },
{
    match choice {
        MenuChoice::Resume => crate::text::concat3("Resume previous setup (", detail, ")"),
        MenuChoice::Repair => crate::text::owned("Repair setup blockers or workspace drift"),
        MenuChoice::Modify => crate::text::owned("Modify existing workspace state"),
        MenuChoice::HealthCheck => crate::text::owned("Keep existing state and only run a health check"),
        MenuChoice::Reset => crate::text::owned("Reset onboarding-managed state with backup"),
    }
}


/// A repair plan that the operator declines never runs: the wizard goes on
/// to the health check with everything else unchanged. A repair runs only
/// after the operator confirmed it, and runs exactly the planned steps.
pub proof fn law_declined_repair_never_runs(s: WizardStateView, e: WizardEventView)
    ensures
        s.phase == WizardPhase::ConfirmingRepair ==> wizard_transition(s, WizardEventView::RepairConfirmed(false))
            == (WizardStateView { phase: WizardPhase::CheckingHealth, ..s }, WizardActionView::CheckHealth),
        wizard_transition(s, e).1 matches WizardActionView::RunRepair(steps) ==> (s.phase
            == WizardPhase::ConfirmingRepair && e == WizardEventView::RepairConfirmed(true) && steps
            == s.repair_steps),
{
}

} // verus!

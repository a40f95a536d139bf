use openrustclaw_cli::onboarding::{should_offer_assistant_launch, OnboardingProfile, OnboardingStep};
use openrustclaw_cli::wizard::{
    new_wizard_state, steps_for_profile, steps_from_choice, wizard_step, MenuChoice, WizardAction, WizardEvent,
    WizardPhase, WorkspaceAction,
};

#[test]
fn a_new_workspace_goes_to_mode_depth_and_steps() {
    let s = new_wizard_state();
    let (s, a) = wizard_step(&s, WizardEvent::Inspected { existing: false, resumable: false, remaining_steps: vec![] });
    assert!(matches!(a, WizardAction::ChooseMode));
    let (s, a) = wizard_step(&s, WizardEvent::ModeChosen("solo".to_string()));
    assert!(matches!(a, WizardAction::ChooseDepth));
    let (s, a) = wizard_step(&s, WizardEvent::DepthChosen(OnboardingProfile::Standard));
    match a {
        WizardAction::StartSteps { steps, workspace_action, profile } => {
            assert_eq!(
                steps,
                vec![OnboardingStep::Gateway, OnboardingStep::Channel, OnboardingStep::Model, OnboardingStep::ControlPlane]
            );
            assert_eq!(workspace_action, WorkspaceAction::NewWorkspace);
            assert_eq!(profile, OnboardingProfile::Standard);
        }
        _ => panic!("expected the steps to start"),
    }
    let (s, a) = wizard_step(&s, WizardEvent::StepsFinished);
    assert!(matches!(a, WizardAction::CheckHealth));
    let (s, a) = wizard_step(&s, WizardEvent::HealthChecked(true));
    assert!(matches!(a, WizardAction::Finish { healthy: true }));
    assert_eq!(s.phase, WizardPhase::Finished);
}

#[test]
fn an_existing_workspace_offers_resume_first_when_resumable() {
    let s = new_wizard_state();
    let remaining = vec![OnboardingStep::Model, OnboardingStep::Daemon];
    let (s, a) = wizard_step(&s, WizardEvent::Inspected { existing: true, resumable: true, remaining_steps: remaining.clone() });
    match a {
        WizardAction::ShowMenu { choices, default } => {
            assert_eq!(choices[0], MenuChoice::Resume);
            assert_eq!(choices.len(), 5);
            assert_eq!(default, 0);
        }
        _ => panic!("expected the menu"),
    }
    let (_, a) = wizard_step(&s, WizardEvent::MenuChosen(0));
    match a {
        WizardAction::ResumeSteps(steps) => assert_eq!(steps, remaining),
        _ => panic!("expected resume"),
    }
}

#[test]
fn the_menu_defaults_to_modify_and_repair_and_reset_flow() {
    let s = new_wizard_state();
    let (s, a) = wizard_step(&s, WizardEvent::Inspected { existing: true, resumable: false, remaining_steps: vec![] });
    match a {
        WizardAction::ShowMenu { choices, default } => {
            assert_eq!(choices, vec![MenuChoice::Repair, MenuChoice::Modify, MenuChoice::HealthCheck, MenuChoice::Reset]);
            assert_eq!(choices[default], MenuChoice::Modify);
        }
        _ => panic!("expected the menu"),
    }
    // Repair with an empty plan runs only the health check.
    let (r, a) = wizard_step(&s, WizardEvent::MenuChosen(0));
    assert!(matches!(a, WizardAction::PlanRepair));
    assert_eq!(r.workspace_action, Some(WorkspaceAction::RepairExisting));
    let (_, a) = wizard_step(&r, WizardEvent::RepairPlanned(vec![]));
    assert!(matches!(a, WizardAction::CheckHealth));
    // A confirmed plan runs its steps.
    let (r2, _) = wizard_step(&r, WizardEvent::RepairPlanned(vec![OnboardingStep::Model]));
    let (_, a) = wizard_step(&r2, WizardEvent::RepairConfirmed(true));
    match a {
        WizardAction::RunRepair(steps) => assert_eq!(steps, vec![OnboardingStep::Model]),
        _ => panic!("expected the repair to run"),
    }
    // Reset backs up, then starts over with the reset recorded.
    let (t, a) = wizard_step(&s, WizardEvent::MenuChosen(3));
    assert!(matches!(a, WizardAction::BackupAndReset));
    let (t, a) = wizard_step(&t, WizardEvent::ResetDone);
    assert!(matches!(a, WizardAction::ChooseMode));
    assert_eq!(t.workspace_action, Some(WorkspaceAction::ResetWithBackup));
    // An answer that does not fit changes nothing.
    let (u, a) = wizard_step(&t, WizardEvent::HealthChecked(true));
    assert!(matches!(a, WizardAction::Ignore));
    assert_eq!(u.phase, WizardPhase::ChoosingMode);
}

#[test]
fn depths_become_steps() {
    assert_eq!(steps_for_profile(OnboardingProfile::Advanced).len(), 6);
    assert_eq!(steps_for_profile(OnboardingProfile::Standard).len(), 4);
    assert_eq!(
        steps_from_choice(&vec![false, false, true, false, false, true]),
        vec![OnboardingStep::Model, OnboardingStep::Daemon]
    );
    assert_eq!(steps_from_choice(&vec![false; 6]), steps_for_profile(OnboardingProfile::Standard));
}

#[test]
fn test_should_offer_assistant_launch_requires_health_terminal_and_provider() {
    assert!(should_offer_assistant_launch(true, true, Some("openrouter")));
    assert!(!should_offer_assistant_launch(false, true, Some("openrouter")));
    assert!(!should_offer_assistant_launch(true, false, Some("openrouter")));
    assert!(!should_offer_assistant_launch(true, true, None));
}

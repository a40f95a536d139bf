use openrustclaw_cli::model_setup::{model_setup_step, start_model_setup, LaneOption, ModelSetupAction, ModelSetupEvent};
use openrustclaw_cli::onboarding::OnboardingProviderAccessMode;

fn lane(provider: &str, lane_id: &str, modes: Vec<OnboardingProviderAccessMode>, backend: Option<&str>) -> LaneOption {
    LaneOption {
        provider_id: provider.to_string(),
        lane_id: lane_id.to_string(),
        label: format!("{provider} lane"),
        backend_id: backend.map(str::to_string),
        access_modes: modes,
        api_key_prompt: Some(format!("{provider} API key")),
    }
}

fn lanes() -> Vec<LaneOption> {
    vec![
        lane("anthropic", "anthropic", vec![OnboardingProviderAccessMode::ApiKey], None),
        lane(
            "openai",
            "codex",
            vec![OnboardingProviderAccessMode::ApiKey, OnboardingProviderAccessMode::SubscriptionManaged],
            Some("codex-cli"),
        ),
        lane("ollama", "ollama", vec![OnboardingProviderAccessMode::LocalRuntime], None),
    ]
}

#[test]
fn the_previous_lane_is_offered_first() {
    let (_, default) = start_model_setup(lanes(), Some("codex"));
    assert_eq!(default, 1);
    let (_, default) = start_model_setup(lanes(), Some("ollama"));
    assert_eq!(default, 2);
    let (_, default) = start_model_setup(lanes(), Some("unknown"));
    assert_eq!(default, 0);
}

#[test]
fn an_api_key_lane_asks_for_the_key_then_verifies_and_picks_a_model() {
    let (s, _) = start_model_setup(lanes(), None);
    let (s, a) = model_setup_step(s, ModelSetupEvent::LaneChosen(0), None);
    assert!(matches!(a, ModelSetupAction::AskApiKey(ref p) if p == "anthropic API key"));
    let (s, a) = model_setup_step(s, ModelSetupEvent::KeyEntered("sk-1".to_string()), None);
    match a {
        ModelSetupAction::Activate { provider_id, target, api_key } => {
            assert_eq!((provider_id.as_str(), target.as_str()), ("anthropic", "anthropic"));
            assert_eq!(api_key.as_deref(), Some("sk-1"));
        }
        _ => panic!("expected activation"),
    }
    let (s, a) = model_setup_step(s, ModelSetupEvent::Assessed { blocking: false, detail: "ok".to_string() }, None);
    assert!(matches!(a, ModelSetupAction::ChooseModel { ref target } if target == "anthropic"));
    let (s, a) = model_setup_step(
        s,
        ModelSetupEvent::ModelChosen { model: "sonnet-4".to_string(), source: "recommended".to_string() },
        None,
    );
    assert!(matches!(a, ModelSetupAction::ApplyModel { ref model, .. } if model == "sonnet-4"));
    let (s, a) = model_setup_step(s, ModelSetupEvent::Assessed { blocking: false, detail: "ok".to_string() }, None);
    assert!(matches!(a, ModelSetupAction::AssessRuntime));
    let (_, a) = model_setup_step(s, ModelSetupEvent::RuntimeAssessed, None);
    assert!(matches!(a, ModelSetupAction::Finish(true)));
}

#[test]
fn an_empty_key_skips_and_a_blocking_preflight_fails() {
    let (s, _) = start_model_setup(lanes(), None);
    let (s2, _) = model_setup_step(s, ModelSetupEvent::LaneChosen(0), None);
    let (_, a) = model_setup_step(s2, ModelSetupEvent::KeyEntered(String::new()), None);
    assert!(matches!(a, ModelSetupAction::Finish(true)));

    let (s, _) = start_model_setup(lanes(), None);
    let (s, a) = model_setup_step(s, ModelSetupEvent::LaneChosen(2), None);
    assert!(matches!(a, ModelSetupAction::Activate { ref target, .. } if target == "ollama"));
    let (_, a) = model_setup_step(s, ModelSetupEvent::Assessed { blocking: true, detail: "down".to_string() }, None);
    assert!(matches!(a, ModelSetupAction::Fail(ref m) if m == "down"));
}

#[test]
fn a_lane_with_several_modes_asks_and_a_subscription_targets_the_backend() {
    let (s, _) = start_model_setup(lanes(), None);
    let (s, a) = model_setup_step(s, ModelSetupEvent::LaneChosen(1), Some(OnboardingProviderAccessMode::SubscriptionManaged));
    assert!(matches!(a, ModelSetupAction::ChooseAccess { default: 1, .. }));
    let (s, a) = model_setup_step(s, ModelSetupEvent::AccessChosen(OnboardingProviderAccessMode::SubscriptionManaged), None);
    assert!(matches!(a, ModelSetupAction::Activate { ref target, .. } if target == "codex-cli"));
    let (_, a) = model_setup_step(s, ModelSetupEvent::Assessed { blocking: false, detail: "ok".to_string() }, None);
    assert!(matches!(a, ModelSetupAction::ChooseModel { ref target } if target == "codex-cli"));
}

#[test]
fn lanes_without_a_path_fail() {
    let mut v = lanes();
    v.push(lane("x", "x", vec![], None));
    let (s, _) = start_model_setup(v, None);
    let (_, a) = model_setup_step(s, ModelSetupEvent::LaneChosen(3), None);
    assert!(matches!(a, ModelSetupAction::Fail(ref m) if m == "x lane does not yet expose a supported onboarding path"));
    let (s, _) = start_model_setup(lanes(), None);
    let (_, a) = model_setup_step(s, ModelSetupEvent::LaneChosen(9), None);
    assert!(matches!(a, ModelSetupAction::Fail(ref m) if m == "invalid provider selection"));
}

use openrustclaw_cli::onboarding::{
    started_setup_state,
    bootstrap_outcome_for, build_model_shortlist, generate_jwt_secret, local_connectivity_profile,
    mark_setup_state_step_blocked, mark_setup_state_step_completed, new_setup_state, onboarding_provider_issue_kind,
    persist_provider_path_selection, prepare_setup_state_for_repair,
    provider_verification_detail, provider_verification_next_action, record_bootstrap_outcome,
    remote_connectivity_profile_for_selection, runtime_lane_assessment, setup_state_path,
    step_next_action, validate_execution_mode_bootstrap, validate_provider_bootstrap,
    workspace_status, OnboardingLaneDescriptor, OnboardingLaneKind, OnboardingState,
    OnboardingStep, SetupBootstrapOutcome, SetupState,
};
use openrustclaw_cli::runtime::RuntimeHealthProviderEntry;
use openrustclaw_cli::self_hosted::{MODE_COMPANY, MODE_ENTERPRISE, MODE_SOLO};

const NOW: &str = "2026-03-19T00:00:00+00:00";

fn ollama_entry(healthy: bool, issue_kind: Option<&str>, issue: Option<&str>) -> RuntimeHealthProviderEntry {
    RuntimeHealthProviderEntry {
        provider: "ollama".to_string(),
        role: "primary".to_string(),
        model: "llama3".to_string(),
        configured: true,
        healthy,
        issue_kind: issue_kind.map(|s| s.to_string()),
        recommendation: None,
        issue: issue.map(|s| s.to_string()),
        model_available: None,
        limit_snapshot: None,
    }
}

fn setup_with(selected_provider: Option<&str>, access: Option<&str>) -> SetupState {
    let mut setup = new_setup_state(NOW);
    setup.workspace_action = "resume".to_string();
    setup.setup_path = Some("Standard".to_string());
    setup.selected_provider = selected_provider.map(|s| s.to_string());
    setup.selected_access_mode = access.map(|s| s.to_string());
    setup.selected_steps = vec!["model".to_string()];
    setup.current_step = Some("model".to_string());
    setup
}

#[test]
fn test_onboarding_state_default() {
    let state = OnboardingState::default();
    assert!(!state.gateway_configured);
    assert!(state.channels_configured.is_empty());
    assert!(!state.model_configured);
    assert!(state.preferred_provider.is_none());
    assert!(state.selected_access_mode.is_none());
    assert!(state.selected_primary_model.is_none());
    assert!(state.selected_primary_model_source.is_none());
    assert!(state.deployment_mode.is_none());
    assert!(state.deployment_path.is_none());
    assert!(!state.daemon_installed);
    assert!(state.skills_installed.is_empty());
    assert!(state.profile.is_none());
    assert!(state.workspace_action.is_none());
}

#[test]
fn test_onboarding_step_names() {
    assert_eq!(OnboardingStep::Gateway.name(), "Gateway Setup");
    assert_eq!(OnboardingStep::Channel.name(), "Channel Setup");
    assert_eq!(OnboardingStep::Model.name(), "AI Model Setup");
    assert_eq!(OnboardingStep::Skill.name(), "Skills Setup");
    assert_eq!(OnboardingStep::Daemon.name(), "System Service");
}

#[test]
fn test_onboarding_step_descriptions() {
    assert!(!OnboardingStep::Gateway.description().is_empty());
    assert!(!OnboardingStep::Channel.description().is_empty());
    assert!(!OnboardingStep::Model.description().is_empty());
    assert!(!OnboardingStep::Skill.description().is_empty());
    assert!(!OnboardingStep::Daemon.description().is_empty());
}

#[test]
fn test_generate_jwt_secret_is_base64() {
    let secret = generate_jwt_secret();
    let decoded = base64::Engine::decode(&base64::engine::general_purpose::STANDARD, &secret);
    assert!(decoded.is_ok());
    assert_eq!(decoded.unwrap().len(), 32);
}

#[test]
fn test_generate_jwt_secret_is_nonempty() {
    let secret = generate_jwt_secret();
    assert!(!secret.is_empty());
}

#[test]
fn test_generate_jwt_secret_is_unique() {
    let secret1 = generate_jwt_secret();
    let secret2 = generate_jwt_secret();
    assert_ne!(secret1, secret2);
}

#[test]
fn test_onboarding_state_channels_can_be_modified() {
    let mut state = OnboardingState::default();
    state.channels_configured.push("telegram".to_string());
    state.channels_configured.push("discord".to_string());
    assert_eq!(state.channels_configured.len(), 2);
    assert!(state.channels_configured.contains(&"telegram".to_string()));
    assert!(state.channels_configured.contains(&"discord".to_string()));
}

#[test]
fn test_onboarding_state_skills_can_be_modified() {
    let mut state = OnboardingState::default();
    state.skills_installed.push("memory".to_string());
    assert_eq!(state.skills_installed.len(), 1);
}

#[test]
fn test_onboarding_state_flags_can_be_set() {
    let mut state = OnboardingState::default();
    state.gateway_configured = true;
    state.model_configured = true;
    state.preferred_provider = Some("ollama".to_string());
    state.selected_access_mode = Some("local_runtime".to_string());
    state.selected_primary_model = Some("llama3.1".to_string());
    state.selected_primary_model_source = Some("live_discovery".to_string());
    state.daemon_installed = true;
    assert!(state.gateway_configured);
    assert!(state.model_configured);
    assert_eq!(state.preferred_provider.as_deref(), Some("ollama"));
    assert_eq!(state.selected_access_mode.as_deref(), Some("local_runtime"));
    assert_eq!(state.selected_primary_model.as_deref(), Some("llama3.1"));
    assert_eq!(state.selected_primary_model_source.as_deref(), Some("live_discovery"));
    assert!(state.daemon_installed);
}

#[test]
fn test_workspace_status_defaults_to_absent() {
    let status = workspace_status("/tmp/empty-workspace", false, false, false, None, None, false);
    assert!(!status.env_present);
    assert!(!status.control_registry_present);
    assert!(!status.channels_registry_present);
    assert!(!status.product_mode_present);
    assert!(status.product_mode_label.is_none());
    assert!(!status.setup_state_present);
    assert!(status.setup_status.is_none());
    assert!(status.setup_next_action.is_none());
}

#[test]
fn test_remote_connectivity_profiles_capture_fallback_order() {
    let local = local_connectivity_profile();
    assert_eq!(local.mode, "local_only");
    assert!(local.fallback_paths.is_empty());

    let remote = remote_connectivity_profile_for_selection(0);
    assert_eq!(remote.primary_path, "node_first");
    assert_eq!(remote.fallback_paths, vec!["ssh_tunnel".to_string(), "reverse_proxy".to_string()]);
}

#[test]
fn test_step_next_action_distinguishes_model_substeps() {
    let mut setup = setup_with(None, None);
    assert_eq!(step_next_action(&setup, &OnboardingStep::Model), "Choose the LLM provider and access mode");

    setup.selected_provider = Some("openrouter".to_string());
    setup.selected_access_mode = Some("api_key".to_string());
    assert_eq!(step_next_action(&setup, &OnboardingStep::Model), "Choose the primary task model");
}

#[test]
fn test_record_bootstrap_outcome_replaces_existing_entry() {
    let mut setup = new_setup_state(NOW);
    record_bootstrap_outcome(&mut setup, "provider", "anthropic", "warning", "initial warning", NOW);
    record_bootstrap_outcome(&mut setup, "provider", "anthropic", "ready", "provider reachable", NOW);

    assert_eq!(setup.bootstrap_outcomes.len(), 1);
    let outcome = bootstrap_outcome_for(&setup, "provider", "anthropic").unwrap();
    assert_eq!(outcome.status, "ready");
    assert_eq!(outcome.detail, "provider reachable");
    assert!(outcome.issue_kind.is_none());
}

#[test]
fn test_validate_execution_mode_bootstrap_warns_on_non_recommended_mode() {
    let assessment =
        validate_execution_mode_bootstrap(Some("task_assigned"), "task_assigned", Some(MODE_ENTERPRISE)).unwrap();
    assert_eq!(assessment.status, "warning");
    assert!(!assessment.blocking);
    assert!(assessment.detail.contains("recommends `orchestrated`"));
}

#[test]
fn test_prepare_setup_state_for_repair_retargets_selected_steps() {
    let mut setup = new_setup_state(NOW);
    setup.completed_at = Some(NOW.to_string());
    setup.status = "ready".to_string();
    setup.deployment_mode = Some(MODE_COMPANY.to_string());
    setup.deployment_path = Some("company_ops_setup".to_string());
    setup.setup_path = Some("Advanced".to_string());
    setup.selected_provider = Some("anthropic".to_string());
    setup.selected_access_mode = Some("api_key".to_string());
    setup.selected_primary_model = Some("sonnet-4-20250514".to_string());
    setup.selected_steps = vec!["gateway".to_string(), "model".to_string(), "channel".to_string()];
    setup.completed_steps = vec!["gateway".to_string(), "model".to_string(), "channel".to_string()];
    setup.blockers = vec!["old blocker".to_string()];
    setup.next_action = Some("done".to_string());

    prepare_setup_state_for_repair(&mut setup, &vec![OnboardingStep::Model, OnboardingStep::Channel], None, NOW);

    assert_eq!(setup.workspace_action, "repair_existing");
    assert_eq!(setup.status, "in_progress");
    assert_eq!(setup.selected_steps, vec!["model".to_string(), "channel".to_string()]);
    assert_eq!(setup.completed_steps, vec!["gateway".to_string()]);
    assert_eq!(setup.current_step.as_deref(), Some("model"));
    assert_eq!(setup.next_action.as_deref(), Some("Complete AI Model Setup"));
}

#[test]
fn test_validate_provider_bootstrap_classifies_local_runtime_missing() {
    let entry = ollama_entry(
        false,
        Some("probe_failed"),
        Some("Failed to reach Ollama: tcp connect error: Connection refused"),
    );

    let issue_kind = onboarding_provider_issue_kind("ollama", Some("local_runtime"), &entry);
    assert_eq!(issue_kind, "local_runtime_missing");
    let detail = provider_verification_detail("ollama", &issue_kind, &entry);
    assert!(detail.contains("Local runtime"));
    let next_action = provider_verification_next_action("ollama", &issue_kind);
    assert!(next_action.contains("Start the local runtime"));
}

#[test]
fn test_build_model_shortlist_prefers_recommended_model() {
    let shortlist = build_model_shortlist(
        "gpt-4o",
        vec!["gpt-4o-mini".to_string(), "gpt-4o".to_string(), "gpt-4o".to_string(), "o3-mini".to_string()],
    );
    assert_eq!(shortlist, vec!["gpt-4o".to_string(), "gpt-4o-mini".to_string(), "o3-mini".to_string()]);
}

#[test]
fn test_mark_setup_state_step_blocked_prefers_provider_verification_action() {
    let mut setup = setup_with(Some("ollama"), Some("local_runtime"));
    setup.next_action = Some("Complete AI Model Setup".to_string());
    setup.bootstrap_outcomes = vec![SetupBootstrapOutcome {
        category: "provider".to_string(),
        target: "ollama".to_string(),
        status: "blocked".to_string(),
        detail: "Local runtime is not reachable".to_string(),
        issue_kind: Some("local_runtime_missing".to_string()),
        verification_stage: Some("provider_connection".to_string()),
        suggested_action: Some("Start the local runtime, confirm it is reachable, then rerun onboarding.".to_string()),
        updated_at: NOW.to_string(),
    }];

    mark_setup_state_step_blocked(
        &mut setup,
        &OnboardingStep::Model,
        "AI Model Setup failed: provider verification failed",
        NOW,
    );

    assert_eq!(setup.status, "blocked");
    assert_eq!(
        setup.next_action.as_deref(),
        Some("Start the local runtime, confirm it is reachable, then rerun onboarding.")
    );
}

#[test]
fn test_persist_provider_path_selection_clears_prior_model_selection() {
    let mut setup = setup_with(Some("anthropic"), Some("api_key"));
    setup.selected_lane_id = Some("anthropic".to_string());
    setup.selected_primary_model = Some("sonnet-4-20250514".to_string());
    setup.selected_primary_model_source = Some("live_discovery".to_string());

    let descriptor = OnboardingLaneDescriptor {
        lane_id: "openai".to_string(),
        provider_id: "openai".to_string(),
        label: "OpenAI (GPT)".to_string(),
        kind: OnboardingLaneKind::DirectApi,
        backend_id: None,
        detail: "Use a provider API key stored in `.env`.".to_string(),
        compatibility_note: None,
    };
    persist_provider_path_selection(&mut setup, &descriptor, Some("api_key"), NOW);

    assert_eq!(setup.selected_provider.as_deref(), Some("openai"));
    assert_eq!(setup.selected_lane_id.as_deref(), Some("openai"));
    assert_eq!(setup.selected_lane_label.as_deref(), Some("OpenAI (GPT)"));
    assert_eq!(setup.selected_access_mode.as_deref(), Some("api_key"));
    assert!(setup.selected_primary_model.is_none());
    assert!(setup.selected_primary_model_source.is_none());
}

#[test]
fn provider_bootstrap_without_entry_is_blocked() {
    let a = validate_provider_bootstrap(&vec![], "openai", Some("api_key"), false);
    assert_eq!(a.status, "blocked");
    assert!(a.blocking);
    assert_eq!(a.detail, "Runtime health did not return a `openai` provider entry after setup.");
    assert_eq!(a.issue_kind.as_deref(), Some("provider_unavailable"));
    assert_eq!(a.verification_stage.as_deref(), Some("provider_connection"));
}

#[test]
fn provider_bootstrap_healthy_entry_is_ready() {
    let a = validate_provider_bootstrap(&vec![ollama_entry(true, None, None)], "ollama", None, false);
    assert_eq!(a.status, "ready");
    assert!(!a.blocking);
    assert_eq!(a.detail, "Live verification succeeded for provider `ollama` with model `llama3`.");
}

#[test]
fn provider_bootstrap_model_unavailable_can_be_a_warning() {
    let entry = ollama_entry(false, Some("model_unavailable"), Some("not listed"));
    let warn = validate_provider_bootstrap(&vec![entry.clone_entry()], "ollama", None, true);
    assert_eq!(warn.status, "warning");
    assert!(!warn.blocking);
    let block = validate_provider_bootstrap(&vec![entry], "ollama", None, false);
    assert_eq!(block.status, "blocked");
    assert_eq!(
        block.suggested_action.as_deref(),
        Some("Choose or pull a model that `ollama` exposes, then rerun onboarding.")
    );
}

trait CloneEntry {
    fn clone_entry(&self) -> RuntimeHealthProviderEntry;
}

impl CloneEntry for RuntimeHealthProviderEntry {
    fn clone_entry(&self) -> RuntimeHealthProviderEntry {
        RuntimeHealthProviderEntry {
            provider: self.provider.clone(),
            role: self.role.clone(),
            model: self.model.clone(),
            configured: self.configured,
            healthy: self.healthy,
            issue_kind: self.issue_kind.clone(),
            recommendation: self.recommendation.clone(),
            issue: self.issue.clone(),
            model_available: self.model_available,
            limit_snapshot: self.limit_snapshot.clone(),
        }
    }
}

#[test]
fn issue_kind_defaults_to_probe_failed() {
    let entry = ollama_entry(false, None, None);
    assert_eq!(onboarding_provider_issue_kind("ollama", Some("local_runtime"), &entry), "probe_failed");
    let remote = ollama_entry(false, Some("probe_failed"), Some("timed out"));
    assert_eq!(onboarding_provider_issue_kind("ollama", Some("api_key"), &remote), "probe_failed");
}

#[test]
fn verification_detail_without_issue_uses_placeholder() {
    let entry = ollama_entry(false, Some("auth"), None);
    assert_eq!(
        provider_verification_detail("ollama", "auth", &entry),
        "Provider `ollama` rejected live verification due to authentication or access: health probe failed"
    );
    assert_eq!(
        provider_verification_next_action("anthropic", "billing"),
        "Resolve billing or quota for `anthropic`, then rerun onboarding."
    );
}

#[test]
fn runtime_lane_assessment_prefers_first_recommendation() {
    let degraded = runtime_lane_assessment(true, &vec!["use ollama".to_string()], &vec!["warn".to_string()], None);
    assert_eq!(degraded.status, "warning");
    assert_eq!(degraded.detail, "use ollama");
    let only_warning = runtime_lane_assessment(true, &vec![], &vec!["warn".to_string()], None);
    assert_eq!(only_warning.detail, "warn");
    let none = runtime_lane_assessment(true, &vec![], &vec![], None);
    assert_eq!(none.detail, "No healthy control-plane fallback is available yet for the current runtime lane.");
    let healthy = runtime_lane_assessment(false, &vec![], &vec![], Some("team"));
    assert_eq!(healthy.status, "ready");
    assert_eq!(healthy.detail, "Runtime provider lane is healthy for the current `team` deployment path.");
    let solo = runtime_lane_assessment(false, &vec![], &vec![], None);
    assert!(solo.detail.contains(MODE_SOLO));
}

#[test]
fn setup_state_path_is_under_control_root() {
    assert_eq!(setup_state_path("/work"), "/work/.claw/control/setup-state.json");
}

#[test]
fn completing_a_step_twice_changes_no_bookkeeping() {
    let mut setup = new_setup_state(NOW);
    setup.selected_steps = vec!["gateway".to_string(), "model".to_string()];
    setup.blockers = vec!["Gateway: port in use".to_string(), "Model: no key".to_string()];
    mark_setup_state_step_completed(&mut setup, &OnboardingStep::Gateway, NOW);
    let (done, blockers, next) = (setup.completed_steps.clone(), setup.blockers.clone(), setup.next_action.clone());
    mark_setup_state_step_completed(&mut setup, &OnboardingStep::Gateway, "2026-03-20T00:00:00+00:00");
    assert_eq!(setup.completed_steps, done);
    assert_eq!(setup.blockers, blockers);
    assert_eq!(setup.next_action, next);
    assert!(setup.current_step.is_none());
    assert_eq!(setup.updated_at, "2026-03-20T00:00:00+00:00");
}

#[test]
fn started_setup_state_carries_the_wizard_answers() {
    let mut state = OnboardingState::default();
    state.deployment_mode = Some("team".to_string());
    state.deployment_path = Some("/srv/claw".to_string());
    state.remote_connectivity_profile = Some(local_connectivity_profile());
    state.profile = Some("Standard".to_string());
    state.preferred_provider = Some("anthropic".to_string());
    state.selected_lane_id = Some("anthropic-api".to_string());
    state.selected_access_mode = Some("api_key".to_string());
    state.selected_primary_model = Some("sonnet-4".to_string());
    let steps = vec![OnboardingStep::Gateway, OnboardingStep::Model];
    let s = started_setup_state(&state, &steps, "2024-01-01T00:00:00Z");
    assert_eq!(s.status, "in_progress");
    assert_eq!(s.started_at, "2024-01-01T00:00:00Z");
    assert_eq!(s.workspace_action, "new_workspace");
    assert_eq!(s.deployment_mode.as_deref(), Some("team"));
    assert_eq!(s.deployment_path.as_deref(), Some("/srv/claw"));
    assert_eq!(s.remote_connectivity_profile.as_ref().map(|p| p.mode.as_str()), Some("local_only"));
    assert_eq!(s.setup_path.as_deref(), Some("Standard"));
    assert_eq!(s.selected_provider.as_deref(), Some("anthropic"));
    assert_eq!(s.selected_lane_id.as_deref(), Some("anthropic-api"));
    assert_eq!(s.selected_access_mode.as_deref(), Some("api_key"));
    assert_eq!(s.selected_primary_model.as_deref(), Some("sonnet-4"));
    assert_eq!(s.selected_steps, vec!["gateway".to_string(), "model".to_string()]);
    assert_eq!(s.next_action.as_deref(), Some("Complete Gateway Setup"));
    assert_eq!(s.current_step.as_deref(), Some("gateway"));
    assert!(s.completed_steps.is_empty() && s.blockers.is_empty() && s.bootstrap_outcomes.is_empty());

    state.workspace_action = Some("repair_existing".to_string());
    let none = started_setup_state(&state, &vec![], "t");
    assert_eq!(none.workspace_action, "repair_existing");
    assert!(none.next_action.is_none() && none.current_step.is_none());
}

use openrustclaw_cli::self_hosted::{
    configure_mode, current_warnings, default_descriptor, descriptor_for, mode_rank, normalize_mode,
    recent_transition_events, self_hosted_product_events_path, self_hosted_product_path, transition_direction,
    transition_mode, transition_warnings, SelfHostedProductTransitionEvent, SelfHostedProductTransitionRequest,
    MODE_COMPANY, MODE_ENTERPRISE, MODE_SOLO, MODE_TEAM,
};

const NOW: &str = "2026-03-19T00:00:00+00:00";

#[test]
fn configure_mode_persists_manifest() {
    let manifest = configure_mode(MODE_TEAM, Some("shared_team_setup"), Some("selected in onboarding"), NOW).unwrap();
    assert_eq!(manifest.profile.mode, MODE_TEAM);
    assert_eq!(manifest.profile.onboarding_path, "shared_team_setup");
    assert!(manifest.profile.self_hosted);
    assert!(manifest.profile.open_source);
}

#[test]
fn descriptor_for_rejects_unknown_mode() {
    let error = descriptor_for("hosted").err().expect("unknown mode should fail");
    assert!(error.contains("unsupported product mode"));
}

#[test]
fn default_descriptor_points_to_solo_path() {
    let descriptor = default_descriptor();
    assert_eq!(descriptor.mode, MODE_SOLO);
    assert_eq!(descriptor.recommended_runtime_mode, "solo_claw");
    assert!(!descriptor.multi_user);
}

#[test]
fn transition_mode_records_event_and_direction() {
    let current = configure_mode(MODE_TEAM, Some("shared_team_setup"), None, NOW).unwrap();
    let (manifest, event) = transition_mode(
        &SelfHostedProductTransitionRequest {
            target_mode: MODE_COMPANY.to_string(),
            actor: "operator-1".to_string(),
            reason: Some("growing team".to_string()),
            via: Some("test".to_string()),
        },
        &Some(current),
        false,
        false,
        None,
        NOW,
    )
    .unwrap();

    assert_eq!(event.direction, "upgrade");
    assert_eq!(event.from_mode, MODE_TEAM);
    assert_eq!(event.to_mode, MODE_COMPANY);
    assert_eq!(recent_transition_events(vec![event], 5).len(), 1);
    assert_eq!(manifest.profile.mode, MODE_COMPANY);
}

#[test]
fn transition_mode_rejects_blank_actor() {
    let err = transition_mode(
        &SelfHostedProductTransitionRequest {
            target_mode: MODE_COMPANY.to_string(),
            actor: "   ".to_string(),
            reason: None,
            via: None,
        },
        &None,
        false,
        false,
        None,
        NOW,
    )
    .err()
    .unwrap();
    assert_eq!(err, "transition actor must not be empty");
}

#[test]
fn modes_are_normalized_and_ranked() {
    assert_eq!(normalize_mode("  TEAM ").unwrap(), MODE_TEAM);
    assert!(normalize_mode("hosted").is_err());
    assert!(mode_rank(MODE_SOLO) < mode_rank(MODE_TEAM));
    assert!(mode_rank(MODE_TEAM) < mode_rank(MODE_COMPANY));
    assert!(mode_rank(MODE_COMPANY) < mode_rank(MODE_ENTERPRISE));
}

#[test]
fn direction_reverses_between_two_modes() {
    assert_eq!(transition_direction(MODE_SOLO, MODE_ENTERPRISE), "upgrade");
    assert_eq!(transition_direction(MODE_ENTERPRISE, MODE_SOLO), "downgrade");
}

#[test]
fn warnings_list_missing_guardrails() {
    assert!(current_warnings(MODE_COMPANY, false, false, Some("solo_claw")).is_empty());
    let solo = current_warnings(MODE_SOLO, false, false, Some("orchestrated"));
    assert_eq!(solo, vec!["Runtime execution mode is still `orchestrated`; solo product mode recommends `solo_claw`."]);
    let enterprise = current_warnings(MODE_ENTERPRISE, false, false, None);
    assert_eq!(enterprise, vec!["Enterprise mode is selected, but enterprise access is not bootstrapped yet."]);
    let down = current_warnings(MODE_TEAM, true, true, None);
    assert_eq!(down.len(), 2);
    let t = transition_warnings(MODE_SOLO, MODE_ENTERPRISE, false, false, None);
    let _ = t;
}

fn event(at: &str, to: &str) -> SelfHostedProductTransitionEvent {
    SelfHostedProductTransitionEvent {
        created_at: at.to_string(),
        from_mode: MODE_SOLO.to_string(),
        to_mode: to.to_string(),
        direction: "upgrade".to_string(),
        actor: "op".to_string(),
        reason: None,
        via: "cli".to_string(),
        warnings: vec![],
    }
}

#[test]
fn recent_events_are_newest_first_and_show_at_least_one() {
    let events = vec![
        event("2026-01-01T00:00:00Z", "team"),
        event("2026-03-01T00:00:00Z", "company"),
        event("2026-02-01T00:00:00Z", "enterprise"),
    ];
    let top = recent_transition_events(events.clone(), 2);
    assert_eq!(top.len(), 2);
    assert_eq!(top[0].created_at, "2026-03-01T00:00:00Z");
    assert_eq!(top[1].created_at, "2026-02-01T00:00:00Z");
    let one = recent_transition_events(events.clone(), 0);
    assert_eq!(one.len(), 1);
    assert_eq!(one[0].to_mode, "company");
    assert!(recent_transition_events(vec![], 3).is_empty());
}

#[test]
fn product_paths_live_under_control_root() {
    assert_eq!(self_hosted_product_path("/w"), "/w/.claw/control/self-hosted/product-mode.json");
    assert_eq!(self_hosted_product_events_path("/w/"), "/w/.claw/control/self-hosted/product-mode-events.jsonl");
}

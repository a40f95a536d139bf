use openrustclaw_cli::control::{AutonomyPolicy, DecisionLessonSpec, LessonScope};
use openrustclaw_cli::orchestrate::{
    active_run_decisions_path, active_run_events_path, active_run_path, active_runs_root_for,
    apply_lifecycle_transition, apply_stage_update, build_steering_notes, default_active_status,
    default_lifecycle_state, default_run_mode, ensure_runtime_budget, escalate_active_run, estimate_tokens,
    excerpt, finalize_failure, finalize_success, json_payload_candidates, kill_active_run, lifecycle_decision,
    lifecycle_summary_for, make_lesson_id, matching_lessons, pause_active_run, pause_gate,
    record_lifecycle_decision, resume_active_run, rollback_active_run, runs_root_for, scope_matches,
    should_follow_up, should_run_selective_critic, simple_slug, validate_receipt_id, ActiveOrchestrationRun,
    ActiveRunDecisionRecord, ActiveRunInterventionRequest, LifecycleTransition, OrchestrationRequest,
    PauseGate, SupervisionLifecycleSummary, WorkerOutcome,
};

fn parse_first(raw: &str) -> serde_json::Value {
    let c = json_payload_candidates(raw);
    let mut tries: Vec<String> = vec![c.raw.clone()];
    if let Some(f) = c.fenced.clone() {
        tries.push(f);
    }
    if let Some(b) = c.braced.clone() {
        tries.push(b);
    }
    for t in tries {
        if let Ok(v) = serde_json::from_str::<serde_json::Value>(&t) {
            if v.is_object() {
                return v;
            }
        }
    }
    panic!("Failed to parse JSON payload");
}

#[test]
fn parses_json_from_fenced_block() {
    let parsed = parse_first("```json\n{\"final_mode\":\"answer_directly\",\"direct_response\":\"ok\"}\n```");
    assert_eq!(parsed["final_mode"].as_str(), Some("answer_directly"));
    assert_eq!(parsed["direct_response"].as_str(), Some("ok"));
}

#[test]
fn json_candidates_cover_braces_and_inversion() {
    let c = json_payload_candidates("  note {\"a\":1} end ");
    assert!(c.fenced.is_none());
    assert_eq!(c.braced.as_deref(), Some("{\"a\":1}"));
    assert!(!c.braces_inverted);
    let inv = json_payload_candidates("} then {");
    assert!(inv.braced.is_none());
    assert!(inv.braces_inverted);
    let plain = json_payload_candidates("```\n{}\n```");
    assert_eq!(plain.fenced.as_deref(), Some("{}"));
}

fn snapshot() -> ActiveOrchestrationRun {
    ActiveOrchestrationRun {
        run_id: "run-decision".to_string(),
        created_at: "2026-03-19T00:00:00Z".to_string(),
        updated_at: "2026-03-19T00:00:00Z".to_string(),
        started_at: Some("2026-03-19T00:00:01Z".to_string()),
        finished_at: None,
        status: "running".to_string(),
        request: OrchestrationRequest::default(),
        routing: None,
        current_stage: Some("worker_execution".to_string()),
        current_actor_type: Some("worker".to_string()),
        current_actor_id: Some("worker-a".to_string()),
        current_note: Some("running".to_string()),
        lifecycle: SupervisionLifecycleSummary { state: "running".to_string(), ..SupervisionLifecycleSummary::default() },
        pause_requested: false,
        kill_requested: false,
        checkpoint_count: 0,
        trace_count: 0,
        worker_count: 0,
        relationship_count: 0,
        resource_totals: None,
        receipt_id: None,
        receipt_path: None,
        last_error: None,
    }
}

fn transition(state: &str, pause: bool, kill: bool, rollback: bool, reference: Option<&str>) -> LifecycleTransition {
    LifecycleTransition {
        pause_requested: pause,
        kill_requested: kill,
        state: state.to_string(),
        intervention_required: true,
        escalation_requested: state == "escalated",
        rollback_requested: rollback,
        rollback_reference: reference.map(|s| s.to_string()),
        stage: "operator_intervention".to_string(),
        note: format!("{state} by operator"),
        status: state.to_string(),
        resulting_state: state.to_string(),
    }
}

#[test]
fn lifecycle_actions_record_decisions_and_rolled_back_state() {
    let mut run = snapshot();
    let escalate = escalate_active_run(&ActiveRunInterventionRequest {
        requested_by: Some("owner-1".to_string()),
        reason: Some("worker needs approval".to_string()),
        rollback_reference: None,
    });
    assert_eq!(escalate.action, "escalate");
    assert_eq!(escalate.requested_by, "owner-1");
    let t = transition("escalated", false, false, false, None);
    apply_lifecycle_transition(&mut run, &t, "t1");
    let d1 = lifecycle_decision(&escalate, &t, "d1".to_string(), "t1".to_string());
    record_lifecycle_decision(&mut run, &d1, "t1");
    assert_eq!(run.lifecycle.state, "escalated");
    assert!(run.lifecycle.intervention_required);

    let rollback = rollback_active_run(&ActiveRunInterventionRequest {
        requested_by: Some("owner-1".to_string()),
        reason: Some("unsafe path".to_string()),
        rollback_reference: Some("receipt-17.json".to_string()),
    });
    let t2 = transition("rollback_requested", false, true, true, Some("receipt-17.json"));
    apply_lifecycle_transition(&mut run, &t2, "t2");
    let d2 = lifecycle_decision(&rollback, &t2, "d2".to_string(), "t2".to_string());
    record_lifecycle_decision(&mut run, &d2, "t2");
    assert!(run.kill_requested);
    assert!(run.lifecycle.rollback_requested);
    assert_eq!(d2.action, "rollback");
    assert_eq!(d2.rollback_reference.as_deref(), Some("receipt-17.json"));
    assert_eq!(run.lifecycle.decision_count, 1);

    finalize_failure(&mut run, "rollback requested by operator", "t3");
    assert_eq!(run.status, "rolled_back");
    assert_eq!(run.lifecycle.state, "rolled_back");
    assert_eq!(run.last_error.as_deref(), Some("rollback requested by operator"));
}

#[test]
fn active_run_state_updates_support_pause_resume_and_kill() {
    let mut run = snapshot();
    assert_eq!(pause_active_run().action, "pause");
    assert_eq!(resume_active_run().action, "resume");
    assert_eq!(kill_active_run().requested_by, "operator");

    run.pause_requested = true;
    assert!(matches!(pause_gate(&run), PauseGate::Wait { announce: true }));
    apply_stage_update(&mut run, "paused", "worker_execution", "worker", "worker-a", "paused by operator", "t1");
    assert_eq!(run.lifecycle.state, "paused");
    assert!(matches!(pause_gate(&run), PauseGate::Wait { announce: false }));
    run.pause_requested = false;
    assert!(matches!(pause_gate(&run), PauseGate::Resume));
    apply_stage_update(&mut run, "running", "worker_execution", "worker", "worker-a", "resumed by operator", "t2");
    assert!(matches!(pause_gate(&run), PauseGate::Proceed));
    run.kill_requested = true;
    assert!(matches!(pause_gate(&run), PauseGate::Kill));
    finalize_failure(&mut run, "orchestration run killed by operator", "t3");
    assert_eq!(run.status, "killed");
}

#[test]
fn stage_update_sets_start_time_once() {
    let mut run = snapshot();
    run.started_at = None;
    run.status = "queued".to_string();
    apply_stage_update(&mut run, "running", "planning", "orchestrator", "main", "planning", "t5");
    assert_eq!(run.started_at.as_deref(), Some("t5"));
    apply_stage_update(&mut run, "running", "planning", "orchestrator", "main", "again", "t6");
    assert_eq!(run.started_at.as_deref(), Some("t5"));
    assert_eq!(run.updated_at, "t6");
    finalize_success(&mut run, "main", "t7");
    assert_eq!(run.status, "completed");
    assert_eq!(run.current_actor_id.as_deref(), Some("main"));
    assert!(run.last_error.is_none());
}

#[test]
fn lifecycle_summary_counts_decisions() {
    let decisions = vec![
        ActiveRunDecisionRecord {
            decision_id: "a".to_string(),
            created_at: "t1".to_string(),
            action: "pause".to_string(),
            requested_by: "operator".to_string(),
            reason: None,
            rollback_reference: None,
            resulting_state: "paused".to_string(),
        },
        ActiveRunDecisionRecord {
            decision_id: "b".to_string(),
            created_at: "t2".to_string(),
            action: "resume".to_string(),
            requested_by: "operator".to_string(),
            reason: None,
            rollback_reference: None,
            resulting_state: "running".to_string(),
        },
    ];
    let s = lifecycle_summary_for(None, &decisions);
    assert_eq!(s.state, "queued");
    assert_eq!(s.decision_count, 2);
    assert_eq!(s.last_decision_at.as_deref(), Some("t2"));
}

#[test]
fn defaults_and_paths() {
    assert_eq!(default_active_status(), "queued");
    assert_eq!(default_lifecycle_state(), "queued");
    assert_eq!(default_run_mode(), "auto");
    assert_eq!(runs_root_for("/w"), "/w/.claw/control/orchestration-runs");
    assert_eq!(active_runs_root_for("/w"), "/w/.claw/control/orchestration-active");
    assert_eq!(active_run_path("/w", "r1"), "/w/.claw/control/orchestration-active/r1.json");
    assert_eq!(active_run_events_path("/w", "r1"), "/w/.claw/control/orchestration-active/r1.events.jsonl");
    assert_eq!(active_run_decisions_path("/w", "r1"), "/w/.claw/control/orchestration-active/r1.decisions.jsonl");
}

#[test]
fn text_helpers() {
    assert_eq!(excerpt("héllo world", 5), "héllo");
    assert_eq!(excerpt("ab", 10), "ab");
    assert_eq!(estimate_tokens(""), 0);
    assert_eq!(estimate_tokens("abcd"), 1);
    assert_eq!(estimate_tokens("abcde"), 2);
    assert_eq!(simple_slug("  Run #42: Hello, World!! "), "run-42-hello-world");
    assert_eq!(simple_slug("---"), "");
    assert_eq!(make_lesson_id("Run 7", 3, "lesson_candidate"), "reflection-run-7-3-lesson-candidate");
    assert!(validate_receipt_id("receipt-1.json").is_ok());
    assert_eq!(validate_receipt_id("../x").err().as_deref(), Some("invalid receipt id"));
    assert_eq!(validate_receipt_id("a\\b").err().as_deref(), Some("invalid receipt id"));
}

#[test]
fn runtime_budget_is_enforced() {
    assert!(ensure_runtime_budget(9, 10).is_ok());
    assert_eq!(ensure_runtime_budget(10, 10).err().as_deref(), Some("orchestration runtime budget exceeded 10s"));
}

fn policy() -> AutonomyPolicy {
    AutonomyPolicy {
        autonomy_level: "bounded".to_string(),
        yolo_mode: false,
        steering_enabled: true,
        decision_learning_enabled: true,
        critic_enabled: true,
        max_delegations: 3,
        max_iterations: 4,
        max_runtime_secs: 900,
        max_lesson_hints: 2,
        approval_policy: "on_risk".to_string(),
    }
}

fn lesson(id: &str, rank: u32, active: bool, provider: Option<&str>) -> DecisionLessonSpec {
    DecisionLessonSpec {
        id: id.to_string(),
        active,
        scope: LessonScope {
            task_id: None,
            category: None,
            claw_id: None,
            model_profile_id: None,
            provider: provider.map(|s| s.to_string()),
            autonomy_level: None,
            execution_mode: None,
        },
        signal: "s".to_string(),
        recommendation: format!("do {id}"),
        confidence_rank: rank,
    }
}

#[test]
fn steering_notes_list_policy_and_lessons() {
    let mut p = policy();
    p.yolo_mode = true;
    p.critic_enabled = false;
    let notes = build_steering_notes(&p, &vec![lesson("l1", 5, true, None)]);
    assert_eq!(
        notes[0],
        "autonomy=bounded approval_policy=on_risk max_delegations=3 max_iterations=4 max_runtime_secs=900"
    );
    assert_eq!(notes.len(), 4);
    assert_eq!(notes[2], "critic loop is disabled; favor conservative execution");
    assert_eq!(notes[3], "lesson l1: do l1");
}

#[test]
fn lessons_are_filtered_ranked_and_capped() {
    let request = OrchestrationRequest::default();
    let lessons = vec![
        lesson("b", 5, true, None),
        lesson("a", 5, true, None),
        lesson("z", 9, true, Some("openai")),
        lesson("x", 7, false, None),
        lesson("c", 1, true, Some("anthropic")),
    ];
    let picked = matching_lessons(lessons, &request, "main", "default", "anthropic", "bounded", "solo_claw", 2);
    let ids: Vec<&str> = picked.iter().map(|l| l.id.as_str()).collect();
    assert_eq!(ids, vec!["a", "b"]);
    assert!(scope_matches(None, Some("x")));
    assert!(!scope_matches(Some("x"), None));
    assert!(scope_matches(Some("x"), Some("x")));
}

#[test]
fn follow_up_and_critic_decisions() {
    let p = policy();
    let w = |status: &str, q: usize, low: bool| WorkerOutcome {
        status: status.to_string(),
        question_count: q,
        confidence_below_follow_up: low,
        confidence_below_critic: low,
    };
    assert!(should_follow_up(&p, &w("failed", 0, false), 0));
    assert!(!should_follow_up(&p, &w("failed", 0, false), 3));
    assert!(!should_follow_up(&p, &w("completed", 0, false), 0));
    assert!(should_follow_up(&p, &w("completed", 1, false), 0));
    assert!(should_run_selective_critic(&p, &vec![w("completed", 0, false), w("completed", 0, true)]));
    assert!(!should_run_selective_critic(&p, &vec![w("completed", 0, false)]));
}

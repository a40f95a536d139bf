use openrustclaw_cli::control::{AutonomyPolicy, DecisionLessonSpec, LessonScope};
use openrustclaw_cli::order::sort_strings;
use openrustclaw_cli::orchestrate::{
    build_claw_system_prompt, OrchestrationRequestOverrides, ResolvedModelDecision, RoutingDecision,
};

fn autonomy() -> AutonomyPolicy {
    AutonomyPolicy {
        autonomy_level: "balanced".to_string(),
        yolo_mode: false,
        steering_enabled: true,
        decision_learning_enabled: true,
        critic_enabled: false,
        max_delegations: 3,
        max_iterations: 12,
        max_runtime_secs: 900,
        max_lesson_hints: 2,
        approval_policy: "on_risk".to_string(),
    }
}

fn routing(lessons: Vec<DecisionLessonSpec>, notes: Vec<String>) -> RoutingDecision {
    RoutingDecision {
        execution_mode: "direct".to_string(),
        route_source: "default".to_string(),
        task_id: Some("t-1".to_string()),
        category: None,
        selected_claw_id: "main".to_string(),
        selected_claw_role: "assistant".to_string(),
        selected_agent_profile_id: "default".to_string(),
        selected_model_profile_id: "fast".to_string(),
        selected_model: ResolvedModelDecision {
            requested_profile_id: "fast".to_string(),
            selected_profile_id: "fast".to_string(),
            provider: "anthropic".to_string(),
            model: "sonnet".to_string(),
            fallback_path: Vec::new(),
            warnings: Vec::new(),
        },
        available_workers: Vec::new(),
        autonomy: autonomy(),
        allow_shared_context: false,
        isolation_mode: "strict".to_string(),
        applied_lessons: lessons,
        steering_notes: notes,
        warnings: Vec::new(),
        request_overrides: OrchestrationRequestOverrides::default(),
    }
}

fn lesson(signal: &str, recommendation: &str) -> DecisionLessonSpec {
    DecisionLessonSpec {
        id: "l".to_string(),
        active: true,
        scope: LessonScope {
            task_id: None,
            category: None,
            claw_id: None,
            model_profile_id: None,
            provider: None,
            autonomy_level: None,
            execution_mode: None,
        },
        signal: signal.to_string(),
        recommendation: recommendation.to_string(),
        confidence_rank: 1,
    }
}

#[test]
fn system_prompt_lists_identity_policy_and_defaults() {
    let r = routing(Vec::new(), Vec::new());
    let prompt =
        build_claw_system_prompt("main", "assistant", "task", "default", "concise", &r, "/ws", "direct", &Vec::new());
    let lines: Vec<&str> = prompt.split('\n').collect();
    assert_eq!(lines.len(), 24);
    assert_eq!(lines[0], "You are Claw 'main' operating in OpenRustClaw.");
    assert_eq!(lines[1], "Role: assistant");
    assert_eq!(lines[2], "Agent profile: default");
    assert_eq!(lines[3], "Memory scope: task");
    assert_eq!(lines[7], "Shared context allowed: false");
    assert_eq!(lines[11], "Steering enabled: true");
    assert_eq!(lines[14], "Max delegations: 3");
    assert_eq!(lines[16], "Max runtime secs: 900");
    assert_eq!(lines[17], "Workspace: /ws");
    assert_eq!(lines[18], "Task category: -");
    assert_eq!(lines[19], "Task id: t-1");
    assert_eq!(lines[21], "Steering notes: -");
    assert_eq!(lines[22], "Decision lessons: none");
    assert!(lines[23].starts_with("Stay within your assigned responsibility."));
}

#[test]
fn system_prompt_quotes_notes_and_lessons() {
    let r = routing(
        vec![lesson("timeouts", "use the fast lane"), lesson("long tasks", "delegate")],
        vec!["keep it short".to_string(), "cite files".to_string()],
    );
    let confidences = vec!["0.80".to_string(), "0.55".to_string()];
    let prompt =
        build_claw_system_prompt("w", "worker", "shared", "p", "full", &r, "/ws", "orchestrated", &confidences);
    let lines: Vec<&str> = prompt.split('\n').collect();
    assert_eq!(lines[21], "Steering notes: keep it short | cite files");
    assert_eq!(
        lines[22],
        "Decision lessons: timeouts => use the fast lane (confidence 0.80); long tasks => delegate (confidence 0.55)"
    );
}

#[test]
fn sort_strings_orders_bytewise() {
    let v = vec!["b".to_string(), "a".to_string(), "B".to_string(), "ab".to_string(), "a".to_string()];
    assert_eq!(sort_strings(v), vec!["B", "a", "a", "ab", "b"]);
    assert!(sort_strings(Vec::new()).is_empty());
}

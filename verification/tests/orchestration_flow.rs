use openrustclaw_cli::orchestrate::{ResolvedModelDecision, WorkerOutcome};
use openrustclaw_cli::orchestration::{
    follow_up_user_prompt, planner_system_prompt, planner_user_prompt, synthesis_system_prompt,
    direct_run_record, orchestration_step, start_orchestration, CompletionOutcome, Delegation, OrchestrationAction,
    OrchestrationEvent, OrchestrationPhase, RunPolicy,
};

fn policy(critic: bool) -> RunPolicy {
    RunPolicy { steering_enabled: true, critic_enabled: critic, max_delegations: 2, max_iterations: 3, max_runtime_secs: 600 }
}

fn delegation(id: &str) -> Delegation {
    Delegation { claw_id: id.to_string(), instruction: format!("do {id}"), reason: format!("{id} knows") }
}

fn outcome(status: &str, questions: usize) -> WorkerOutcome {
    WorkerOutcome {
        status: status.to_string(),
        question_count: questions,
        confidence_below_follow_up: false,
        confidence_below_critic: false,
    }
}

#[test]
fn an_unparsed_plan_answers_with_the_planner_text() {
    let (s, a) = start_orchestration("hi".to_string(), policy(true), 0);
    assert!(matches!(a, OrchestrationAction::AskPlanner { max_delegations: 2 }));
    let (s, a) = orchestration_step(
        s,
        OrchestrationEvent::Planned {
            parsed: false,
            final_mode: None,
            direct_response: None,
            delegations: vec![],
            raw: "plain answer".to_string(),
        },
        1,
    );
    assert!(matches!(a, OrchestrationAction::Finish { ref final_output } if final_output == "plain answer"));
    assert_eq!(s.phase, OrchestrationPhase::Done);
}

#[test]
fn a_delegated_plan_runs_workers_then_the_critic_and_the_synthesis() {
    let (s, _) = start_orchestration("req".to_string(), policy(true), 0);
    let (s, a) = orchestration_step(
        s,
        OrchestrationEvent::Planned {
            parsed: true,
            final_mode: Some("delegate".to_string()),
            direct_response: None,
            delegations: vec![delegation("a"), delegation("b"), delegation("c")],
            raw: "{}".to_string(),
        },
        1,
    );
    assert!(matches!(a, OrchestrationAction::AskPlanReview));
    let (s, a) = orchestration_step(
        s,
        OrchestrationEvent::PlanReviewed { action: Some("continue".to_string()), note: Some("  fine  ".to_string()) },
        2,
    );
    match a {
        OrchestrationAction::AskWorker { index, claw_id, user_prompt, round } => {
            assert_eq!((index, claw_id.as_str(), round), (0, "a", 0));
            assert_eq!(
                user_prompt,
                "Original request:\nreq\n\nAssigned subtask:\ndo a\n\nReason for assignment:\na knows\n\nFollow-up round: 0"
            );
        }
        _ => panic!("expected the first worker"),
    }
    assert_eq!(s.notes, vec!["critic: fine".to_string()]);
    assert_eq!(s.delegations.len(), 2);
    // The first worker asks a question: a follow-up review, then a second round.
    let (s, a) = orchestration_step(
        s,
        OrchestrationEvent::WorkerAnswered { outcome: outcome("completed", 1), full_output: "out a".to_string() },
        3,
    );
    assert!(matches!(a, OrchestrationAction::AskFollowUpReview { index: 0 }));
    let (s, a) = orchestration_step(
        s,
        OrchestrationEvent::FollowUpReviewed {
            action: Some("follow_up".to_string()),
            instruction: Some(" ".to_string()),
            note: Some("dig".to_string()),
        },
        4,
    );
    match a {
        OrchestrationAction::AskWorker { index, round, ref user_prompt, .. } => {
            assert_eq!((index, round), (0, 1));
            assert!(user_prompt.contains("out a\n\nAddress the open questions and improve confidence before returning."));
        }
        _ => panic!("expected a follow-up round"),
    }
    assert_eq!(s.notes[1], "follow-up 1 for worker 'a': dig");
    let (s, _) = orchestration_step(
        s,
        OrchestrationEvent::WorkerAnswered { outcome: outcome("failed", 0), full_output: "x".to_string() },
        5,
    );
    let (s, a) = orchestration_step(
        s,
        OrchestrationEvent::FollowUpReviewed { action: Some("escalate".to_string()), instruction: None, note: Some("ask".to_string()) },
        6,
    );
    assert!(matches!(a, OrchestrationAction::AskWorker { index: 1, round: 0, .. }));
    assert_eq!(s.results[0].status, "needs_input");
    assert_eq!(s.escalated, vec![true]);
    let (s, a) = orchestration_step(
        s,
        OrchestrationEvent::WorkerAnswered { outcome: outcome("completed", 0), full_output: "out b".to_string() },
        7,
    );
    assert!(matches!(a, OrchestrationAction::AskQualityReview));
    let (s, a) = orchestration_step(s, OrchestrationEvent::QualityReviewed { note: Some("ok".to_string()) }, 8);
    assert!(matches!(a, OrchestrationAction::AskSynthesis));
    assert_eq!(s.notes[2], "quality review: ok");
    let (_, a) = orchestration_step(s, OrchestrationEvent::Synthesized("final".to_string()), 9);
    assert!(matches!(a, OrchestrationAction::Finish { ref final_output } if final_output == "final"));
}

#[test]
fn the_budget_stops_the_run() {
    let (s, a) = start_orchestration("req".to_string(), policy(false), 600);
    assert!(matches!(a, OrchestrationAction::Fail(ref m) if m == "orchestration runtime budget exceeded 600s"));
    assert_eq!(s.phase, OrchestrationPhase::Done);
}

#[test]
fn a_direct_run_records_its_completion() {
    let executable = ResolvedModelDecision {
        requested_profile_id: "p".to_string(),
        selected_profile_id: "p".to_string(),
        provider: "openai".to_string(),
        model: "gpt".to_string(),
        fallback_path: vec![],
        warnings: vec![],
    };
    let outcome = CompletionOutcome {
        content: "answer".to_string(),
        estimated_input_tokens: 3,
        estimated_output_tokens: 2,
        duration_ms: 10,
    };
    let r = direct_run_record("q", "claw-a", &executable, "sys".to_string(), &outcome, &vec!["steer".to_string()]);
    assert_eq!(r.mode, "direct");
    assert_eq!(r.final_output, "answer");
    assert_eq!(r.checkpoints.len(), 1);
    assert_eq!(r.transcript.len(), 3);
    assert_eq!(r.transcript[2].parent_trace_id.as_deref(), Some(r.trace[0].trace_id.as_str()));
    assert_eq!(r.reflection_notes, vec!["steer".to_string()]);
    assert_eq!((r.final_provider.as_str(), r.final_model.as_str()), ("openai", "gpt"));
}

#[test]
fn the_run_prompts_carry_their_schemas_and_parts() {
    let p = planner_system_prompt("BASE", 2, &vec!["w1".to_string(), "w2".to_string()]);
    assert!(p.starts_with("BASE\nReturn JSON only with this schema:\n{\"final_mode\":\"delegate|answer_directly\""));
    assert!(p.ends_with("keep it to at most 2 worker tasks and only use these claw ids: w1, w2."));
    assert_eq!(planner_user_prompt("req", "[]"), "Original request:\nreq\n\nAvailable workers:\n[]");
    assert_eq!(
        follow_up_user_prompt("req", "{}", "do it"),
        "Original request:\nreq\n\nWorker result:\n{}\n\nCurrent instruction:\ndo it"
    );
    assert!(synthesis_system_prompt("B").starts_with("B\nSynthesize the final user-facing answer"));
}

use openrustclaw_cli::listings::{
    last_entries, log_entry_lines, newest_run_summaries, run_summary, select_active_runs, validate_active_run_id,
    RunReceiptFacts,
};
use openrustclaw_cli::orchestrate::{ActiveOrchestrationRun, OrchestrationRequest, SupervisionLifecycleSummary};

fn active(run_id: &str, updated_at: &str, status: &str) -> ActiveOrchestrationRun {
    ActiveOrchestrationRun {
        run_id: run_id.to_string(),
        created_at: "2026-03-19T00:00:00Z".to_string(),
        updated_at: updated_at.to_string(),
        started_at: None,
        finished_at: None,
        status: status.to_string(),
        request: OrchestrationRequest::default(),
        routing: None,
        current_stage: None,
        current_actor_type: None,
        current_actor_id: None,
        current_note: None,
        lifecycle: SupervisionLifecycleSummary::default(),
        pause_requested: false,
        kill_requested: false,
        checkpoint_count: 0,
        trace_count: 0,
        worker_count: 0,
        relationship_count: 0,
        resource_totals: None,
        receipt_id: None,
        receipt_path: None,
        last_error: None,
    }
}

fn facts(run_id: &str, created_at: &str, statuses: &[&str]) -> RunReceiptFacts {
    RunReceiptFacts {
        run_id: run_id.to_string(),
        created_at: created_at.to_string(),
        mode: "direct".to_string(),
        route_source: "default_claw".to_string(),
        approval_policy: "side_effects".to_string(),
        final_claw_id: "claw-a".to_string(),
        final_provider: "openrouter".to_string(),
        final_model: "test".to_string(),
        worker_statuses: statuses.iter().map(|s| s.to_string()).collect(),
        escalation_recommended: None,
        lifecycle_state: "running".to_string(),
        decision_count: 0,
        receipt_path: format!("/ws/{run_id}.json"),
    }
}

#[test]
fn active_runs_are_listed_newest_first() {
    let runs = vec![
        active("a", "2026-03-19T00:00:01Z", "running"),
        active("b", "2026-03-19T00:00:03Z", "completed"),
        active("c", "2026-03-19T00:00:02Z", "paused"),
    ];
    let listed = select_active_runs(runs, true, 10);
    let ids: Vec<&str> = listed.iter().map(|r| r.run_id.as_str()).collect();
    assert_eq!(ids, vec!["c", "a"]);

    let runs = vec![
        active("a", "2026-03-19T00:00:01Z", "running"),
        active("b", "2026-03-19T00:00:03Z", "killed"),
        active("c", "2026-03-19T00:00:02Z", "queued"),
    ];
    let listed = select_active_runs(runs, false, 2);
    let ids: Vec<&str> = listed.iter().map(|r| r.run_id.as_str()).collect();
    assert_eq!(ids, vec!["b", "c"]);
}

#[test]
fn list_runs_returns_saved_receipts() {
    let summary = run_summary("run-1.json".to_string(), facts("run-1", "2026-03-19T00:00:00Z", &["failed", "needs_input", "completed", "failed"]));
    assert_eq!(summary.receipt_id, "run-1.json");
    assert_eq!(summary.run_id, "run-1");
    assert_eq!(summary.worker_count, 4);
    assert_eq!(summary.failed_count, 2);
    assert_eq!(summary.needs_input_count, 1);
    assert!(!summary.escalation_recommended);
    let older = run_summary("run-0.json".to_string(), facts("run-0", "2026-03-18T00:00:00Z", &[]));
    let newer = run_summary("run-2.json".to_string(), facts("run-2", "2026-03-20T00:00:00Z", &[]));
    let listed = newest_run_summaries(vec![summary, older, newer], 2);
    let ids: Vec<&str> = listed.iter().map(|r| r.run_id.as_str()).collect();
    assert_eq!(ids, vec!["run-2", "run-1"]);
}

#[test]
fn logs_keep_their_last_entries() {
    let lines = log_entry_lines("{\"a\":1}\r\n\n  \n{\"b\":2}\n{\"c\":3}\n");
    assert_eq!(lines, vec!["{\"a\":1}", "{\"b\":2}", "{\"c\":3}"]);
    assert_eq!(last_entries(lines.clone(), 2), vec!["{\"b\":2}", "{\"c\":3}"]);
    assert_eq!(last_entries(lines, 10).len(), 3);
    assert!(validate_active_run_id("run-1").is_ok());
    assert_eq!(validate_active_run_id("../x").err().unwrap(), "invalid active run id");
    assert_eq!(validate_active_run_id("a\\b").err().unwrap(), "invalid active run id");
}

#[test]
fn runs_with_equal_stamps_keep_their_order() {
    let runs = vec![
        active("first", "2026-03-19T00:00:01Z", "running"),
        active("newest", "2026-03-19T00:00:05Z", "running"),
        active("second", "2026-03-19T00:00:01Z", "paused"),
        active("third", "2026-03-19T00:00:01Z", "running"),
    ];
    let listed = select_active_runs(runs, false, 10);
    let ids: Vec<&str> = listed.iter().map(|r| r.run_id.as_str()).collect();
    assert_eq!(ids, vec!["newest", "first", "second", "third"]);
}

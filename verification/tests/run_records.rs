use openrustclaw_cli::orchestrate::{make_checkpoint, make_relationship, make_trace_entry, make_transcript_entry};

fn uuid_shaped(id: &str) -> bool {
    let chars: Vec<char> = id.chars().collect();
    chars.len() == 36 && chars[8] == '-' && chars[13] == '-' && chars[18] == '-' && chars[23] == '-'
}

#[test]
fn checkpoints_carry_their_fields_and_a_fresh_id() {
    let a = make_checkpoint("route", "completed", "routed", Some("claw-a"), None, Some("openai"), Some("gpt"), None, Some("out".to_string()));
    let b = make_checkpoint("route", "completed", "routed", None, None, None, None, None, None);
    assert!(uuid_shaped(&a.checkpoint_id));
    assert_ne!(a.checkpoint_id, b.checkpoint_id);
    assert_eq!(a.stage, "route");
    assert_eq!(a.claw_id.as_deref(), Some("claw-a"));
    assert_eq!(a.provider.as_deref(), Some("openai"));
    assert_eq!(a.output_excerpt.as_deref(), Some("out"));
    assert!(!a.created_at.is_empty());
}

#[test]
fn trace_relationship_and_transcript_records() {
    let t = make_trace_entry(
        "worker", "worker", "w-1", Some("parent"), "ok", None, None, None, None, "done", None, None, Some(3), Some(4), Some(5),
    );
    assert!(uuid_shaped(&t.trace_id));
    assert_eq!(t.parent_trace_id.as_deref(), Some("parent"));
    assert_eq!((t.estimated_input_tokens, t.estimated_output_tokens, t.duration_ms), (Some(3), Some(4), Some(5)));
    let r = make_relationship("run-1", "w-1", "worker", Some("d-1"), Some("claw"), None, "delegate");
    assert!(uuid_shaped(&r.relationship_id));
    assert_eq!((r.parent_run_id.as_str(), r.child_kind.as_str()), ("run-1", "worker"));
    let m = make_transcript_entry("plan", "claw", "claw-a", "assistant", "hello", None, Some("d-1"));
    assert!(uuid_shaped(&m.transcript_id));
    assert_eq!((m.role.as_str(), m.content.as_str()), ("assistant", "hello"));
    assert_eq!(m.delegation_id.as_deref(), Some("d-1"));
}

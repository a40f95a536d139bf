use openrustclaw_cli::schedule::{
    inline_job_fields, manifest_job_fields, manifest_sync_action, missing_manifest_jobs, next_run_text,
    tally_sync_actions, trigger_from_stored, StoredField, StoredTriggerConfig, TaskTrigger,
};

fn config() -> StoredTriggerConfig {
    StoredTriggerConfig {
        interval_secs: StoredField::Absent,
        interval_seconds: StoredField::Absent,
        run_at: StoredField::Absent,
        event_name: StoredField::Absent,
        depends_on: None,
    }
}

#[test]
fn stored_triggers_export_with_defaults() {
    let mut c = config();
    c.interval_seconds = StoredField::Value(90);
    assert!(matches!(trigger_from_stored("interval", c), Ok(TaskTrigger::Interval { every_seconds: 90 })));
    let mut c = config();
    c.interval_secs = StoredField::OtherKind;
    c.interval_seconds = StoredField::Value(90);
    assert!(matches!(trigger_from_stored("interval", c), Ok(TaskTrigger::Interval { every_seconds: 3600 })));
    let mut c = config();
    c.interval_secs = StoredField::Value(15);
    assert!(matches!(trigger_from_stored("interval", c), Ok(TaskTrigger::Interval { every_seconds: 15 })));

    let mut c = config();
    c.run_at = StoredField::Value("2026-01-01T00:00:00Z".to_string());
    assert!(matches!(trigger_from_stored("absolute", c), Ok(TaskTrigger::Absolute { ref at }) if at == "2026-01-01T00:00:00Z"));
    assert!(matches!(trigger_from_stored("event", config()), Ok(TaskTrigger::Event { ref event_name }) if event_name.is_empty()));
    let mut c = config();
    c.depends_on = Some(vec!["a".to_string()]);
    assert!(matches!(trigger_from_stored("dependency", c), Ok(TaskTrigger::Dependency { ref depends_on }) if depends_on == &vec!["a".to_string()]));
    let err = trigger_from_stored("cron", config()).err().unwrap();
    assert_eq!(err, "Unsupported trigger_type for export: cron");
}

#[test]
fn manifest_sync_actions_and_tally() {
    assert_eq!(manifest_sync_action(Some("h1"), "h1"), "unchanged");
    assert_eq!(manifest_sync_action(Some("h0"), "h1"), "updated");
    assert_eq!(manifest_sync_action(None, "h1"), "created");
    let actions = vec!["created".to_string(), "unchanged".to_string(), "updated".to_string(), "created".to_string()];
    assert_eq!(tally_sync_actions(&actions), (2, 1, 1));
}

#[test]
fn sync_pauses_jobs_of_missing_manifests() {
    let rows = vec![
        ("job-a".to_string(), "/ws/tasks/a.yaml".to_string()),
        ("job-b".to_string(), "/ws/tasks/b.yaml".to_string()),
        ("job-c".to_string(), "/ws/tasks/c.yaml".to_string()),
    ];
    let seen = vec!["/ws/tasks/b.yaml".to_string()];
    assert_eq!(missing_manifest_jobs(&rows, &seen), vec!["job-a", "job-c"]);
}

#[test]
fn job_fields_and_defaults() {
    let err = inline_job_fields(None, Some("w"), None).err().unwrap();
    assert_eq!(err, "--name is required when --file is not used");
    let err = inline_job_fields(Some("n"), None, None).err().unwrap();
    assert_eq!(err, "--workflow is required when --file is not used");
    let (n, w, d) = inline_job_fields(Some("nightly"), Some("digest"), None).unwrap();
    assert_eq!((n.as_str(), w.as_str(), d.as_str()), ("nightly", "digest", "Auto-created job for workflow digest"));
    let (d, state, retries) = manifest_job_fields(None, "reminder", false, None);
    assert_eq!(d, "Task manifest for workflow reminder");
    assert_eq!(state, "paused");
    assert_eq!(retries, 3);
    let (_, state, retries) = manifest_job_fields(Some("x"), "reminder", true, Some(5));
    assert_eq!(state, "active");
    assert_eq!(retries, 5);
    assert_eq!(next_run_text(None), "Event-triggered");
    assert_eq!(next_run_text(Some("t")), "t");
}

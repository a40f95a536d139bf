use openrustclaw_cli::schedule::notes_path_for_manifest_path;

#[test]
fn notes_path_is_scoped_under_artifacts_folder() {
    assert_eq!(
        notes_path_for_manifest_path("/tmp/work/.claw/tasks/daily.yaml"),
        "/tmp/work/.claw/tasks/_artifacts/daily/notes.md"
    );
}

#[test]
fn notes_path_of_relative_manifest() {
    assert_eq!(notes_path_for_manifest_path("daily.yaml"), "_artifacts/daily/notes.md");
    assert_eq!(notes_path_for_manifest_path("tasks/.hidden"), "tasks/_artifacts/.hidden/notes.md");
    assert_eq!(notes_path_for_manifest_path("/"), "./_artifacts/task/notes.md");
}

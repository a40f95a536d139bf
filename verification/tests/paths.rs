use openrustclaw_cli::paths::{control_root_for, join};

#[test]
fn join_follows_path_join() {
    assert_eq!(join("/a", "b"), "/a/b");
    assert_eq!(join("/a/", "b"), "/a/b");
    assert_eq!(join("", "b"), "b");
    assert_eq!(join("/a", "/etc/x"), "/etc/x");
    assert_eq!(join("/a", ""), "/a/");
}

#[test]
fn control_root_is_under_claw() {
    assert_eq!(control_root_for("/work"), "/work/.claw/control");
}

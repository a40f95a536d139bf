use openrustclaw_cli::session::{
    close_status, parse_platform, parse_session_type, parse_status, session_provider_chain, session_provider_names,
    session_type_label, status_label, SessionKind, SessionPlatform, SessionStatusKind,
};

#[test]
fn session_arguments_are_read_in_any_case() {
    assert_eq!(parse_status("Active"), Some(SessionStatusKind::Active));
    assert_eq!(parse_status("ARCHIVED"), Some(SessionStatusKind::Archived));
    assert_eq!(parse_status("closed"), Some(SessionStatusKind::Closed));
    assert_eq!(parse_status("gone"), None);
    assert_eq!(status_label(SessionStatusKind::Archived), "archived");
    assert_eq!(parse_session_type("Group"), SessionKind::Group);
    assert_eq!(parse_session_type("isolated"), SessionKind::Isolated);
    assert_eq!(parse_session_type("anything"), SessionKind::Dm);
    assert_eq!(session_type_label(SessionKind::Dm), "dm");
    assert_eq!(parse_platform("Telegram"), SessionPlatform::Telegram);
    assert_eq!(parse_platform("CLI"), SessionPlatform::Cli);
    assert_eq!(parse_platform("api"), SessionPlatform::Api);
    assert_eq!(parse_platform("web"), SessionPlatform::WebChat);
    assert_eq!(close_status(true), (SessionStatusKind::Archived, "archived"));
    assert_eq!(close_status(false), (SessionStatusKind::Closed, "closed"));
}

#[test]
fn session_providers_are_tried_once_each() {
    let names = session_provider_names(
        "anthropic",
        &vec!["openai".to_string(), "anthropic".to_string(), "ollama".to_string(), "openai".to_string()],
    );
    assert_eq!(names, vec!["anthropic", "openai", "ollama"]);
}

#[test]
fn session_chain_skips_later_failures() {
    let chain = session_provider_chain(&vec![None, Some("no key".to_string()), None]).unwrap();
    assert_eq!(chain, vec![0, 2]);
    let err = session_provider_chain(&vec![Some("ANTHROPIC_API_KEY environment variable not set".to_string()), None])
        .err()
        .unwrap();
    assert_eq!(err, "ANTHROPIC_API_KEY environment variable not set");
    let none = session_provider_chain(&Vec::new()).err().unwrap();
    assert_eq!(none, "No providers could be initialized for session send");
    assert_eq!(session_provider_chain(&vec![None]).unwrap(), vec![0]);
}

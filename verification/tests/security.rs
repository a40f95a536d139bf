use openrustclaw_cli::config_migration::parse_config_document;
use openrustclaw_cli::security::{encode, posture_settings, posture_summary, posture_summary_at, PostureSettings};

#[test]
fn test_hex_encode_empty() {
    assert_eq!(encode(&[]), "");
}

#[test]
fn test_hex_encode_single_byte() {
    assert_eq!(encode(&[0x00]), "00");
    assert_eq!(encode(&[0xff]), "ff");
    assert_eq!(encode(&[0x0a]), "0a");
}

#[test]
fn test_hex_encode_multiple_bytes() {
    assert_eq!(encode(&[0x48, 0x65, 0x6c, 0x6c, 0x6f]), "48656c6c6f");
}

#[test]
fn test_hex_encode_all_zeros() {
    assert_eq!(encode(&[0, 0, 0, 0]), "00000000");
}

#[test]
fn test_hex_encode_all_ff() {
    assert_eq!(encode(&[0xff, 0xff, 0xff]), "ffffff");
}

#[test]
fn test_hex_encode_lowercase() {
    let encoded = encode(&[0xAB, 0xCD, 0xEF]);
    assert_eq!(encoded, "abcdef");
    assert!(encoded.chars().all(|c| c.is_ascii_lowercase() || c.is_ascii_digit()));
}

fn defaults() -> PostureSettings {
    PostureSettings {
        require_auth: false,
        origin_validation: false,
        allowed_origins: vec![],
        control_api_token_env: None,
        trusted_proxy_token_env: None,
        skill_signature_required: false,
        skill_verifying_key: None,
    }
}

/// The security settings of the workspace's default configuration.
fn default_config_settings() -> PostureSettings {
    let mut settings = defaults();
    settings.require_auth = true;
    settings.origin_validation = true;
    settings.allowed_origins = vec!["http://localhost:18789".to_string(), "http://127.0.0.1:18789".to_string()];
    settings
}

#[test]
fn posture_summary_reports_release_critical_fields() {
    let summary = posture_summary(default_config_settings(), true);
    assert!(summary.require_auth);
    assert!(summary.origin_validation);
    assert!(!summary.allowed_origins.is_empty());
    assert!(summary.vault_present);
    assert!(summary.recommended_actions.iter().any(|entry| entry.contains("security generate-keys")));
}

#[test]
fn posture_summary_of_a_fully_configured_workspace() {
    let mut settings = default_config_settings();
    settings.control_api_token_env = Some("OPENRUSTCLAW_CONTROL_TOKEN".to_string());
    settings.skill_signature_required = true;
    settings.skill_verifying_key = Some("verifying-key".to_string());
    let summary = posture_summary(settings, true);
    assert!(summary.control_api_token_configured);
    assert!(!summary.trusted_proxy_token_configured);
    assert!(summary.skill_signature_required);
    assert!(summary.skill_verifying_key_configured);
    assert_eq!(summary.issues_found, 0);
    assert_eq!(summary.warnings_found, 1);
    assert!(!summary.secure_by_default);
    assert!(summary.checks.iter().any(|check| check.area == "sandbox_boundary"));
    assert!(!summary.generated_at.is_empty());
}

#[test]
fn posture_of_defaults_counts_every_gap() {
    let summary = posture_summary_at(defaults(), false, "t0".to_string());
    assert_eq!(summary.generated_at, "t0");
    assert_eq!(summary.checks.len(), 6);
    assert_eq!(summary.issues_found, 1);
    assert_eq!(summary.warnings_found, 5);
    assert_eq!(summary.recommended_actions.len(), 6);
    assert_eq!(summary.checks[1].status, "fail");
    assert_eq!(summary.checks[1].detail, "Origin validation is disabled or has no explicit allowed origins.");
}

#[test]
fn posture_counts_origins_and_names_both_gates() {
    let mut settings = defaults();
    settings.origin_validation = true;
    settings.allowed_origins = vec!["a".to_string(), "b".to_string()];
    settings.control_api_token_env = Some("A".to_string());
    settings.trusted_proxy_token_env = Some("B".to_string());
    settings.skill_signature_required = true;
    settings.skill_verifying_key = Some("   ".to_string());
    let summary = posture_summary_at(settings, true, "t1".to_string());
    assert_eq!(summary.checks[1].detail, "Origin validation is enabled for 2 allowed origin(s).");
    assert_eq!(
        summary.checks[2].detail,
        "Control-plane protection configured via control API bearer token and trusted proxy token."
    );
    assert_eq!(summary.checks[3].status, "fail");
    assert!(!summary.skill_verifying_key_configured);
}

#[test]
fn posture_settings_are_read_from_the_config_text() {
    let doc = parse_config_document(
        "[security]\nrequire_auth = false\ncontrol_api_token_env = \"CLAW_TOKEN\"\nskill_signature_required = false\n\n[gateway]\nallowed_origins = [\"https://a.example\"]\n",
    )
    .unwrap();
    let s = posture_settings(&doc);
    assert!(!s.require_auth);
    assert!(s.origin_validation);
    assert_eq!(s.allowed_origins, vec!["https://a.example".to_string()]);
    assert_eq!(s.control_api_token_env.as_deref(), Some("CLAW_TOKEN"));
    assert!(s.trusted_proxy_token_env.is_none());
    assert!(!s.skill_signature_required);
    assert!(s.skill_verifying_key.is_none());

    let defaults = posture_settings(&parse_config_document("").unwrap());
    assert!(defaults.require_auth && defaults.origin_validation && defaults.skill_signature_required);
    assert!(defaults.allowed_origins.is_empty() && defaults.control_api_token_env.is_none());
}

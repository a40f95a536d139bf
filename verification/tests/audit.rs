use openrustclaw_cli::audit::{audit_api_key_vars, audit_settings, security_audit, AuditLine, AuditMark, AuditSkill};
use openrustclaw_cli::config_migration::parse_config_document;
use openrustclaw_cli::security::{confirms_yes, signing_key_pem, verifying_key_pem};

fn texts(lines: &[AuditLine]) -> Vec<(AuditMark, String)> {
    lines.iter().map(|l| (l.mark, l.text.clone())).collect()
}

#[test]
fn audit_reads_the_three_provider_keys() {
    let vars = audit_api_key_vars();
    assert_eq!(vars.len(), 3);
    assert_eq!(vars[0], ("ANTHROPIC_API_KEY".to_string(), "Anthropic".to_string()));
    assert_eq!(vars[2], ("OPENROUTER_API_KEY".to_string(), "OpenRouter".to_string()));
}

#[test]
fn audit_counts_issues_and_warnings() {
    let skills = vec![
        AuditSkill { name: "fetch".to_string(), source: "marketplace".to_string(), verified: 1 },
        AuditSkill { name: "shell".to_string(), source: "managed".to_string(), verified: 0 },
    ];
    let report = security_audit(
        &vec![Some(40), Some(7), None],
        &Some(skills),
        &Some("   ".to_string()),
        true,
        &vec!["https://a.example".to_string()],
        false,
    );
    assert_eq!(
        texts(&report.api_keys),
        vec![
            (AuditMark::Pass, "Anthropic: Configured".to_string()),
            (AuditMark::Warn, "OpenAI: Key seems too short (7 chars)".to_string()),
            (AuditMark::Info, "OpenRouter: Not configured".to_string()),
        ]
    );
    assert_eq!(
        texts(&report.skills),
        vec![
            (AuditMark::Pass, "fetch (marketplace): Verified".to_string()),
            (AuditMark::Fail, "shell (managed): Not verified".to_string()),
        ]
    );
    assert_eq!(report.sandbox[2].mark, AuditMark::Warn);
    assert_eq!(report.sandbox[2].text, "Skill verifying key not configured");
    assert_eq!(
        texts(&report.origins),
        vec![
            (AuditMark::Pass, "Origin validation enabled".to_string()),
            (AuditMark::Plain, "Allowed origins:".to_string()),
            (AuditMark::Plain, "  - https://a.example".to_string()),
        ]
    );
    assert_eq!(texts(&report.authentication), vec![(AuditMark::Warn, "Authentication disabled".to_string())]);
    assert_eq!(report.issues_found, 1);
    assert_eq!(report.warnings, 4);
    assert!(report.severity_is_error);
    assert_eq!(report.details, "Found 1 issues, 4 warnings");
    assert_eq!(
        texts(&report.summary),
        vec![(AuditMark::Fail, "1 issue(s) found".to_string()), (AuditMark::Warn, "4 warning(s)".to_string())]
    );
}

#[test]
fn audit_without_skill_store_and_with_hardened_settings() {
    let report = security_audit(
        &vec![Some(20), Some(64), Some(51)],
        &None,
        &Some("key".to_string()),
        false,
        &Vec::new(),
        true,
    );
    assert!(report.skills.is_empty());
    assert_eq!(report.issues_found, 0);
    // The sandbox warning and the disabled origin validation.
    assert_eq!(report.warnings, 2);
    assert!(!report.severity_is_error);
    assert_eq!(texts(&report.summary), vec![(AuditMark::Warn, "2 warning(s)".to_string())]);
    let empty = security_audit(&vec![None, None, None], &Some(Vec::new()), &None, true, &Vec::new(), true);
    assert_eq!(texts(&empty.skills), vec![(AuditMark::Pass, "No external skills installed".to_string())]);
    assert!(empty.warnings >= 1);
}

#[test]
fn key_files_and_confirmation() {
    assert_eq!(
        signing_key_pem("ab12"),
        "-----BEGIN OPENRUSTCLAW SIGNING KEY-----\nab12\n-----END OPENRUSTCLAW SIGNING KEY-----\n"
    );
    assert_eq!(
        verifying_key_pem("cd"),
        "-----BEGIN OPENRUSTCLAW VERIFYING KEY-----\ncd\n-----END OPENRUSTCLAW VERIFYING KEY-----\n"
    );
    assert!(confirms_yes(" y\n"));
    assert!(confirms_yes("Y"));
    assert!(!confirms_yes("yes"));
    assert!(!confirms_yes(""));
}

#[test]
fn audit_settings_are_read_from_the_config_text() {
    let doc = parse_config_document(
        "[security]\nrequire_auth = false\nskill_verifying_key = \"abc\"\n\n[gateway]\nallowed_origins = [\"https://a.example\"]\n",
    )
    .unwrap();
    let s = audit_settings(&doc);
    assert!(!s.require_auth);
    assert!(s.origin_validation);
    assert_eq!(s.skill_verifying_key.as_deref(), Some("abc"));
    assert_eq!(s.allowed_origins, vec!["https://a.example".to_string()]);

    let empty = audit_settings(&parse_config_document("").unwrap());
    assert!(empty.require_auth && empty.origin_validation);
    assert!(empty.skill_verifying_key.is_none() && empty.allowed_origins.is_empty());

    let odd = audit_settings(&parse_config_document("security = 1\n[gateway]\nallowed_origins = \"x\"\n").unwrap());
    assert!(odd.require_auth && odd.allowed_origins.is_empty());
}

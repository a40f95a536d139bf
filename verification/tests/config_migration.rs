use openrustclaw_cli::config_migration::{
    config_migration_report, migrate_config_document, migrate_config_text, parse_config_document,
    render_config_document, ConfigDocument, ConfigItem, ConfigTable, ConfigValue,
};
use openrustclaw_cli::toml_doc::TomlValue;

const LEGACY_TOML: &str = r#"name = "claw"

[gateway]
bind = "0.0.0.0:19999"
origin_whitelist = ["https://console.example.com"]

[providers]
primary = "anthropic"
fallbacks = ["openai"]

[security]
require_authentication = true
"#;

fn text(s: &str) -> ConfigValue {
    ConfigValue::Text(s.to_string())
}

fn list(items: &[&str]) -> ConfigValue {
    ConfigValue::TextList(items.iter().map(|s| s.to_string()).collect())
}

fn table(entries: Vec<(&str, ConfigValue)>) -> ConfigItem {
    ConfigItem::Section(ConfigTable { entries: entries.into_iter().map(|(k, v)| (k.to_string(), v)).collect() })
}

fn get<'a>(doc: &'a ConfigDocument, section: &str, key: &str) -> Option<&'a ConfigValue> {
    let (_, item) = doc.entries.iter().find(|(name, _)| name == section)?;
    match item {
        ConfigItem::Section(t) => t.entries.iter().find(|(k, _)| k == key).map(|(_, v)| v),
        ConfigItem::Value(_) => None,
    }
}

fn text_at(doc: &ConfigDocument, section: &str, key: &str) -> Option<String> {
    match get(doc, section, key) {
        Some(ConfigValue::Text(s)) => Some(s.clone()),
        _ => None,
    }
}

fn list_at(doc: &ConfigDocument, section: &str, key: &str) -> Option<Vec<String>> {
    match get(doc, section, key) {
        Some(ConfigValue::TextList(v)) => Some(v.clone()),
        _ => None,
    }
}

fn legacy_document() -> ConfigDocument {
    ConfigDocument {
        entries: vec![
            (
                "gateway".to_string(),
                table(vec![
                    ("bind", text("0.0.0.0:19999")),
                    ("origin_whitelist", list(&["https://console.example.com"])),
                ]),
            ),
            (
                "providers".to_string(),
                table(vec![("primary", text("anthropic")), ("fallbacks", list(&["openai"]))]),
            ),
            ("security".to_string(), table(vec![("require_authentication", ConfigValue::Boolean(true))])),
            ("name".to_string(), ConfigItem::Value(text("claw"))),
        ],
    }
}

#[test]
fn migrate_config_detects_and_applies_legacy_keys() {
    let (doc, issues, inferred) = migrate_config_text(LEGACY_TOML).unwrap();
    let dry_run = config_migration_report("config/default.toml", "/ws/config/default.toml", false, issues, inferred, true);
    assert!(dry_run.changed);
    assert!(!dry_run.applied);
    assert!(!dry_run.backup_created);
    assert!(dry_run.legacy_issues.iter().any(|issue| issue.legacy_key == "providers.primary"));
    assert_eq!(dry_run.config_path, "/ws/config/default.toml");
    assert_eq!(
        dry_run.next_steps,
        vec![
            "Run `openrustclaw runtime migrate-config --config config/default.toml --apply` to rewrite the canonical config with a timestamped backup.",
            "Run `openrustclaw runtime upgrade-plan --config config/default.toml` before the next production restart.",
        ]
    );

    assert_eq!(text_at(&doc, "providers", "default_provider").as_deref(), Some("anthropic"));
    assert_eq!(list_at(&doc, "providers", "fallback_chain"), Some(vec!["openai".to_string()]));
    assert_eq!(text_at(&doc, "gateway", "network_mode").as_deref(), Some("lan"));
    assert_eq!(text_at(&doc, "gateway", "host").as_deref(), Some("0.0.0.0"));
    assert!(matches!(get(&doc, "gateway", "port"), Some(ConfigValue::Integer(19999))));
    assert_eq!(
        list_at(&doc, "gateway", "allowed_origins"),
        Some(vec!["https://console.example.com".to_string()])
    );
    assert!(matches!(get(&doc, "security", "require_auth"), Some(ConfigValue::Boolean(true))));

    let rendered = render_config_document(&doc).unwrap();
    let reread = parse_config_document(&rendered).unwrap();
    assert_eq!(text_at(&reread, "providers", "default_provider").as_deref(), Some("anthropic"));
    assert!(matches!(get(&reread, "gateway", "port"), Some(ConfigValue::Integer(19999))));
    assert_eq!(text_at(&reread, "gateway", "network_mode").as_deref(), Some("lan"));

    let (_, issues, inferred) = migrate_config_text(LEGACY_TOML).unwrap();
    let applied = config_migration_report("c.toml", "/ws/c.toml", true, issues, inferred, true);
    assert!(applied.applied);
    assert!(applied.backup_created);
    assert_eq!(applied.next_steps.len(), 1);
}

#[test]
fn config_text_that_is_not_toml_is_refused() {
    assert_eq!(migrate_config_text("[gateway\nbind = ").err().as_deref(), Some("Failed to parse runtime config TOML"));
    assert_eq!(parse_config_document("= 1").err().as_deref(), Some("Failed to parse runtime config TOML"));
}

#[test]
fn parsed_arrays_of_strings_are_lists_and_other_values_are_kept() {
    let doc = parse_config_document(
        "[gateway]\nallowed_origins = []\nports = [1, 2]\nratio = 0.5\nsince = 1979-05-27T07:32:00Z\nlimits = { burst = 3 }\n\n[[channels]]\nname = \"slack\"\n",
    )
    .unwrap();
    assert_eq!(list_at(&doc, "gateway", "allowed_origins"), Some(vec![]));
    assert!(matches!(get(&doc, "gateway", "ports"), Some(ConfigValue::Encoded(TomlValue::Array(_)))));
    assert!(matches!(get(&doc, "gateway", "ratio"), Some(ConfigValue::Encoded(TomlValue::Float(_)))));
    assert!(matches!(get(&doc, "gateway", "since"), Some(ConfigValue::Encoded(TomlValue::Datetime(_)))));
    assert!(matches!(get(&doc, "gateway", "limits"), Some(ConfigValue::Encoded(TomlValue::Table(_)))));
    let channels = doc.entries.iter().find(|(k, _)| k == "channels").map(|(_, v)| v);
    assert!(matches!(channels, Some(ConfigItem::Value(ConfigValue::Encoded(TomlValue::Array(_))))));

    let rendered = render_config_document(&doc).unwrap();
    assert!(rendered.contains("ratio = 0.5"));
    assert!(rendered.contains("1979-05-27T07:32:00Z"));
    assert!(rendered.contains("[[channels]]"));
    let reread = parse_config_document(&rendered).unwrap();
    assert_eq!(render_config_document(&reread).unwrap(), rendered);
}

#[test]
fn bind_ports_are_read_as_str_parse_reads_them() {
    let port = |bind: &str| {
        let (doc, _, _) = migrate_config_text(&format!("[gateway]\nbind = \"{bind}\"\n")).unwrap();
        get(&doc, "gateway", "port").map(value)
    };
    assert_eq!(port("h:+80"), Some("int:80".to_string()));
    assert_eq!(port("h:-9223372036854775808"), Some("int:-9223372036854775808".to_string()));
    assert_eq!(port("h:9223372036854775807"), Some("int:9223372036854775807".to_string()));
    assert_eq!(port("h:9223372036854775808"), None);
    assert_eq!(port("h:99999999999999999999999"), None);
    assert_eq!(port("h:8o"), None);
    assert_eq!(port("h:"), None);
    assert_eq!(port("h:-"), None);
}

#[test]
fn migration_reports_issues_in_order_and_keeps_canonical_values() {
    let mut doc = ConfigDocument {
        entries: vec![
            (
                "providers".to_string(),
                table(vec![
                    ("default", text("openai")),
                    ("default_provider", text("gemini")),
                    ("fallbacks", text("ollama")),
                ]),
            ),
            (
                "gateway".to_string(),
                table(vec![
                    ("allowed_origin", text("https://a.example")),
                    ("bind", text("example.net:port")),
                    ("network_mode", text("remote")),
                ]),
            ),
        ],
    };
    let (issues, inferred) = migrate_config_document(&mut doc);
    let keys: Vec<(&str, &str, &str)> = issues
        .iter()
        .map(|i| (i.legacy_key.as_str(), i.canonical_key.as_str(), i.action.as_str()))
        .collect();
    assert_eq!(
        keys,
        vec![
            ("providers.default", "providers.default_provider", "legacy key detected; canonical key already present"),
            ("providers.fallbacks", "providers.fallback_chain", "canonical key populated from legacy value"),
            ("gateway.allowed_origin", "gateway.allowed_origins", "canonical key populated from legacy value"),
            ("gateway.bind", "gateway.host + gateway.port", "canonical bind fields populated from legacy gateway.bind"),
        ]
    );
    assert!(inferred.is_empty());
    assert_eq!(text_at(&doc, "providers", "default_provider").as_deref(), Some("gemini"));
    assert_eq!(list_at(&doc, "providers", "fallback_chain"), Some(vec!["ollama".to_string()]));
    assert_eq!(list_at(&doc, "gateway", "allowed_origins"), Some(vec!["https://a.example".to_string()]));
    assert_eq!(text_at(&doc, "gateway", "host").as_deref(), Some("example.net"));
    assert!(get(&doc, "gateway", "port").is_none());
}

#[test]
fn network_mode_is_inferred_from_host() {
    let mut doc = ConfigDocument {
        entries: vec![("gateway".to_string(), table(vec![("host", text("10.1.2.3"))]))],
    };
    let (issues, inferred) = migrate_config_document(&mut doc);
    assert!(issues.is_empty());
    assert_eq!(inferred, vec!["gateway.network_mode inferred as `remote` from gateway.host = `10.1.2.3`"]);
    let mut bare = ConfigDocument { entries: vec![("gateway".to_string(), table(vec![]))] };
    let (_, inferred) = migrate_config_document(&mut bare);
    assert_eq!(inferred, vec!["gateway.network_mode inferred as `loopback` from gateway.host = `127.0.0.1`"]);
    let mut none = ConfigDocument { entries: vec![] };
    let (issues, inferred) = migrate_config_document(&mut none);
    assert!(issues.is_empty() && inferred.is_empty());
    let report = config_migration_report("c", "/c", true, issues, inferred, true);
    assert!(!report.changed && !report.applied);
}

fn value(v: &ConfigValue) -> String {
    match v {
        ConfigValue::Text(s) => format!("text:{s}"),
        ConfigValue::Boolean(b) => format!("bool:{b}"),
        ConfigValue::Integer(n) => format!("int:{n}"),
        ConfigValue::TextList(l) => format!("list:{}", l.join(",")),
        ConfigValue::Encoded(_) => "encoded".to_string(),
    }
}

fn render(doc: &ConfigDocument) -> Vec<String> {
    let mut lines = Vec::new();
    for (name, item) in &doc.entries {
        match item {
            ConfigItem::Section(t) => {
                for (k, v) in &t.entries {
                    lines.push(format!("{name}.{k}={}", value(v)));
                }
            }
            ConfigItem::Value(v) => lines.push(format!("{name}={}", value(v))),
        }
    }
    lines.sort();
    lines
}

#[test]
fn migrating_a_migrated_document_changes_nothing() {
    let mut doc = legacy_document();
    let (_, first_inferred) = migrate_config_document(&mut doc);
    assert!(!first_inferred.is_empty());
    let once = render(&doc);
    let (issues, inferred) = migrate_config_document(&mut doc);
    assert_eq!(render(&doc), once);
    assert!(inferred.is_empty());
    // The legacy keys stay, so they are still reported.
    assert!(issues.iter().all(|issue| issue.action != "canonical key populated from legacy value"));
}

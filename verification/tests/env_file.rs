use openrustclaw_cli::env_file::{channel_env_content, gateway_env_content, lines_of, provider_env_content};
use openrustclaw_cli::runtime::parse_dotenv_entries;

#[test]
fn lines_split_like_str_lines() {
    assert_eq!(lines_of("a\r\nb\n\nc\n"), vec!["a", "b", "", "c"]);
    assert_eq!(lines_of("a\nb"), vec!["a", "b"]);
    assert!(lines_of("").is_empty());
    assert_eq!(lines_of("\n"), vec![""]);
}

#[test]
fn gateway_settings_file() {
    assert_eq!(
        gateway_env_content("0.0.0.0", 18789, "s3cret"),
        "# OpenRustClaw Configuration - Generated by onboarding wizard\nOPENRUSTCLAW_GATEWAY__HOST=0.0.0.0\nOPENRUSTCLAW_GATEWAY__PORT=18789\nOPENRUSTCLAW_SECURITY__JWT_SECRET=s3cret\n"
    );
}

#[test]
fn provider_keys_replace_earlier_lines() {
    assert_eq!(provider_env_content("", "openai", "sk-1").as_deref(), Some("OPENAI_API_KEY=sk-1"));
    // The kept lines are joined and the new line follows them directly.
    assert_eq!(
        provider_env_content("A=1\nANTHROPIC_API_KEY=old\nB=2\n", "anthropic", "new").as_deref(),
        Some("A=1\nB=2ANTHROPIC_API_KEY=new")
    );
    assert_eq!(provider_env_content("A=1", "ollama", "x"), None);
}

#[test]
fn channel_tokens_enable_the_channel() {
    let existing = "OPENRUSTCLAW_CHANNELS__TELEGRAM__TOKEN=x\nOPENRUSTCLAW_CHANNELS__TELEGRAM__ENABLED=false\n";
    assert_eq!(
        channel_env_content(existing, "telegram", "t").as_deref(),
        Some("OPENRUSTCLAW_CHANNELS__TELEGRAM__TOKEN=t\nOPENRUSTCLAW_CHANNELS__TELEGRAM__ENABLED=true")
    );
    assert_eq!(channel_env_content("", "matrix", "t"), None);
    assert_eq!(
        channel_env_content("", "slack", "xoxb").as_deref(),
        Some("OPENRUSTCLAW_CHANNELS__SLACK__TOKEN=xoxb\nOPENRUSTCLAW_CHANNELS__SLACK__ENABLED=true")
    );
}

fn pairs(raw: &str) -> Vec<(String, String)> {
    parse_dotenv_entries(raw)
}

#[test]
fn a_saved_provider_key_is_loaded_back() {
    let saved = provider_env_content("ANTHROPIC_API_KEY=old\n", "anthropic", "sk-ant-0123456789abcdef").unwrap();
    assert_eq!(pairs(&saved), vec![("ANTHROPIC_API_KEY".to_string(), "sk-ant-0123456789abcdef".to_string())]);
}

#[test]
fn a_saved_channel_token_is_loaded_back_with_its_switch() {
    let saved = channel_env_content("", "discord", "tok-1").unwrap();
    assert_eq!(
        pairs(&saved),
        vec![
            ("OPENRUSTCLAW_CHANNELS__DISCORD__TOKEN".to_string(), "tok-1".to_string()),
            ("OPENRUSTCLAW_CHANNELS__DISCORD__ENABLED".to_string(), "true".to_string()),
        ]
    );
}

#[test]
fn saved_gateway_settings_are_loaded_back() {
    let saved = gateway_env_content("127.0.0.1", 8080, "c2VjcmV0");
    assert_eq!(
        pairs(&saved),
        vec![
            ("OPENRUSTCLAW_GATEWAY__HOST".to_string(), "127.0.0.1".to_string()),
            ("OPENRUSTCLAW_GATEWAY__PORT".to_string(), "8080".to_string()),
            ("OPENRUSTCLAW_SECURITY__JWT_SECRET".to_string(), "c2VjcmV0".to_string()),
        ]
    );
}

#[test]
fn a_key_saved_beside_other_settings_is_glued_to_the_last_of_them() {
    let saved = provider_env_content("FOO=1\n", "openai", "sk-1").unwrap();
    assert_eq!(pairs(&saved), vec![("FOO".to_string(), "1OPENAI_API_KEY=sk-1".to_string())]);
}

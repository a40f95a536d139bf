use openrustclaw_cli::vault::{
    decrypt_vault, encrypt_vault, encrypt_vault_with, get_vault_secret, insert_vault_entry, list_vault_keys,
    normalize_vault_version, remove_vault_entry, resolve_vault_passphrase, EncryptedVaultFile, RuntimeVault,
};

#[test]
fn vault_keys_stay_sorted_and_lookups_follow_writes() {
    let mut v = RuntimeVault::new();
    insert_vault_entry(&mut v, "OPENAI_API_KEY", "sk-1");
    insert_vault_entry(&mut v, "ANTHROPIC_API_KEY", "sk-2");
    insert_vault_entry(&mut v, "OPENAI_API_KEY", "sk-3");
    assert_eq!(list_vault_keys(&v), vec!["ANTHROPIC_API_KEY", "OPENAI_API_KEY"]);
    assert_eq!(get_vault_secret(&v, "OPENAI_API_KEY").unwrap(), "sk-3");
    assert_eq!(get_vault_secret(&v, "MISSING").err().unwrap(), "Vault key 'MISSING' not found");
    remove_vault_entry(&mut v, "OPENAI_API_KEY");
    assert!(get_vault_secret(&v, "OPENAI_API_KEY").is_err());
    assert_eq!(get_vault_secret(&v, "ANTHROPIC_API_KEY").unwrap(), "sk-2");
    remove_vault_entry(&mut v, "NOT_THERE");
    assert_eq!(list_vault_keys(&v).len(), 1);
}

#[test]
fn sealed_vault_opens_with_its_passphrase_only() {
    let plaintext = br#"{"version":1,"entries":{"A":"b"}}"#;
    let file = encrypt_vault(plaintext, "correct horse").unwrap();
    assert_eq!(file.version, 1);
    assert_eq!(decrypt_vault(&file, "correct horse").unwrap(), plaintext.to_vec());
    assert_eq!(decrypt_vault(&file, "wrong").err().unwrap(), "Failed to decrypt runtime vault");
}

#[test]
fn sealing_is_deterministic_for_fixed_salt_and_nonce() {
    let salt = [7u8; 16];
    let nonce = [9u8; 24];
    let a = encrypt_vault_with(b"secret", "pw", &salt, &nonce, "t".to_string()).unwrap();
    let b = encrypt_vault_with(b"secret", "pw", &salt, &nonce, "t".to_string()).unwrap();
    assert_eq!(a.ciphertext_b64, b.ciphertext_b64);
    assert_eq!(a.salt_b64, "BwcHBwcHBwcHBwcHBwcHBw==");
    assert_ne!(a.ciphertext_b64, "");
}

#[test]
fn malformed_vault_files_are_refused() {
    let bad = EncryptedVaultFile {
        version: 1,
        salt_b64: "not base64!".to_string(),
        nonce_b64: "AAAA".to_string(),
        ciphertext_b64: "AAAA".to_string(),
        updated_at: "t".to_string(),
    };
    assert_eq!(decrypt_vault(&bad, "pw").err().unwrap(), "Failed to decode vault salt");
    let short_salt = EncryptedVaultFile {
        version: 1,
        salt_b64: "AAAA".to_string(),
        nonce_b64: "AAAAAAAAAAAAAAAAAAAAAAAAAAAAAAAA".to_string(),
        ciphertext_b64: "AAAA".to_string(),
        updated_at: "t".to_string(),
    };
    assert!(decrypt_vault(&short_salt, "pw").err().unwrap().starts_with("Failed to derive runtime vault key: "));
}

#[test]
fn vault_version_zero_counts_as_one() {
    assert_eq!(normalize_vault_version(0), 1);
    assert_eq!(normalize_vault_version(3), 3);
}

#[test]
fn vault_passphrase_comes_from_argument_or_environment() {
    assert_eq!(resolve_vault_passphrase(Some("given"), Some("env".to_string())).unwrap(), "given");
    assert_eq!(resolve_vault_passphrase(None, Some("env".to_string())).unwrap(), "env");
    assert_eq!(
        resolve_vault_passphrase(None, None).err().unwrap(),
        "OPENRUSTCLAW_VAULT_PASSPHRASE environment variable not set for runtime vault access"
    );
}

//! The runtime vault: secrets kept by name in key order, sealed at rest
//! with a passphrase.

use vstd::prelude::*;
use vstd::string::StringSliceAdditionalSpecFns;

use crate::crypto::{argon2_key, b64, b64_decode, b64_encode, derive_key, open, random_bytes, seal, sealable, xchacha_seal};
use crate::order::{lemma_lex_total, lex_le, lex_lt, sorted_strict, str_lt};
use crate::text::{concat3, owned};

verus! {

/// The secrets of a workspace. `entries` is kept in strictly increasing
/// key order, as a `BTreeMap` keeps it.
pub struct RuntimeVault {
    pub version: u32,
    pub entries: Vec<(String, String)>,
    pub updated_at: Option<String>,
}

/// The entries as character sequences.
pub open spec fn entry_views(v: Seq<(String, String)>) -> Seq<(Seq<char>, Seq<char>)> {
    v.map_values(|e: (String, String)| (e.0@, e.1@))
}

/// The keys of the entries, in order.
pub open spec fn key_views(v: Seq<(String, String)>) -> Seq<Seq<char>> {
    v.map_values(|e: (String, String)| e.0@)
}

/// `k` is stored in the entries.
pub open spec fn has_key(v: Seq<(String, String)>, k: Seq<char>) -> bool {
    exists|i: int| 0 <= i < v.len() && v[i].0@ == k
}

/// An index where `k` is stored, when it is.
pub open spec fn key_index(v: Seq<(String, String)>, k: Seq<char>) -> int {
    choose|i: int| 0 <= i < v.len() && v[i].0@ == k
}

/// The value stored under `k`, if any.
pub open spec fn lookup(v: Seq<(String, String)>, k: Seq<char>) -> Option<Seq<char>> {
    if has_key(v, k) {
        Some(v[key_index(v, k)].1@)
    } else {
        None
    }
}

impl RuntimeVault {
    /// The entries are in strictly increasing key order.
    pub open spec fn wf(&self) -> bool {
        sorted_strict(key_views(self.entries@))
    }

    /// The value stored under `k`, if any.
    pub open spec fn get_spec(&self, k: Seq<char>) -> Option<Seq<char>> {
        lookup(self.entries@, k)
    }

    /// An empty vault.
    pub fn new() -> (r: Self)
        ensures
            r.wf(),
            r.version == 0,
            r.entries@.len() == 0,
            r.updated_at is None,
    {
        RuntimeVault { version: 0, entries: Vec::new(), updated_at: None }
    }
}

proof fn lemma_lookup_at(v: Seq<(String, String)>, i: int)
    requires
        sorted_strict(key_views(v)),
        0 <= i < v.len(),
    ensures
        lookup(v, v[i].0@) == Some(v[i].1@),
{
    let k = v[i].0@;
    assert(v[i].0@ == k);
    assert(has_key(v, k));
    let j = key_index(v, k);
    assert(key_views(v)[j] == v[j].0@ && key_views(v)[i] == v[i].0@);
    if j != i {
        if j < i {
            assert(lex_lt(key_views(v)[j], key_views(v)[i]));
        } else {
            assert(lex_lt(key_views(v)[i], key_views(v)[j]));
        }
    }
}

/// The first index whose key is not below `k`.
fn key_position(v: &Vec<(String, String)>, k: &str) -> (r: usize)
    requires
        sorted_strict(key_views(v@)),
    ensures
        r <= v@.len(),
        forall|j: int| 0 <= j < r ==> lex_lt(#[trigger] v@[j].0@, k@),
        r < v@.len() ==> lex_le(k@, v@[r as int].0@),
{
    let mut i: usize = 0;
    while i < v.len() && str_lt(v[i].0.as_str(), k)
        invariant
            i <= v@.len(),
            forall|j: int| 0 <= j < i ==> lex_lt(#[trigger] v@[j].0@, k@),
        decreases v@.len() - i,
    {
        i = i + 1;
    }
    if i < v.len() {
        proof {
            lemma_lex_total(k@, v@[i as int].0@);
        }
    }
    i
}

/// The names of the vault's secrets, in key order.
pub fn list_vault_keys(vault: &RuntimeVault) -> (r: Vec<String>)
    ensures
        crate::text::strs(r@) == key_views(vault.entries@),
        vault.wf() ==> sorted_strict(crate::text::strs(r@)),
{
    let mut out: Vec<String> = Vec::new();
    let mut i: usize = 0;
    while i < vault.entries.len()
        invariant
            i <= vault.entries@.len(),
            crate::text::strs(out@) == key_views(vault.entries@.take(i as int)),
        decreases vault.entries@.len() - i,
    {
        out.push(vault.entries[i].0.clone());
        assert(key_views(vault.entries@.take(i + 1)) =~= key_views(vault.entries@.take(i as int)).push(
            vault.entries@[i as int].0@,
        ));
        assert(crate::text::strs(out@) =~= key_views(vault.entries@.take(i + 1)));
        i = i + 1;
    }
    assert(vault.entries@.take(vault.entries@.len() as int) =~= vault.entries@);
    out
}

/// The message for a secret the vault does not hold.
pub open spec fn missing_key_message(k: Seq<char>) -> Seq<char> {
    "Vault key '"@ + k + "' not found"@
}

/// The secret stored under `key`.
pub fn get_vault_secret(vault: &RuntimeVault, key: &str) -> (r: Result<String, String>)
    requires
        vault.wf(),
    ensures
        vault.get_spec(key@) matches Some(v) ==> (r matches Ok(s) && s@ == v),
        vault.get_spec(key@) is None ==> (r matches Err(e) && e@ == missing_key_message(key@)),
{
    let i = key_position(&vault.entries, key);
    if i < vault.entries.len() && crate::text::str_eq(vault.entries[i].0.as_str(), key) {
        proof {
            lemma_lookup_at(vault.entries@, i as int);
        }
        Ok(vault.entries[i].1.clone())
    } else {
        proof {
            assert forall|j: int| 0 <= j < vault.entries@.len() implies vault.entries@[j].0@ != key@ by {
                if j >= i {
                    if j > i {
                        assert(lex_lt(key_views(vault.entries@)[i as int], key_views(vault.entries@)[j]));
                        crate::order::lemma_lex_le_lt_trans(key@, vault.entries@[i as int].0@, vault.entries@[j].0@);
                    }
                }
            }
        }
        Err(concat3("Vault key '", key, "' not found"))
    }
}

/// Stores `value` under `key`, replacing what was there.
pub fn insert_vault_entry(vault: &mut RuntimeVault, key: &str, value: &str)
    requires
        old(vault).wf(),
    ensures
        final(vault).wf(),
        final(vault).version == old(vault).version,
        final(vault).updated_at == old(vault).updated_at,
        final(vault).get_spec(key@) == Some(value@),
        forall|k: Seq<char>| k != key@ ==> #[trigger] final(vault).get_spec(k) == old(vault).get_spec(k),
{
    let ghost before = vault.entries@;
    let i = key_position(&vault.entries, key);
    if i < vault.entries.len() && crate::text::str_eq(vault.entries[i].0.as_str(), key) {
        vault.entries.set(i, (owned(key), owned(value)));
        let ghost after = vault.entries@;
        assert(key_views(after) =~= key_views(before));
        proof {
            lemma_lookup_at(after, i as int);
            assert forall|k: Seq<char>| k != key@ implies #[trigger] lookup(after, k) == lookup(before, k) by {
                if has_key(before, k) {
                    let j = key_index(before, k);
                    lemma_lookup_at(before, j);
                    lemma_lookup_at(after, j);
                } else {
                    assert forall|j: int| 0 <= j < after.len() implies after[j].0@ != k by {
                        assert(key_views(after)[j] == key_views(before)[j]);
                    }
                }
            }
        }
    } else {
        vault.entries.insert(i, (owned(key), owned(value)));
        let ghost after = vault.entries@;
        assert(after =~= before.insert(i as int, after[i as int]));
        proof {
            assert forall|a: int, b: int| 0 <= a < b < after.len() implies lex_lt(
                #[trigger] key_views(after)[a],
                #[trigger] key_views(after)[b],
            ) by {
                let ka = key_views(after)[a];
                let kb = key_views(after)[b];
                if a < i && b < i {
                    assert(ka == key_views(before)[a] && kb == key_views(before)[b]);
                } else if a < i && b == i {
                } else if a < i && b > i {
                    assert(ka == key_views(before)[a] && kb == key_views(before)[b - 1]);
                    assert(lex_lt(key_views(before)[a], key_views(before)[b - 1]));
                } else if a == i {
                    assert(kb == key_views(before)[b - 1]);
                    assert(lex_le(key@, before[i as int].0@));
                    if b - 1 > i {
                        assert(lex_lt(key_views(before)[i as int], key_views(before)[b - 1]));
                        crate::order::lemma_lex_le_lt_trans(key@, before[i as int].0@, kb);
                    } else {
                        assert(before[i as int].0@ != key@);
                    }
                } else {
                    assert(ka == key_views(before)[a - 1] && kb == key_views(before)[b - 1]);
                    assert(lex_lt(key_views(before)[a - 1], key_views(before)[b - 1]));
                }
            }
            lemma_lookup_at(after, i as int);
            assert forall|k: Seq<char>| k != key@ implies #[trigger] lookup(after, k) == lookup(before, k) by {
                if has_key(before, k) {
                    let j = key_index(before, k);
                    lemma_lookup_at(before, j);
                    if j < i {
                        assert(after[j] == before[j]);
                        lemma_lookup_at(after, j);
                    } else {
                        assert(after[j + 1] == before[j]);
                        lemma_lookup_at(after, j + 1);
                    }
                } else {
                    assert forall|j: int| 0 <= j < after.len() implies after[j].0@ != k by {
                        if j < i {
                            assert(after[j] == before[j]);
                        } else if j > i {
                            assert(after[j] == before[j - 1]);
                        }
                    }
                }
            }
        }
    }
}

/// Removes the secret stored under `key`, if any.
pub fn remove_vault_entry(vault: &mut RuntimeVault, key: &str)
    requires
        old(vault).wf(),
    ensures
        final(vault).wf(),
        final(vault).version == old(vault).version,
        final(vault).updated_at == old(vault).updated_at,
        final(vault).get_spec(key@) is None,
        forall|k: Seq<char>| k != key@ ==> #[trigger] final(vault).get_spec(k) == old(vault).get_spec(k),
{
    let ghost before = vault.entries@;
    let i = key_position(&vault.entries, key);
    if i < vault.entries.len() && crate::text::str_eq(vault.entries[i].0.as_str(), key) {
        vault.entries.remove(i);
        let ghost after = vault.entries@;
        assert(after =~= before.remove(i as int));
        proof {
            assert forall|a: int, b: int| 0 <= a < b < after.len() implies lex_lt(
                #[trigger] key_views(after)[a],
                #[trigger] key_views(after)[b],
            ) by {
                let a2 = if a < i { a } else { a + 1 };
                let b2 = if b < i { b } else { b + 1 };
                assert(key_views(after)[a] == key_views(before)[a2]);
                assert(key_views(after)[b] == key_views(before)[b2]);
                assert(lex_lt(key_views(before)[a2], key_views(before)[b2]));
            }
            assert forall|j: int| 0 <= j < after.len() implies after[j].0@ != key@ by {
                let j2 = if j < i { j } else { j + 1 };
                assert(after[j] == before[j2]);
                if j2 != i {
                    if j2 < i {
                        assert(lex_lt(key_views(before)[j2], key_views(before)[i as int]));
                    } else {
                        assert(lex_lt(key_views(before)[i as int], key_views(before)[j2]));
                    }
                }
            }
            assert forall|k: Seq<char>| k != key@ implies #[trigger] lookup(after, k) == lookup(before, k) by {
                if has_key(before, k) {
                    let j = key_index(before, k);
                    lemma_lookup_at(before, j);
                    if j < i {
                        assert(after[j] == before[j]);
                        lemma_lookup_at(after, j);
                    } else {
                        assert(after[j - 1] == before[j]);
                        lemma_lookup_at(after, j - 1);
                    }
                } else {
                    assert forall|j: int| 0 <= j < after.len() implies after[j].0@ != k by {
                        let j2 = if j < i { j } else { j + 1 };
                        assert(after[j] == before[j2]);
                    }
                }
            }
        }
    } else {
        proof {
            assert forall|j: int| 0 <= j < before.len() implies before[j].0@ != key@ by {
                if j > i {
                    assert(lex_lt(key_views(before)[i as int], key_views(before)[j]));
                    crate::order::lemma_lex_le_lt_trans(key@, before[i as int].0@, before[j].0@);
                }
            }
        }
    }
}


// ---------------------------------------------------------------------
// Sealing at rest

/// The vault as stored on disk: the sealed JSON of the vault and what is
/// needed to open it with the passphrase.
pub struct EncryptedVaultFile {
    pub version: u32,
    pub salt_b64: String,
    pub nonce_b64: String,
    pub ciphertext_b64: String,
    pub updated_at: String,
}

/// `file` holds `plaintext` sealed under `passphrase` with `salt` and
/// `nonce`.
pub open spec fn sealed_with(
    file: EncryptedVaultFile,
    passphrase: Seq<u8>,
    plaintext: Seq<u8>,
    salt: Seq<u8>,
    nonce: Seq<u8>,
) -> bool {
    &&& file.salt_b64@ == b64(salt)
    &&& file.nonce_b64@ == b64(nonce)
    &&& file.ciphertext_b64@ == b64(xchacha_seal(argon2_key(passphrase, salt), nonce, plaintext))
}

/// A salt and passphrase that Argon2 accepts.
pub open spec fn derivable(passphrase: Seq<u8>, salt: Seq<u8>) -> bool {
    passphrase.len() <= 0xFFFF_FFFF && 8 <= salt.len() <= 0xFFFF_FFFF
}

/// `s` is the base64 of some bytes.
pub open spec fn is_b64(s: Seq<char>) -> bool {
    exists|x: Seq<u8>| b64(x) == s
}

/// The bytes whose base64 is `s`, when `is_b64(s)`.
pub open spec fn unb64(s: Seq<char>) -> Seq<u8> {
    choose|x: Seq<u8>| b64(x) == s
}

/// `ciphertext` opens under `key` and `nonce`.
pub open spec fn opens(key: Seq<u8>, nonce: Seq<u8>, ciphertext: Seq<u8>) -> bool {
    exists|p: Seq<u8>| sealable(p) && xchacha_seal(key, nonce, p) == ciphertext
}

/// The plaintext that `ciphertext` opens to, when it opens.
pub open spec fn opened(key: Seq<u8>, nonce: Seq<u8>, ciphertext: Seq<u8>) -> Seq<u8> {
    choose|p: Seq<u8>| sealable(p) && xchacha_seal(key, nonce, p) == ciphertext
}

/// What opening a vault file with a passphrase gives: the failure message
/// or the plaintext.
pub open spec fn vault_opening(file: EncryptedVaultFile, passphrase: Seq<u8>) -> Result<Seq<u8>, Seq<char>> {
    if !is_b64(file.salt_b64@) {
        Err("Failed to decode vault salt"@)
    } else if !is_b64(file.nonce_b64@) {
        Err("Failed to decode vault nonce"@)
    } else if !is_b64(file.ciphertext_b64@) {
        Err("Failed to decode vault ciphertext"@)
    } else if !derivable(passphrase, unb64(file.salt_b64@)) {
        Err("Failed to derive runtime vault key: "@)
    } else {
        let key = argon2_key(passphrase, unb64(file.salt_b64@));
        let nonce = unb64(file.nonce_b64@);
        let ct = unb64(file.ciphertext_b64@);
        if opens(key, nonce, ct) {
            Ok(opened(key, nonce, ct))
        } else {
            Err("Failed to decrypt runtime vault"@)
        }
    }
}

/// The vault version a decoded vault carries: files written before
/// versioning count as version 1.
pub fn normalize_vault_version(version: u32) -> (r: u32)
    ensures
        r == (if version == 0 { 1 } else { version }),
{
    if version == 0 {
        1
    } else {
        version
    }
}

/// Seals the serialised vault `plaintext` under `passphrase` with the given
/// salt and nonce.
pub fn encrypt_vault_with(
    plaintext: &[u8],
    passphrase: &str,
    salt: &[u8],
    nonce: &[u8],
    updated_at: String,
) -> (r: Result<EncryptedVaultFile, String>)
    requires
        salt@.len() == 16,
        nonce@.len() == 24,
        (plaintext@.len() + 16) / 3 * 4 + 4 <= usize::MAX,
    ensures
        r is Ok <==> (passphrase.spec_bytes().len() <= 0xFFFF_FFFF && sealable(plaintext@)),
        r matches Ok(f) ==> f.version == 1 && f.updated_at == updated_at && sealed_with(
            f,
            passphrase.spec_bytes(),
            plaintext@,
            salt@,
            nonce@,
        ),
        r matches Err(e) ==> (passphrase.spec_bytes().len() > 0xFFFF_FFFF && crate::text::has_prefix(
            e@,
            "Failed to derive runtime vault key: "@,
        )) || (passphrase.spec_bytes().len() <= 0xFFFF_FFFF && !sealable(plaintext@) && e@
            == "Failed to encrypt runtime vault"@),
{
    let key = match derive_key(passphrase.as_bytes(), salt) {
        Ok(k) => k,
        Err(err) => {
            proof {
                crate::text::lemma_prefix_concat("Failed to derive runtime vault key: "@, err@);
            }
            return Err(crate::text::concat2("Failed to derive runtime vault key: ", err.as_str()));
        },
    };
    let ciphertext = match seal(key.as_slice(), nonce, plaintext) {
        Ok(c) => c,
        Err(()) => {
            return Err(owned("Failed to encrypt runtime vault"));
        },
    };
    Ok(EncryptedVaultFile {
        version: 1,
        salt_b64: b64_encode(salt),
        nonce_b64: b64_encode(nonce),
        ciphertext_b64: b64_encode(ciphertext.as_slice()),
        updated_at,
    })
}

/// Seals the serialised vault `plaintext` under `passphrase` with a fresh
/// random salt and nonce, stamped now.
pub fn encrypt_vault(plaintext: &[u8], passphrase: &str) -> (r: Result<EncryptedVaultFile, String>)
    requires
        (plaintext@.len() + 16) / 3 * 4 + 4 <= usize::MAX,
    ensures
        r is Ok <==> (passphrase.spec_bytes().len() <= 0xFFFF_FFFF && sealable(plaintext@)),
        r matches Ok(f) ==> f.version == 1 && exists|salt: Seq<u8>, nonce: Seq<u8>|
            salt.len() == 16 && nonce.len() == 24 && sealed_with(f, passphrase.spec_bytes(), plaintext@, salt, nonce),
{
    let salt = random_bytes(16);
    let nonce = random_bytes(24);
    let updated_at = crate::clock::now_rfc3339();
    encrypt_vault_with(plaintext, passphrase, salt.as_slice(), nonce.as_slice(), updated_at)
}

/// Opens a vault file with `passphrase`, giving back the serialised vault.
/// A file sealed by `encrypt_vault` with the same passphrase opens to the
/// plaintext it was sealed from.
pub fn decrypt_vault(file: &EncryptedVaultFile, passphrase: &str) -> (r: Result<Vec<u8>, String>)
    requires
        forall|x: Seq<u8>| file.nonce_b64@ == b64(x) ==> x.len() == 24,
    ensures
        r matches Ok(v) ==> vault_opening(*file, passphrase.spec_bytes()) == Ok::<Seq<u8>, Seq<char>>(v@),
        r matches Err(e) ==> (vault_opening(*file, passphrase.spec_bytes()) matches Err(m) && crate::text::has_prefix(
            e@,
            m,
        )),
        r matches Err(e) ==> (e@ == "Failed to decode vault salt"@ || e@ == "Failed to decode vault nonce"@
            || e@ == "Failed to decode vault ciphertext"@ || e@ == "Failed to decrypt runtime vault"@
            || crate::text::has_prefix(e@, "Failed to derive runtime vault key: "@)),
        forall|p: Seq<u8>, salt: Seq<u8>, nonce: Seq<u8>|
            sealed_with(*file, passphrase.spec_bytes(), p, salt, nonce) && derivable(passphrase.spec_bytes(), salt)
                && sealable(p) ==> (r matches Ok(v) && v@ == p),
{
    let ghost pass = passphrase.spec_bytes();
    let salt = match b64_decode(file.salt_b64.as_str()) {
        Ok(v) => v,
        Err(()) => {
            proof {
                crate::text::lemma_prefix_concat("Failed to decode vault salt"@, seq![]);
            }
            return Err(owned("Failed to decode vault salt"));
        },
    };
    let nonce = match b64_decode(file.nonce_b64.as_str()) {
        Ok(v) => v,
        Err(()) => {
            proof {
                crate::text::lemma_prefix_concat("Failed to decode vault nonce"@, seq![]);
            }
            return Err(owned("Failed to decode vault nonce"));
        },
    };
    let ciphertext = match b64_decode(file.ciphertext_b64.as_str()) {
        Ok(v) => v,
        Err(()) => {
            proof {
                crate::text::lemma_prefix_concat("Failed to decode vault ciphertext"@, seq![]);
            }
            return Err(owned("Failed to decode vault ciphertext"));
        },
    };
    assert(unb64(file.salt_b64@) == salt@);
    assert(unb64(file.nonce_b64@) == nonce@);
    assert(unb64(file.ciphertext_b64@) == ciphertext@);
    let key = match derive_key(passphrase.as_bytes(), salt.as_slice()) {
        Ok(k) => k,
        Err(err) => {
            proof {
                crate::text::lemma_prefix_concat("Failed to derive runtime vault key: "@, err@);
            }
            return Err(crate::text::concat2("Failed to derive runtime vault key: ", err.as_str()));
        },
    };
    match open(key.as_slice(), nonce.as_slice(), ciphertext.as_slice()) {
        Ok(p) => {
            assert(opens(key@, nonce@, ciphertext@));
            Ok(p)
        },
        Err(()) => {
            proof {
                crate::text::lemma_prefix_concat("Failed to decrypt runtime vault"@, seq![]);
            }
            Err(owned("Failed to decrypt runtime vault"))
        },
    }
}

/// The environment variable that holds the vault passphrase.
pub const DEFAULT_PASSPHRASE_ENV: &'static str = "OPENRUSTCLAW_VAULT_PASSPHRASE";

/// The passphrase that opens the vault: the one given, else the value of
/// `OPENRUSTCLAW_VAULT_PASSPHRASE` (`env_value`), else an error.
pub fn resolve_vault_passphrase(given: Option<&str>, env_value: Option<String>) -> (r: Result<String, String>)
    ensures
        given matches Some(p) ==> (r matches Ok(x) && x@ == p@),
        given is None ==> (env_value matches Some(v) ==> (r matches Ok(x) && x == v)),
        given is None && env_value is None ==> (r matches Err(e) && e@ == DEFAULT_PASSPHRASE_ENV@
            + " environment variable not set for runtime vault access"@),
{
    match given {
        Some(p) => Ok(crate::text::owned(p)),
        None => match env_value {
            Some(v) => Ok(v),
            None => Err(
                crate::text::concat2(DEFAULT_PASSPHRASE_ENV, " environment variable not set for runtime vault access"),
            ),
        },
    }
}

} // verus!

//! The primitives the runtime vault is sealed with: Argon2 key derivation,
//! XChaCha20-Poly1305, standard base64 and random bytes.

use vstd::prelude::*;

use base64::Engine as _;
use chacha20poly1305::aead::Aead as _;
use chacha20poly1305::KeyInit as _;
use rand::RngCore as _;

verus! {

/// The 32-byte key that Argon2 with its default parameters (Argon2id,
/// version 0x13, 19 MiB, 2 passes, 1 lane) derives from a password and a
/// salt.
pub uninterp spec fn argon2_key(password: Seq<u8>, salt: Seq<u8>) -> Seq<u8>;

/// The ciphertext, tag appended, that XChaCha20-Poly1305 makes of
/// `plaintext` under `key` and `nonce`, with no associated data.
pub uninterp spec fn xchacha_seal(key: Seq<u8>, nonce: Seq<u8>, plaintext: Seq<u8>) -> Seq<u8>;

/// Plaintexts short enough for one ChaCha20 keystream.
pub open spec fn sealable(plaintext: Seq<u8>) -> bool {
    plaintext.len() / 64 < 0xFFFF_FFFF
}

/// The character of a 6-bit value in the standard base64 alphabet.
pub open spec fn b64_char(n: nat) -> char {
    if n < 26 {
        ((n + 65) as u32) as char
    } else if n < 52 {
        ((n + 71) as u32) as char
    } else if n < 62 {
        ((n - 4) as u32) as char
    } else if n == 62 {
        '+'
    } else {
        '/'
    }
}

/// Standard base64 with `=` padding (RFC 4648, section 4).
pub open spec fn b64(s: Seq<u8>) -> Seq<char>
    decreases s.len(),
{
    if s.len() == 0 {
        seq![]
    } else if s.len() == 1 {
        seq![b64_char((s[0] / 4) as nat), b64_char(((s[0] % 4) * 16) as nat), '=', '=']
    } else if s.len() == 2 {
        seq![
            b64_char((s[0] / 4) as nat),
            b64_char(((s[0] % 4) * 16 + s[1] / 16) as nat),
            b64_char(((s[1] % 16) * 4) as nat),
            '=',
        ]
    } else {
        seq![
            b64_char((s[0] / 4) as nat),
            b64_char(((s[0] % 4) * 16 + s[1] / 16) as nat),
            b64_char(((s[1] % 16) * 4 + s[2] / 64) as nat),
            b64_char((s[2] % 64) as nat),
        ] + b64(s.skip(3))
    }
}

/// Derives a vault key with `Argon2::default().hash_password_into` into a
/// 32-byte buffer. The crate's source refuses a password or salt longer
/// than `u32::MAX` bytes and a salt shorter than 8 bytes, and nothing else
/// for this output length; the key it derives is named `argon2_key`. The
/// error's text is the crate's `Display` of it.
#[verifier::external_body]
pub(crate) fn derive_key(password: &[u8], salt: &[u8]) -> (r: Result<Vec<u8>, String>)
    ensures
        r is Ok <==> (password@.len() <= 0xFFFF_FFFF && 8 <= salt@.len() <= 0xFFFF_FFFF),
        r matches Ok(k) ==> k@ == argon2_key(password@, salt@) && k@.len() == 32,
{
    let mut key = [0u8; 32];
    match argon2::Argon2::default().hash_password_into(password, salt, &mut key) {
        Ok(()) => Ok(key.to_vec()),
        Err(err) => Err(format!("{err}")),
    }
}

/// Seals `plaintext` with `XChaCha20Poly1305::encrypt`. The crate refuses
/// only a plaintext too long for the keystream counter; the ciphertext is
/// the plaintext's length plus the 16-byte tag.
#[verifier::external_body]
pub(crate) fn seal(key: &[u8], nonce: &[u8], plaintext: &[u8]) -> (r: Result<Vec<u8>, ()>)
    requires
        key@.len() == 32,
        nonce@.len() == 24,
    ensures
        r is Ok <==> sealable(plaintext@),
        r matches Ok(c) ==> c@ == xchacha_seal(key@, nonce@, plaintext@) && c@.len() == plaintext@.len() + 16,
{
    let cipher = chacha20poly1305::XChaCha20Poly1305::new(chacha20poly1305::Key::from_slice(key));
    cipher.encrypt(chacha20poly1305::XNonce::from_slice(nonce), plaintext).map_err(|_| ())
}

/// Opens `ciphertext` with `XChaCha20Poly1305::decrypt`. It succeeds
/// exactly on what `seal` makes under the same key and nonce, and gives
/// back that plaintext: the tag is checked over the ciphertext and the
/// plaintext is the ciphertext with the same keystream removed.
#[verifier::external_body]
pub(crate) fn open(key: &[u8], nonce: &[u8], ciphertext: &[u8]) -> (r: Result<Vec<u8>, ()>)
    requires
        key@.len() == 32,
        nonce@.len() == 24,
    ensures
        r matches Ok(p) ==> ciphertext@ == xchacha_seal(key@, nonce@, p@) && sealable(p@),
        r matches Ok(p) ==> forall|q: Seq<u8>|
            sealable(q) && ciphertext@ == xchacha_seal(key@, nonce@, q) ==> q == p@,
        r is Err ==> forall|q: Seq<u8>| !(sealable(q) && ciphertext@ == xchacha_seal(key@, nonce@, q)),
{
    let cipher = chacha20poly1305::XChaCha20Poly1305::new(chacha20poly1305::Key::from_slice(key));
    cipher.decrypt(chacha20poly1305::XNonce::from_slice(nonce), ciphertext).map_err(|_| ())
}

/// `base64::engine::general_purpose::STANDARD.encode`.
#[verifier::external_body]
pub(crate) fn b64_encode(bytes: &[u8]) -> (r: String)
    requires
        bytes@.len() / 3 * 4 + 4 <= usize::MAX,
    ensures
        r@ == b64(bytes@),
{
    base64::engine::general_purpose::STANDARD.encode(bytes)
}

/// `base64::engine::general_purpose::STANDARD.decode` of a string's bytes.
/// The engine requires canonical padding and no trailing bits, so it
/// accepts exactly the encodings that `b64_encode` makes, and decodes each
/// to the bytes it encodes.
#[verifier::external_body]
pub(crate) fn b64_decode(s: &str) -> (r: Result<Vec<u8>, ()>)
    ensures
        r matches Ok(v) ==> s@ == b64(v@),
        r matches Ok(v) ==> forall|x: Seq<u8>| s@ == b64(x) ==> x == v@,
        r is Err ==> forall|x: Seq<u8>| s@ != b64(x),
{
    base64::engine::general_purpose::STANDARD.decode(s.as_bytes()).map_err(|_| ())
}

/// `n` bytes from `rand::thread_rng().fill_bytes`. They are random; only
/// their number is stated.
#[verifier::external_body]
pub(crate) fn random_bytes(n: usize) -> (r: Vec<u8>)
    ensures
        r@.len() == n,
{
    let mut bytes = vec![0u8; n];
    rand::thread_rng().fill_bytes(&mut bytes);
    bytes
}

} // verus!

//! The cryptographic primitives the profiles, the licence server and the
//! sealing tool rely on.  Each outside function is reached through one
//! trusted item below; everything built on top of them is verified.

use vstd::prelude::*;
use aes_gcm::aead::{Aead, KeyInit};
use aes_gcm::{Aes256Gcm, Nonce};
use ed25519_dalek::{Signature, Signer, SigningKey, Verifier, VerifyingKey};
use sha2::{Digest, Sha256};

verus! {

/// Longest plaintext (and associated data) AES-GCM accepts, in bytes.
pub const AES_GCM_MAX_PLAINTEXT: u64 = 68719476736;

/// Length of the AES-GCM authentication tag appended to every ciphertext.
pub const AES_GCM_TAG_LEN: usize = 16;

/// The ciphertext (with its appended tag) that AES-256-GCM produces for a
/// key, a nonce and a plaintext, with empty associated data.
pub uninterp spec fn aes256gcm_seal(key: Seq<u8>, nonce: Seq<u8>, plaintext: Seq<u8>) -> Seq<u8>;

/// What AES-256-GCM decryption yields for a key, a nonce and a ciphertext with
/// its appended tag: the plaintext, or `None` when the tag does not check.
pub uninterp spec fn aes256gcm_open(key: Seq<u8>, nonce: Seq<u8>, ciphertext: Seq<u8>) -> Option<Seq<u8>>;

/// The 32-byte Ed25519 public key that belongs to a 32-byte secret key.
pub uninterp spec fn ed25519_public_key(secret: Seq<u8>) -> Seq<u8>;

/// The 64-byte Ed25519 signature a secret key makes over a message.
pub uninterp spec fn ed25519_signature(secret: Seq<u8>, message: Seq<u8>) -> Seq<u8>;

/// Whether an Ed25519 public key accepts a signature over a message.
pub uninterp spec fn ed25519_accepts(public: Seq<u8>, message: Seq<u8>, signature: Seq<u8>) -> bool;

/// The 32-byte SHA-256 digest of a byte string.
pub uninterp spec fn sha256_digest(data: Seq<u8>) -> Seq<u8>;

/// Calls `Aes256Gcm::encrypt` (the `aead::Aead` method) with empty associated
/// data.  Claims, as the aes-gcm and aead sources show: it fails exactly when
/// the plaintext is longer than 2^36 bytes; otherwise the ciphertext is the
/// plaintext's length plus the 16-byte tag, and decrypting it with the same
/// key and nonce gives the plaintext back.
#[verifier::external_body]
pub(crate) fn aes256gcm_encrypt(key: &[u8; 32], nonce: &[u8; 12], plaintext: &[u8]) -> (sealed: Option<Vec<u8>>)
    ensures
        sealed is Some <==> plaintext@.len() <= AES_GCM_MAX_PLAINTEXT,
        sealed matches Some(c) ==> c@ == aes256gcm_seal(key@, nonce@, plaintext@),
        sealed matches Some(c) ==> c@.len() == plaintext@.len() + AES_GCM_TAG_LEN,
        sealed matches Some(c) ==> aes256gcm_open(key@, nonce@, c@) == Some(plaintext@),
{
    let cipher = Aes256Gcm::new(aes_gcm::Key::<Aes256Gcm>::from_slice(key));
    cipher.encrypt(Nonce::from_slice(nonce), plaintext).ok()
}

/// Calls `Aes256Gcm::decrypt` (the `aead::Aead` method) with empty associated
/// data.  Claims that the result is `aes256gcm_open` of the arguments, and,
/// as the aead source shows, that a ciphertext shorter than the tag is refused.
#[verifier::external_body]
pub(crate) fn aes256gcm_decrypt(key: &[u8; 32], nonce: &[u8; 12], ciphertext: &[u8]) -> (opened: Option<Vec<u8>>)
    ensures
        match opened {
            Some(p) => aes256gcm_open(key@, nonce@, ciphertext@) == Some(p@),
            None => aes256gcm_open(key@, nonce@, ciphertext@) is None,
        },
        ciphertext@.len() < AES_GCM_TAG_LEN ==> opened is None,
{
    let cipher = Aes256Gcm::new(aes_gcm::Key::<Aes256Gcm>::from_slice(key));
    cipher.decrypt(Nonce::from_slice(nonce), ciphertext).ok()
}

/// Calls `SigningKey::verifying_key` on the key made by `SigningKey::from_bytes`
/// and returns `VerifyingKey::to_bytes` of it.  Claims only that the result is
/// `ed25519_public_key` of the secret.
#[verifier::external_body]
pub(crate) fn ed25519_derive_public(secret: &[u8; 32]) -> (public: [u8; 32])
    ensures
        public@ == ed25519_public_key(secret@),
{
    SigningKey::from_bytes(secret).verifying_key().to_bytes()
}

/// Calls `Signer::sign` on the key made by `SigningKey::from_bytes` and returns
/// `Signature::to_bytes` of it.  Claims that the result is `ed25519_signature`
/// of the secret and the message, and that the public key of the same secret
/// accepts it, as the crate's documentation shows (a signature made by a
/// signing key verifies under its verifying key).
#[verifier::external_body]
pub(crate) fn ed25519_sign(secret: &[u8; 32], message: &[u8]) -> (signature: [u8; 64])
    ensures
        signature@ == ed25519_signature(secret@, message@),
        ed25519_accepts(ed25519_public_key(secret@), message@, signature@),
{
    SigningKey::from_bytes(secret).sign(message).to_bytes()
}

/// Calls `Verifier::verify` on the key made by `VerifyingKey::from_bytes`, with
/// the signature made by `Signature::from_bytes`; a key that does not decode is
/// refused.  Claims only that the answer is `ed25519_accepts` of the arguments.
#[verifier::external_body]
pub(crate) fn ed25519_verify(public: &[u8; 32], message: &[u8], signature: &[u8; 64]) -> (accepted: bool)
    ensures
        accepted == ed25519_accepts(public@, message@, signature@),
{
    match VerifyingKey::from_bytes(public) {
        Ok(key) => key.verify(message, &Signature::from_bytes(signature)).is_ok(),
        Err(_) => false,
    }
}

/// Calls `Digest::digest` for `Sha256`.  Claims only that the result is
/// `sha256_digest` of the data.
#[verifier::external_body]
pub(crate) fn sha256(data: &[u8]) -> (digest: [u8; 32])
    ensures
        digest@ == sha256_digest(data@),
{
    Sha256::digest(data).into()
}

/// Calls `rand::random::<[u8; 32]>()`: 32 bytes from the thread-local
/// generator.  Nothing is promised of their value.
#[verifier::external_body]
pub(crate) fn random_bytes_32() -> [u8; 32] {
    rand::random()
}

/// Calls `rand::random::<[u8; 12]>()`: 12 bytes from the thread-local
/// generator.  Nothing is promised of their value.
#[verifier::external_body]
pub(crate) fn random_bytes_12() -> [u8; 12] {
    rand::random()
}

/// Calls `rand::random::<u32>()`: a uniformly drawn word from the
/// thread-local generator.  Nothing is promised of its value.
#[verifier::external_body]
pub(crate) fn random_u32() -> u32 {
    rand::random()
}

} // verus!

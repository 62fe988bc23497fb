//! The sealing tool's logic: encrypting an asset, describing it in a
//! manifest and signing that manifest.

use vstd::prelude::*;
use vstd::string::StringExecFns;
use vstd::utf8::encode_utf8;
use crate::crypto::{
    aes256gcm_encrypt, aes256gcm_open, aes256gcm_seal, ed25519_accepts, ed25519_derive_public,
    ed25519_public_key, ed25519_sign, ed25519_signature, random_bytes_12, random_bytes_32, sha256,
    sha256_digest, AES_GCM_MAX_PLAINTEXT,
};
use crate::hex::{hex_chars, hex_encode};

verus! {

/// An asset sealed under AES-256-GCM, with the hexadecimal SHA-256 digest of
/// its ciphertext and its nonce in hexadecimal.
pub struct SealedAsset {
    pub key: [u8; 32],
    pub nonce: [u8; 12],
    pub ciphertext: Vec<u8>,
    pub sha256_hex: String,
    pub nonce_hex: String,
}

impl SealedAsset {
    /// The ciphertext is `data` sealed under the key and nonce, opens back to
    /// `data`, and the two hexadecimal fields describe the digest and the nonce.
    pub open spec fn seals(&self, data: Seq<u8>) -> bool {
        &&& self.ciphertext@ == aes256gcm_seal(self.key@, self.nonce@, data)
        &&& aes256gcm_open(self.key@, self.nonce@, self.ciphertext@) == Some(data)
        &&& self.sha256_hex@ == hex_chars(sha256_digest(self.ciphertext@))
        &&& self.nonce_hex@ == hex_chars(self.nonce@)
    }
}

/// Seals `data` under the given key and nonce.
pub fn seal_asset_with(data: &[u8], key: [u8; 32], nonce: [u8; 12]) -> (sealed: SealedAsset)
    requires
        data@.len() <= AES_GCM_MAX_PLAINTEXT,
    ensures
        sealed.key == key,
        sealed.nonce == nonce,
        sealed.seals(data@),
{
    let ciphertext = aes256gcm_encrypt(&key, &nonce, data).unwrap();
    let digest = sha256(ciphertext.as_slice());
    let sha256_hex = hex_encode(&digest);
    let nonce_hex = hex_encode(&nonce);
    SealedAsset { key, nonce, ciphertext, sha256_hex, nonce_hex }
}

/// Seals `data` under a fresh random key and nonce.
pub fn seal_asset(data: &[u8]) -> (sealed: SealedAsset)
    requires
        data@.len() <= AES_GCM_MAX_PLAINTEXT,
    ensures
        sealed.seals(data@),
{
    let key = random_bytes_32();
    let nonce = random_bytes_12();
    seal_asset_with(data, key, nonce)
}

/// The description of a sealed asset that the tool signs.
pub struct Manifest {
    pub file: String,
    pub sha256: String,
    pub nonce: String,
    pub tier: String,
}

/// The manifest of a sealed asset stored under the file name `file`: the
/// digest and nonce in hexadecimal, and the premium tier.
pub fn manifest_for(file: String, sealed: &SealedAsset) -> (manifest: Manifest)
    ensures
        manifest.file@ == file@,
        manifest.sha256@ == sealed.sha256_hex@,
        manifest.nonce@ == sealed.nonce_hex@,
        manifest.tier@ == "premium"@,
{
    Manifest {
        file,
        sha256: sealed.sha256_hex.clone(),
        nonce: sealed.nonce_hex.clone(),
        tier: String::from_str("premium"),
    }
}

/// A public key and its Ed25519 signature over a manifest.
pub struct ManifestSignature {
    pub public_key: [u8; 32],
    pub signature: [u8; 64],
}

/// Signs a serialised manifest with the given secret key.  The public key
/// that comes with the signature accepts it over the manifest's bytes.
pub fn sign_manifest_with(signing_secret: &[u8; 32], manifest_json: &str) -> (signed: ManifestSignature)
    ensures
        signed.public_key@ == ed25519_public_key(signing_secret@),
        signed.signature@ == ed25519_signature(signing_secret@, encode_utf8(manifest_json@)),
        ed25519_accepts(signed.public_key@, encode_utf8(manifest_json@), signed.signature@),
{
    let bytes = manifest_json.as_bytes();
    let signature = ed25519_sign(signing_secret, bytes);
    let public_key = ed25519_derive_public(signing_secret);
    ManifestSignature { public_key, signature }
}

/// Signs a serialised manifest with a fresh random secret key.  The public
/// key that comes with the signature accepts it over the manifest's bytes.
pub fn sign_manifest(manifest_json: &str) -> (signed: ManifestSignature)
    ensures
        ed25519_accepts(signed.public_key@, encode_utf8(manifest_json@), signed.signature@),
        exists|secret: Seq<u8>|
            #![trigger ed25519_public_key(secret)]
            secret.len() == 32 && signed.public_key@ == ed25519_public_key(secret)
                && signed.signature@ == ed25519_signature(secret, encode_utf8(manifest_json@)),
{
    let secret = random_bytes_32();
    let signed = sign_manifest_with(&secret, manifest_json);
    assert(secret@.len() == 32 && signed.public_key@ == ed25519_public_key(secret@));
    signed
}

} // verus!

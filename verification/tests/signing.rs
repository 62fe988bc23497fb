use aes_gcm::aead::{Aead, KeyInit};
use aes_gcm::{Aes256Gcm, Nonce};
use ed25519_dalek::{Signature, Verifier, VerifyingKey};
use ingen_drm::hex::hex_encode;
use ingen_drm::license::{issue_token, lease_payload, LEASE_SECONDS};
use ingen_drm::seal::{manifest_for, seal_asset, seal_asset_with, sign_manifest, sign_manifest_with};
use sha2::{Digest, Sha256};

fn unhex(s: &str) -> Vec<u8> {
    (0..s.len()).step_by(2).map(|i| u8::from_str_radix(&s[i..i + 2], 16).unwrap()).collect()
}

// RFC 8032, section 7.1, test 1.
const RFC_SECRET: &str = "9d61b19deffd5a60ba844af492ec2cc44449c5697b326919703bac031cae7f60";
const RFC_PUBLIC: &str = "d75a980182b10ab7d54bfed3c964073a0ee172f3daa62325af021a68f707511a";
const RFC_SIGNATURE: &str = "e5564300c360ac729086e2cc806e828a84877f1eb8e5d974d873e065224901555fb8821590a33bacc61e39701cf9b46bd25bf5f0595bbe24655141438e7a100b";

fn rfc_secret() -> [u8; 32] {
    unhex(RFC_SECRET).try_into().unwrap()
}

#[test]
fn lease_lasts_fourteen_days() {
    let p = lease_payload("device-1".to_string(), 1_700_000_000);
    assert_eq!(p.device_id, "device-1");
    assert_eq!(p.valid_until, 1_700_000_000 + 1_209_600);
    assert_eq!(LEASE_SECONDS, 1_209_600);
    assert_eq!(p.tier, "premium");
}

#[test]
fn lease_at_the_latest_time() {
    let p = lease_payload(String::new(), u64::MAX - LEASE_SECONDS);
    assert_eq!(p.valid_until, u64::MAX);
}

#[test]
fn issued_token_matches_rfc_vector() {
    let r = issue_token(&rfc_secret(), String::new());
    assert_eq!(r.token, "");
    assert_eq!(r.signature, RFC_SIGNATURE);
}

#[test]
fn issued_token_verifies_under_server_key() {
    let secret = [7u8; 32];
    let token = "{\"device_id\":\"abc\",\"valid_until\":42,\"tier\":\"premium\"}".to_string();
    let r = issue_token(&secret, token.clone());
    assert_eq!(r.token, token);
    assert_eq!(r.signature.len(), 128);
    let public = ed25519_dalek::SigningKey::from_bytes(&secret).verifying_key();
    let sig: [u8; 64] = unhex(&r.signature).try_into().unwrap();
    assert!(public.verify(token.as_bytes(), &Signature::from_bytes(&sig)).is_ok());
    assert!(public.verify(b"other", &Signature::from_bytes(&sig)).is_err());
}

#[test]
fn manifest_signature_matches_rfc_vector() {
    let s = sign_manifest_with(&rfc_secret(), "");
    assert_eq!(hex_encode(&s.public_key), RFC_PUBLIC);
    assert_eq!(hex_encode(&s.signature), RFC_SIGNATURE);
}

#[test]
fn random_manifest_signature_verifies() {
    let json = "{\n  \"file\": \"a.enc\"\n}";
    let s = sign_manifest(json);
    let key = VerifyingKey::from_bytes(&s.public_key).unwrap();
    assert!(key.verify(json.as_bytes(), &Signature::from_bytes(&s.signature)).is_ok());
}

// NIST GCM test case 14 (256-bit key, 96-bit IV, one zero block).
#[test]
fn sealing_matches_gcm_vector() {
    let sealed = seal_asset_with(&[0u8; 16], [0u8; 32], [0u8; 12]);
    assert_eq!(
        hex_encode(&sealed.ciphertext),
        "cea7403d4d606b6e074ec5d3baf39d18d0d1c8a799996bf0265b98b5d48ab919"
    );
    assert_eq!(sealed.nonce_hex, "000000000000000000000000");
    let digest: String = Sha256::digest(&sealed.ciphertext).iter().map(|b| format!("{:02x}", b)).collect();
    assert_eq!(sealed.sha256_hex, digest);
}

#[test]
fn sealing_empty_asset_gives_only_the_tag() {
    let sealed = seal_asset_with(&[], [0u8; 32], [0u8; 12]);
    assert_eq!(hex_encode(&sealed.ciphertext), "530f8afbc74536b9a963b4f1c4cb738b");
}

#[test]
fn sealed_asset_opens_back() {
    let data = b"level-1 geometry".to_vec();
    let sealed = seal_asset(&data);
    assert_eq!(sealed.ciphertext.len(), data.len() + 16);
    let cipher = Aes256Gcm::new_from_slice(&sealed.key).unwrap();
    let opened = cipher.decrypt(Nonce::from_slice(&sealed.nonce), sealed.ciphertext.as_ref()).unwrap();
    assert_eq!(opened, data);
    assert_eq!(sealed.nonce_hex, hex_encode(&sealed.nonce));
}

#[test]
fn manifest_describes_the_sealed_asset() {
    let sealed = seal_asset_with(b"abc", [1u8; 32], [2u8; 12]);
    let m = manifest_for("asset.enc".to_string(), &sealed);
    assert_eq!(m.file, "asset.enc");
    assert_eq!(m.sha256, sealed.sha256_hex);
    assert_eq!(m.nonce, "020202020202020202020202");
    assert_eq!(m.tier, "premium");
}

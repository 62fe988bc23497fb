//! The licence server's logic: what a lease token says and how it is signed.

use vstd::prelude::*;
use vstd::string::StringExecFns;
use vstd::utf8::encode_utf8;
use crate::crypto::{ed25519_accepts, ed25519_public_key, ed25519_sign, ed25519_signature};
use crate::hex::{hex_chars, hex_encode};

verus! {

/// How long an activation or a lease stays valid: fourteen days, in seconds.
pub const LEASE_SECONDS: u64 = 14 * 24 * 60 * 60;

/// What a lease token grants.
pub struct TokenPayload {
    pub device_id: String,
    pub valid_until: u64,
    pub tier: String,
}

/// A token and the hexadecimal Ed25519 signature over its bytes.
pub struct TokenResponse {
    pub token: String,
    pub signature: String,
}

/// The tier every activation grants.
pub open spec fn granted_tier() -> Seq<char> {
    "premium"@
}

/// The payload of a lease for a device activated at `now_secs` (seconds since
/// the epoch): the premium tier, valid for fourteen days.
pub fn lease_payload(device_id: String, now_secs: u64) -> (payload: TokenPayload)
    requires
        now_secs + LEASE_SECONDS <= u64::MAX,
    ensures
        payload.device_id@ == device_id@,
        payload.valid_until == now_secs + LEASE_SECONDS,
        payload.tier@ == granted_tier(),
{
    TokenPayload {
        device_id,
        valid_until: now_secs + LEASE_SECONDS,
        tier: String::from_str("premium"),
    }
}

/// Signs a serialised token with the server's secret key.  The response
/// carries the token unchanged and the signature in hexadecimal, and the
/// server's public key accepts that signature over the token's bytes.
pub fn issue_token(signing_secret: &[u8; 32], token_json: String) -> (response: TokenResponse)
    ensures
        response.token@ == token_json@,
        response.signature@ == hex_chars(ed25519_signature(signing_secret@, encode_utf8(token_json@))),
        response.signature@.len() == 128,
        ed25519_accepts(
            ed25519_public_key(signing_secret@),
            encode_utf8(response.token@),
            ed25519_signature(signing_secret@, encode_utf8(token_json@)),
        ),
{
    let signature = ed25519_sign(signing_secret, token_json.as_str().as_bytes());
    let signature_hex = hex_encode(&signature);
    TokenResponse { token: token_json, signature: signature_hex }
}

} // verus!

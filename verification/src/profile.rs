//! Protection profiles: the hooks a game calls at startup, at every frame
//! checkpoint and when it loads a protected asset, and the profiles that
//! model lightweight, heavy-handed and always-online DRM.

use vstd::prelude::*;
use vstd::string::{StringExecFns, StringSliceAdditionalSpecFns};
use crate::crypto::{
    aes256gcm_decrypt, aes256gcm_encrypt, aes256gcm_open, aes256gcm_seal, ed25519_accepts,
    ed25519_derive_public, ed25519_public_key, ed25519_signature,
    ed25519_sign, ed25519_verify, random_bytes_12, random_bytes_32, random_u32, sha256, sha256_digest,
};

verus! {

/// The hooks a DRM scheme offers a game.
pub trait ProtectionProfile: Send {
    /// The profile's internal invariant, established by its constructor.
    spec fn well_formed(&self) -> bool;

    /// Whether one more checkpoint stays clear of arithmetic overflow.
    spec fn checkpoint_in_range(&self) -> bool;

    /// Runs once when the game starts.
    fn on_startup(&mut self) -> (r: Result<(), &'static str>)
        requires
            old(self).well_formed(),
        ensures
            final(self).well_formed(),
    ;

    /// Runs once per simulated frame.
    fn on_checkpoint(&mut self) -> (r: Result<(), &'static str>)
        requires
            old(self).well_formed(),
            old(self).checkpoint_in_range(),
        ensures
            final(self).well_formed(),
    ;

    /// Loads the asset the profile protects.
    fn load_protected_asset(&mut self) -> (r: Result<Vec<u8>, String>)
        requires
            old(self).well_formed(),
        ensures
            final(self).well_formed(),
    ;

    /// Whether the profile has noticed tampering; by default it never has.
    fn check_tamper(&self) -> (tampered: bool)
        default_ensures
            !tampered,
    {
        false
    }
}

/// Length of the unprotected asset the baseline and online profiles hand out.
pub const PLAIN_ASSET_LEN: usize = 1024;

/// `len` zero bytes.
pub open spec fn zeros(len: nat) -> Seq<u8> {
    Seq::new(len, |i: int| 0u8)
}

/// A vector of `len` copies of `byte`.
fn filled(len: usize, byte: u8) -> (v: Vec<u8>)
    ensures
        v@ == Seq::new(len as nat, |i: int| byte),
{
    let v = vec![byte; len];
    assert(v@ =~= Seq::new(len as nat, |i: int| byte));
    v
}

/// No DRM at all.
pub struct Baseline;

impl ProtectionProfile for Baseline {
    open spec fn well_formed(&self) -> bool {
        true
    }

    open spec fn checkpoint_in_range(&self) -> bool {
        true
    }

    fn on_startup(&mut self) -> (r: Result<(), &'static str>)
        ensures
            r is Ok,
    {
        Ok(())
    }

    fn on_checkpoint(&mut self) -> (r: Result<(), &'static str>)
        ensures
            r is Ok,
    {
        Ok(())
    }

    fn load_protected_asset(&mut self) -> (r: Result<Vec<u8>, String>)
        ensures
            r matches Ok(v) && v@ == zeros(PLAIN_ASSET_LEN as nat),
    {
        Ok(filled(PLAIN_ASSET_LEN, 0u8))
    }
}

/// The memory block after `rounds` passes of artificial traffic at checkpoint
/// `counter`: pass `i` adds one (wrapping) to the byte at `(counter * i) % len`.
pub open spec fn memory_traffic(block: Seq<u8>, counter: nat, rounds: nat) -> Seq<u8>
    decreases rounds,
{
    if rounds == 0 {
        block
    } else {
        let prev = memory_traffic(block, counter, (rounds - 1) as nat);
        let idx = ((counter * (rounds - 1) as nat) % block.len()) as int;
        prev.update(idx, prev[idx].wrapping_add(1))
    }
}

/// Artificial traffic keeps the block's length.
pub proof fn lemma_memory_traffic_len(block: Seq<u8>, counter: nat, rounds: nat)
    requires
        block.len() > 0,
    ensures
        memory_traffic(block, counter, rounds).len() == block.len(),
    decreases rounds,
{
    if rounds > 0 {
        lemma_memory_traffic_len(block, counter, (rounds - 1) as nat);
    }
}

/// How many of the first `rounds` passes at checkpoint `counter` hit position
/// `k` of a block of `len` bytes.
pub open spec fn traffic_hits(counter: nat, rounds: nat, len: nat, k: int) -> nat
    decreases rounds,
{
    if rounds == 0 {
        0
    } else {
        traffic_hits(counter, (rounds - 1) as nat, len, k) + (if (counter * (rounds - 1) as nat)
            % len == k {
            1nat
        } else {
            0nat
        })
    }
}

/// After artificial traffic, every byte of the block has grown, modulo 256,
/// by the number of passes that hit it.
pub proof fn lemma_memory_traffic_hits(block: Seq<u8>, counter: nat, rounds: nat, k: int)
    requires
        block.len() > 0,
        0 <= k < block.len(),
    ensures
        memory_traffic(block, counter, rounds)[k] as nat == (block[k] as nat + traffic_hits(
            counter,
            rounds,
            block.len(),
            k,
        )) % 256,
    decreases rounds,
{
    if rounds > 0 {
        lemma_memory_traffic_hits(block, counter, (rounds - 1) as nat, k);
        lemma_memory_traffic_len(block, counter, (rounds - 1) as nat);
    }
}

/// Applies `rounds` passes of artificial traffic to `block` at checkpoint `counter`.
fn apply_memory_traffic(block: &mut Vec<u8>, counter: usize, rounds: usize)
    requires
        old(block)@.len() > 0,
        counter * (rounds - 1) <= usize::MAX,
    ensures
        final(block)@ == memory_traffic(old(block)@, counter as nat, rounds as nat),
{
    let ghost start = block@;
    let len = block.len();
    let mut i: usize = 0;
    while i < rounds
        invariant
            i <= rounds,
            len == start.len(),
            len > 0,
            counter * (rounds - 1) <= usize::MAX,
            block@ == memory_traffic(start, counter as nat, i as nat),
        decreases rounds - i,
    {
        proof {
            lemma_memory_traffic_len(start, counter as nat, i as nat);
            assert(counter * i <= counter * (rounds - 1)) by (nonlinear_arith)
                requires i < rounds;
        }
        let idx = (counter * i) % len;
        let v = block[idx].wrapping_add(1);
        block.set(idx, v);
        i = i + 1;
    }
}

/// Passes of artificial traffic per checkpoint in the abusive profile.
pub const ABUSIVE_TRAFFIC_ROUNDS: usize = 50000;

/// The abusive profile hashes its block on every checkpoint that is a multiple of this.
pub const ABUSIVE_HASH_PERIOD: usize = 5;

/// Size of the abusive profile's memory block.
pub const ABUSIVE_BLOCK_LEN: usize = 5 * 1024 * 1024;

/// Heavy-handed DRM at its worst: a large memory block hashed every few frames
/// and hammered with artificial traffic on every frame.
pub struct HeavyAbusive {
    checkpoint_counter: usize,
    memory_block: Vec<u8>,
    last_digest: Option<[u8; 32]>,
}

/// A kept digest, as bytes.
pub open spec fn digest_bytes(digest: Option<[u8; 32]>) -> Option<Seq<u8>> {
    match digest {
        Some(d) => Some(d@),
        None => None,
    }
}

impl HeavyAbusive {
    /// The checkpoints taken so far.
    pub closed spec fn checkpoints(&self) -> nat {
        self.checkpoint_counter as nat
    }

    /// The memory block's contents.
    pub closed spec fn memory(&self) -> Seq<u8> {
        self.memory_block@
    }

    /// The SHA-256 digest of the block taken at the last hashing checkpoint, if any.
    pub closed spec fn integrity_digest(&self) -> Option<Seq<u8>> {
        digest_bytes(self.last_digest)
    }

    /// A fresh profile: no checkpoint taken, a block of ones and no digest yet.
    pub fn new() -> (profile: Self)
        ensures
            profile.well_formed(),
            profile.checkpoints() == 0,
            profile.memory() == Seq::new(ABUSIVE_BLOCK_LEN as nat, |i: int| 1u8),
            profile.integrity_digest() is None,
    {
        let memory_block = filled(ABUSIVE_BLOCK_LEN, 1u8);
        HeavyAbusive { checkpoint_counter: 0, memory_block, last_digest: None }
    }

    /// The digest of the block taken at the last hashing checkpoint, if any.
    pub fn last_integrity_digest(&self) -> (digest: Option<[u8; 32]>)
        ensures
            digest_bytes(digest) == self.integrity_digest(),
    {
        self.last_digest
    }

    /// The number of checkpoints taken so far.
    pub fn checkpoint_counter(&self) -> (n: usize)
        ensures
            n == self.checkpoints(),
    {
        self.checkpoint_counter
    }

    /// The memory block's contents.
    pub fn memory_block(&self) -> (block: &[u8])
        ensures
            block@ == self.memory(),
    {
        self.memory_block.as_slice()
    }
}

impl ProtectionProfile for HeavyAbusive {
    closed spec fn well_formed(&self) -> bool {
        self.memory_block@.len() == ABUSIVE_BLOCK_LEN
    }

    open spec fn checkpoint_in_range(&self) -> bool {
        (self.checkpoints() + 1) * (ABUSIVE_TRAFFIC_ROUNDS - 1) <= usize::MAX
    }

    fn on_startup(&mut self) -> (r: Result<(), &'static str>)
        ensures
            r is Ok,
            *final(self) == *old(self),
    {
        Ok(())
    }

    fn on_checkpoint(&mut self) -> (r: Result<(), &'static str>)
        ensures
            r is Ok,
            final(self).checkpoints() == old(self).checkpoints() + 1,
            final(self).memory().len() == old(self).memory().len(),
            final(self).memory() == memory_traffic(
                old(self).memory(),
                final(self).checkpoints(),
                ABUSIVE_TRAFFIC_ROUNDS as nat,
            ),
            final(self).checkpoints() % (ABUSIVE_HASH_PERIOD as nat) == 0 ==> final(self).integrity_digest() == Some(
                sha256_digest(old(self).memory()),
            ),
            final(self).checkpoints() % (ABUSIVE_HASH_PERIOD as nat) != 0 ==> final(self).integrity_digest()
                == old(self).integrity_digest(),
    {
        self.checkpoint_counter = self.checkpoint_counter + 1;
        if self.checkpoint_counter % ABUSIVE_HASH_PERIOD == 0 {
            self.last_digest = Some(sha256(self.memory_block.as_slice()));
        }
        apply_memory_traffic(&mut self.memory_block, self.checkpoint_counter, ABUSIVE_TRAFFIC_ROUNDS);
        proof {
            lemma_memory_traffic_len(old(self).memory_block@, self.checkpoint_counter as nat, ABUSIVE_TRAFFIC_ROUNDS as nat);
        }
        Ok(())
    }

    fn load_protected_asset(&mut self) -> (r: Result<Vec<u8>, String>)
        ensures
            r matches Ok(v) && v@.len() == 0,
            *final(self) == *old(self),
    {
        Ok(Vec::new())
    }
}

/// A well-formed abusive profile, however it was used, keeps its 5 MiB block.
pub proof fn lemma_abusive_block_len(profile: &HeavyAbusive)
    requires
        profile.well_formed(),
    ensures
        profile.memory().len() == ABUSIVE_BLOCK_LEN,
{
}

/// The licence token whose signature the profiles check at startup.
pub open spec fn license_token() -> Seq<u8> {
    "valid_license_token".spec_bytes()
}

/// The licence token's bytes.
fn license_token_bytes() -> (token: &'static [u8])
    ensures
        token@ == license_token(),
{
    "valid_license_token".as_bytes()
}

/// Length of the asset the cryptographic profiles seal at construction.
pub const SEALED_ASSET_LEN: usize = 1024 * 1024;

/// The byte the sealed asset is filled with.
pub const SEALED_ASSET_BYTE: u8 = 42;

/// The plaintext of the asset the cryptographic profiles seal.
pub open spec fn sealed_asset() -> Seq<u8> {
    Seq::new(SEALED_ASSET_LEN as nat, |i: int| SEALED_ASSET_BYTE)
}

/// The licence material of a cryptographic profile: AES-256-GCM key, nonce,
/// sealed asset, Ed25519 verifying key and signature over the licence token.
pub type LicenseMaterial = (Seq<u8>, Seq<u8>, Seq<u8>, Seq<u8>, Seq<u8>);

/// The material made from a signing secret, an AES key and a nonce: the asset
/// sealed under the key and nonce, the secret's public key and its signature
/// over the licence token.
pub open spec fn license_material(secret: Seq<u8>, key: Seq<u8>, nonce: Seq<u8>) -> LicenseMaterial {
    (
        key,
        nonce,
        aes256gcm_seal(key, nonce, sealed_asset()),
        ed25519_public_key(secret),
        ed25519_signature(secret, license_token()),
    )
}

/// The parts every cryptographic profile holds: an AES-256-GCM key and nonce,
/// the asset sealed under them, an Ed25519 verifying key and its signature
/// over the licence token.
struct SealedLicense {
    key: [u8; 32],
    nonce: [u8; 12],
    encrypted_asset: Vec<u8>,
    verifying_key: [u8; 32],
    signature: [u8; 64],
}

impl SealedLicense {
    /// The asset opens under the key and nonce, and the licence signature checks.
    spec fn valid(&self) -> bool {
        &&& aes256gcm_open(self.key@, self.nonce@, self.encrypted_asset@) == Some(sealed_asset())
        &&& ed25519_accepts(self.verifying_key@, license_token(), self.signature@)
    }

    /// The material held: AES key, nonce, sealed asset, verifying key and signature.
    spec fn material(&self) -> LicenseMaterial {
        (self.key@, self.nonce@, self.encrypted_asset@, self.verifying_key@, self.signature@)
    }

    /// Signs the licence token with `secret` and seals the asset under `key` and `nonce`.
    fn from_secrets(secret: &[u8; 32], key: [u8; 32], nonce: [u8; 12]) -> (parts: Self)
        ensures
            parts.valid(),
            parts.material() == license_material(secret@, key@, nonce@),
    {
        let verifying_key = ed25519_derive_public(secret);
        let signature = ed25519_sign(secret, license_token_bytes());
        let asset = filled(SEALED_ASSET_LEN, SEALED_ASSET_BYTE);
        let encrypted_asset = aes256gcm_encrypt(&key, &nonce, asset.as_slice()).unwrap();
        SealedLicense { key, nonce, encrypted_asset, verifying_key, signature }
    }

    /// Whether the licence signature checks.
    fn verify_license(&self) -> (ok: bool)
        ensures
            ok == ed25519_accepts(self.verifying_key@, license_token(), self.signature@),
    {
        ed25519_verify(&self.verifying_key, license_token_bytes(), &self.signature)
    }

    /// Decrypts the sealed asset.
    fn open_asset(&self) -> (r: Result<Vec<u8>, String>)
        ensures
            match aes256gcm_open(self.key@, self.nonce@, self.encrypted_asset@) {
                Some(p) => r matches Ok(v) && v@ == p,
                None => r matches Err(e) && e@ == "Decryption failed"@,
            },
    {
        match aes256gcm_decrypt(&self.key, &self.nonce, self.encrypted_asset.as_slice()) {
            Some(v) => Ok(v),
            None => Err(String::from_str("Decryption failed")),
        }
    }
}

/// InGen, the lightweight scheme: the licence signature is checked once at
/// startup, after which an integrity watchdog runs off the main thread; the
/// asset is decrypted on load and checkpoints cost nothing.
pub struct InGen {
    parts: SealedLicense,
    watchdog_armed: bool,
}

impl InGen {
    /// Whether startup has succeeded and asked for the integrity watchdog.
    pub closed spec fn armed(&self) -> bool {
        self.watchdog_armed
    }

    /// The licence material the profile holds.
    pub closed spec fn material(&self) -> LicenseMaterial {
        self.parts.material()
    }

    /// A profile whose licence is signed with `signing_secret` and whose asset
    /// is sealed under `key` and `nonce`; the watchdog is not armed yet.
    pub fn from_secrets(signing_secret: [u8; 32], key: [u8; 32], nonce: [u8; 12]) -> (profile: Self)
        ensures
            profile.well_formed(),
            !profile.armed(),
            profile.material() == license_material(signing_secret@, key@, nonce@),
    {
        InGen { parts: SealedLicense::from_secrets(&signing_secret, key, nonce), watchdog_armed: false }
    }

    /// A fresh profile with new random keys, the licence signed and the asset
    /// sealed; the watchdog is not armed yet.
    pub fn new() -> (profile: Self)
        ensures
            profile.well_formed(),
            !profile.armed(),
    {
        let signing_secret = random_bytes_32();
        let key = random_bytes_32();
        let nonce = random_bytes_12();
        InGen::from_secrets(signing_secret, key, nonce)
    }

    /// Whether startup has succeeded, so that the integrity watchdog should run.
    pub fn watchdog_armed(&self) -> (armed: bool)
        ensures
            armed == self.armed(),
    {
        self.watchdog_armed
    }
}

impl ProtectionProfile for InGen {
    closed spec fn well_formed(&self) -> bool {
        self.parts.valid()
    }

    open spec fn checkpoint_in_range(&self) -> bool {
        true
    }

    fn on_startup(&mut self) -> (r: Result<(), &'static str>)
        ensures
            r is Ok,
            final(self).armed(),
            final(self).material() == old(self).material(),
    {
        if !self.parts.verify_license() {
            return Err("License verification failed");
        }
        self.watchdog_armed = true;
        Ok(())
    }

    fn on_checkpoint(&mut self) -> (r: Result<(), &'static str>)
        ensures
            r is Ok,
            *final(self) == *old(self),
    {
        Ok(())
    }

    fn load_protected_asset(&mut self) -> (r: Result<Vec<u8>, String>)
        ensures
            r matches Ok(v) && v@ == sealed_asset(),
            *final(self) == *old(self),
    {
        self.parts.open_asset()
    }
}

/// Passes of artificial traffic per checkpoint in the reasonable heavy profile.
pub const REASONABLE_TRAFFIC_ROUNDS: usize = 1000;

/// The reasonable heavy profile hashes its block on every checkpoint that is a multiple of this.
pub const REASONABLE_HASH_PERIOD: usize = 60;

/// Size of the reasonable heavy profile's memory block.
pub const REASONABLE_BLOCK_LEN: usize = 2 * 1024 * 1024;

/// The block after the synchronous integrity hash of checkpoint `counter`: on
/// every hashing checkpoint its first byte is xor-ed with the digest's first byte.
pub open spec fn reasonable_hash_step(block: Seq<u8>, counter: nat) -> Seq<u8> {
    if counter % (REASONABLE_HASH_PERIOD as nat) == 0 {
        block.update(0, block[0] ^ sha256_digest(block)[0])
    } else {
        block
    }
}

/// The synchronous hash of the reasonable heavy profile: on a checkpoint whose
/// number is not a multiple of sixty the block is left as it is; on one that is,
/// only the first byte changes, xor-ed with the first byte of the block's
/// SHA-256 digest; and checkpoints sixty apart hash alike.
pub proof fn lemma_reasonable_hash_step(block: Seq<u8>, counter: nat)
    requires
        block.len() > 0,
    ensures
        reasonable_hash_step(block, counter).len() == block.len(),
        counter % 60 != 0 ==> reasonable_hash_step(block, counter) == block,
        counter % 60 == 0 ==> reasonable_hash_step(block, counter)[0] == block[0]
            ^ sha256_digest(block)[0],
        forall|k: int|
            0 < k < block.len() ==> #[trigger] reasonable_hash_step(block, counter)[k] == block[k],
        reasonable_hash_step(block, counter + 60) == reasonable_hash_step(block, counter),
{
    assert((counter + 60) % 60 == counter % 60);
}

/// Heavy-handed DRM kept within reason: the licence is checked at startup,
/// a memory block is hashed synchronously every sixty frames and lightly
/// hammered on every frame, and the asset is decrypted on load.
pub struct HeavyReasonable {
    parts: SealedLicense,
    checkpoint_counter: usize,
    memory_block: Vec<u8>,
}

impl HeavyReasonable {
    /// The checkpoints taken so far.
    pub closed spec fn checkpoints(&self) -> nat {
        self.checkpoint_counter as nat
    }

    /// The memory block's contents.
    pub closed spec fn memory(&self) -> Seq<u8> {
        self.memory_block@
    }

    /// The licence material the profile holds.
    pub closed spec fn material(&self) -> LicenseMaterial {
        self.parts.material()
    }

    /// A profile whose licence is signed with `signing_secret` and whose asset
    /// is sealed under `key` and `nonce`, with no checkpoint taken and a block of ones.
    pub fn from_secrets(signing_secret: [u8; 32], key: [u8; 32], nonce: [u8; 12]) -> (profile: Self)
        ensures
            profile.well_formed(),
            profile.checkpoints() == 0,
            profile.memory() == Seq::new(REASONABLE_BLOCK_LEN as nat, |i: int| 1u8),
            profile.material() == license_material(signing_secret@, key@, nonce@),
    {
        let parts = SealedLicense::from_secrets(&signing_secret, key, nonce);
        HeavyReasonable { parts, checkpoint_counter: 0, memory_block: filled(REASONABLE_BLOCK_LEN, 1u8) }
    }

    /// A fresh profile with new random keys, the licence signed, the asset
    /// sealed, no checkpoint taken and a block of ones.
    pub fn new() -> (profile: Self)
        ensures
            profile.well_formed(),
            profile.checkpoints() == 0,
            profile.memory() == Seq::new(REASONABLE_BLOCK_LEN as nat, |i: int| 1u8),
    {
        let signing_secret = random_bytes_32();
        let key = random_bytes_32();
        let nonce = random_bytes_12();
        HeavyReasonable::from_secrets(signing_secret, key, nonce)
    }

    /// The number of checkpoints taken so far.
    pub fn checkpoint_counter(&self) -> (n: usize)
        ensures
            n == self.checkpoints(),
    {
        self.checkpoint_counter
    }

    /// The memory block's contents.
    pub fn memory_block(&self) -> (block: &[u8])
        ensures
            block@ == self.memory(),
    {
        self.memory_block.as_slice()
    }
}

impl ProtectionProfile for HeavyReasonable {
    closed spec fn well_formed(&self) -> bool {
        &&& self.parts.valid()
        &&& self.memory_block@.len() == REASONABLE_BLOCK_LEN
    }

    open spec fn checkpoint_in_range(&self) -> bool {
        (self.checkpoints() + 1) * (REASONABLE_TRAFFIC_ROUNDS - 1) <= usize::MAX
    }

    fn on_startup(&mut self) -> (r: Result<(), &'static str>)
        ensures
            r is Ok,
            *final(self) == *old(self),
    {
        if !self.parts.verify_license() {
            return Err("Verification failed");
        }
        Ok(())
    }

    fn on_checkpoint(&mut self) -> (r: Result<(), &'static str>)
        ensures
            r is Ok,
            final(self).checkpoints() == old(self).checkpoints() + 1,
            final(self).memory().len() == old(self).memory().len(),
            final(self).material() == old(self).material(),
            final(self).memory() == memory_traffic(
                reasonable_hash_step(old(self).memory(), final(self).checkpoints()),
                final(self).checkpoints(),
                REASONABLE_TRAFFIC_ROUNDS as nat,
            ),
    {
        self.checkpoint_counter = self.checkpoint_counter + 1;
        if self.checkpoint_counter % REASONABLE_HASH_PERIOD == 0 {
            let digest = sha256(self.memory_block.as_slice());
            let first = self.memory_block[0] ^ digest[0];
            self.memory_block.set(0, first);
        }
        proof {
            assert(self.memory_block@ =~= reasonable_hash_step(old(self).memory_block@, self.checkpoint_counter as nat));
        }
        apply_memory_traffic(&mut self.memory_block, self.checkpoint_counter, REASONABLE_TRAFFIC_ROUNDS);
        proof {
            lemma_memory_traffic_len(
                reasonable_hash_step(old(self).memory_block@, self.checkpoint_counter as nat),
                self.checkpoint_counter as nat,
                REASONABLE_TRAFFIC_ROUNDS as nat,
            );
        }
        Ok(())
    }

    fn load_protected_asset(&mut self) -> (r: Result<Vec<u8>, String>)
        ensures
            r matches Ok(v) && v@ == sealed_asset(),
            *final(self) == *old(self),
    {
        self.parts.open_asset()
    }
}

/// A well-formed reasonable heavy profile, however it was used, keeps its 2 MiB block.
pub proof fn lemma_reasonable_block_len(profile: &HeavyReasonable)
    requires
        profile.well_formed(),
    ensures
        profile.memory().len() == REASONABLE_BLOCK_LEN,
{
}

/// Stall, in milliseconds, for the online profile's authentication handshake.
pub const HANDSHAKE_STALL_MS: u64 = 50;

/// Stall, in milliseconds, while a network heartbeat acknowledgement is awaited.
pub const HEARTBEAT_STALL_MS: u64 = 15;

/// A checkpoint waits for a heartbeat when a uniformly drawn word falls below
/// this bound: exactly when the word's top 24 bits, read as a fraction of
/// 2^24, fall below 0.05, which is how a random `f32` in [0, 1) is made from
/// a word.  That is about one draw in twenty.
pub const HEARTBEAT_WAIT_THRESHOLD: u32 = 214748416;

/// The stall a checkpoint of the online profile incurs for a random draw.
pub fn heartbeat_stall_ms(draw: u32) -> (ms: u64)
    ensures
        ms == (if draw < HEARTBEAT_WAIT_THRESHOLD { HEARTBEAT_STALL_MS } else { 0 }),
{
    if draw < HEARTBEAT_WAIT_THRESHOLD {
        HEARTBEAT_STALL_MS
    } else {
        0
    }
}

/// The heartbeat threshold is the five-percent cut of a random `f32` made from
/// the word's top 24 bits: a word lies below it exactly when twenty times its
/// top 24 bits fall short of 2^24.
pub proof fn lemma_heartbeat_threshold(draw: u32)
    ensures
        (draw < HEARTBEAT_WAIT_THRESHOLD) <==> 20 * (draw / 256) < 0x1000000,
{
}

/// Always-online DRM: an authentication handshake at startup and, now and
/// then, a frame spent waiting for a network heartbeat.  The profile decides
/// how long each hook stalls; the caller sleeps that long.
pub struct AlwaysOnline {
    pending_stall_ms: u64,
    last_draw: u32,
}

impl AlwaysOnline {
    /// The stall the last hook asked for and that has not been taken yet.
    pub closed spec fn pending(&self) -> u64 {
        self.pending_stall_ms
    }

    /// The random word drawn at the last checkpoint.
    pub closed spec fn draw(&self) -> u32 {
        self.last_draw
    }

    /// The random word drawn at the last checkpoint (zero before any).
    pub fn last_draw(&self) -> (word: u32)
        ensures
            word == self.draw(),
    {
        self.last_draw
    }

    /// A fresh profile with no stall pending.
    pub fn new() -> (profile: Self)
        ensures
            profile.pending() == 0,
    {
        AlwaysOnline { pending_stall_ms: 0, last_draw: 0 }
    }

    /// Hands out the pending stall, in milliseconds, and clears it.
    pub fn take_stall_ms(&mut self) -> (ms: u64)
        ensures
            ms == old(self).pending(),
            final(self).pending() == 0,
    {
        let ms = self.pending_stall_ms;
        self.pending_stall_ms = 0;
        ms
    }
}

impl ProtectionProfile for AlwaysOnline {
    open spec fn well_formed(&self) -> bool {
        true
    }

    open spec fn checkpoint_in_range(&self) -> bool {
        true
    }

    fn on_startup(&mut self) -> (r: Result<(), &'static str>)
        ensures
            r is Ok,
            final(self).pending() == HANDSHAKE_STALL_MS,
    {
        self.pending_stall_ms = HANDSHAKE_STALL_MS;
        Ok(())
    }

    fn on_checkpoint(&mut self) -> (r: Result<(), &'static str>)
        ensures
            r is Ok,
            final(self).pending() == HEARTBEAT_STALL_MS || final(self).pending() == 0,
            final(self).pending() == (if final(self).draw() < HEARTBEAT_WAIT_THRESHOLD {
                HEARTBEAT_STALL_MS
            } else {
                0
            }),
    {
        let draw = random_u32();
        self.last_draw = draw;
        self.pending_stall_ms = heartbeat_stall_ms(draw);
        Ok(())
    }

    fn load_protected_asset(&mut self) -> (r: Result<Vec<u8>, String>)
        ensures
            r matches Ok(v) && v@ == zeros(PLAIN_ASSET_LEN as nat),
            *final(self) == *old(self),
    {
        Ok(filled(PLAIN_ASSET_LEN, 0u8))
    }
}

/// Size of the scratch buffer the virtualisation profile churns every frame.
pub const VM_SCRATCH_LEN: usize = 1024 * 512;

/// The scratch buffer after one virtualised pass: every byte of a zeroed
/// buffer incremented once.
fn vm_scratch_pass() -> (data: Vec<u8>)
    ensures
        data@ == Seq::new(VM_SCRATCH_LEN as nat, |i: int| 1u8),
{
    let mut data = filled(VM_SCRATCH_LEN, 0u8);
    let mut i: usize = 0;
    while i < data.len()
        invariant
            data@.len() == VM_SCRATCH_LEN,
            i <= data@.len(),
            forall|j: int| 0 <= j < i ==> data@[j] == 1u8,
            forall|j: int| i <= j < data@.len() ==> data@[j] == 0u8,
        decreases data@.len() - i,
    {
        let v = data[i].wrapping_add(1);
        data.set(i, v);
        i = i + 1;
    }
    assert(data@ =~= Seq::new(VM_SCRATCH_LEN as nat, |i: int| 1u8));
    data
}

/// DRM built on instruction virtualisation: every frame pays for a
/// synchronous churn-and-hash pass over a scratch buffer.
pub struct VMAntitamper {
    last_digest: Option<[u8; 32]>,
}

impl VMAntitamper {
    /// The SHA-256 digest of the scratch buffer taken at the last checkpoint, if any.
    pub closed spec fn scratch_digest(&self) -> Option<Seq<u8>> {
        digest_bytes(self.last_digest)
    }

    /// The profile, before any checkpoint.
    pub fn new() -> (profile: Self)
        ensures
            profile.scratch_digest() is None,
    {
        VMAntitamper { last_digest: None }
    }

    /// The digest of the scratch buffer taken at the last checkpoint, if any.
    pub fn last_scratch_digest(&self) -> (digest: Option<[u8; 32]>)
        ensures
            digest_bytes(digest) == self.scratch_digest(),
    {
        self.last_digest
    }
}

impl ProtectionProfile for VMAntitamper {
    open spec fn well_formed(&self) -> bool {
        true
    }

    open spec fn checkpoint_in_range(&self) -> bool {
        true
    }

    fn on_startup(&mut self) -> (r: Result<(), &'static str>)
        ensures
            r is Ok,
            *final(self) == *old(self),
    {
        Ok(())
    }

    fn on_checkpoint(&mut self) -> (r: Result<(), &'static str>)
        ensures
            r is Ok,
            final(self).scratch_digest() == Some(
                sha256_digest(Seq::new(VM_SCRATCH_LEN as nat, |i: int| 1u8)),
            ),
    {
        let data = vm_scratch_pass();
        self.last_digest = Some(sha256(data.as_slice()));
        Ok(())
    }

    fn load_protected_asset(&mut self) -> (r: Result<Vec<u8>, String>)
        ensures
            r matches Ok(v) && v@ == zeros(PLAIN_ASSET_LEN as nat),
            *final(self) == *old(self),
    {
        Ok(filled(PLAIN_ASSET_LEN, 0u8))
    }
}

} // verus!

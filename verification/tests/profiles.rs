use ingen_drm::profile::{
    heartbeat_stall_ms, AlwaysOnline, Baseline, HeavyAbusive, HeavyReasonable, InGen,
    ProtectionProfile, VMAntitamper, ABUSIVE_BLOCK_LEN, HANDSHAKE_STALL_MS, HEARTBEAT_STALL_MS,
    HEARTBEAT_WAIT_THRESHOLD, REASONABLE_BLOCK_LEN, SEALED_ASSET_LEN,
};
use sha2::{Digest, Sha256};

fn traffic(block: &mut [u8], counter: usize, rounds: usize) {
    for i in 0..rounds {
        let idx = (counter * i) % block.len();
        block[idx] = block[idx].wrapping_add(1);
    }
}

#[test]
fn baseline_hooks_succeed_and_asset_is_zeros() {
    let mut p = Baseline;
    assert_eq!(p.on_startup(), Ok(()));
    assert_eq!(p.on_checkpoint(), Ok(()));
    assert_eq!(p.load_protected_asset(), Ok(vec![0u8; 1024]));
    assert!(!p.check_tamper());
}

#[test]
fn ingen_startup_verifies_licence_and_arms_watchdog() {
    let mut p = InGen::new();
    assert!(!p.watchdog_armed());
    assert_eq!(p.on_startup(), Ok(()));
    assert!(p.watchdog_armed());
    assert_eq!(p.on_checkpoint(), Ok(()));
    assert!(!p.check_tamper());
}

#[test]
fn ingen_decrypts_the_asset_it_sealed() {
    let mut p = InGen::new();
    let asset = p.load_protected_asset().unwrap();
    assert_eq!(asset.len(), SEALED_ASSET_LEN);
    assert!(asset.iter().all(|&b| b == 42));
    // loading twice gives the same asset
    assert_eq!(p.load_protected_asset().unwrap(), asset);
}

#[test]
fn heavy_reasonable_startup_and_asset() {
    let mut p = HeavyReasonable::new();
    assert_eq!(p.on_startup(), Ok(()));
    let asset = p.load_protected_asset().unwrap();
    assert_eq!(asset, vec![42u8; 1024 * 1024]);
    assert!(!p.check_tamper());
}

#[test]
fn heavy_reasonable_first_checkpoint_traffic() {
    let mut p = HeavyReasonable::new();
    assert_eq!(p.checkpoint_counter(), 0);
    assert_eq!(p.on_checkpoint(), Ok(()));
    assert_eq!(p.checkpoint_counter(), 1);
    let block = p.memory_block();
    assert_eq!(block.len(), REASONABLE_BLOCK_LEN);
    assert!(block[..1000].iter().all(|&b| b == 2));
    assert!(block[1000..].iter().all(|&b| b == 1));
}

#[test]
fn heavy_reasonable_sixty_checkpoints_hash_the_block() {
    let mut p = HeavyReasonable::new();
    let mut model = vec![1u8; REASONABLE_BLOCK_LEN];
    for counter in 1..=60usize {
        assert_eq!(p.on_checkpoint(), Ok(()));
        if counter % 60 == 0 {
            let digest = Sha256::digest(&model);
            model[0] ^= digest[0];
        }
        traffic(&mut model, counter, 1000);
    }
    assert_eq!(p.checkpoint_counter(), 60);
    assert_eq!(p.memory_block(), &model[..]);
}

#[test]
fn heavy_abusive_checkpoint_traffic() {
    let mut p = HeavyAbusive::new();
    assert_eq!(p.on_startup(), Ok(()));
    assert_eq!(p.on_checkpoint(), Ok(()));
    assert_eq!(p.checkpoint_counter(), 1);
    let block = p.memory_block();
    assert_eq!(block.len(), ABUSIVE_BLOCK_LEN);
    assert!(block[..50000].iter().all(|&b| b == 2));
    assert!(block[50000..].iter().all(|&b| b == 1));
}

#[test]
fn heavy_abusive_follows_the_traffic_formula() {
    let mut p = HeavyAbusive::new();
    let mut model = vec![1u8; ABUSIVE_BLOCK_LEN];
    for counter in 1..=6usize {
        assert_eq!(p.on_checkpoint(), Ok(()));
        traffic(&mut model, counter, 50000);
    }
    assert_eq!(p.checkpoint_counter(), 6);
    assert_eq!(p.memory_block(), &model[..]);
    assert_eq!(p.load_protected_asset(), Ok(vec![]));
}

#[test]
fn heartbeat_stall_threshold() {
    assert_eq!(heartbeat_stall_ms(0), HEARTBEAT_STALL_MS);
    assert_eq!(heartbeat_stall_ms(HEARTBEAT_WAIT_THRESHOLD - 1), 15);
    assert_eq!(heartbeat_stall_ms(HEARTBEAT_WAIT_THRESHOLD), 0);
    assert_eq!(heartbeat_stall_ms(u32::MAX), 0);
}

#[test]
fn always_online_stalls_are_handed_out_once() {
    let mut p = AlwaysOnline::new();
    assert_eq!(p.take_stall_ms(), 0);
    assert_eq!(p.on_startup(), Ok(()));
    assert_eq!(p.take_stall_ms(), HANDSHAKE_STALL_MS);
    assert_eq!(p.take_stall_ms(), 0);
    for _ in 0..200 {
        assert_eq!(p.on_checkpoint(), Ok(()));
        let stall = p.take_stall_ms();
        assert!(stall == 0 || stall == 15);
    }
    assert_eq!(p.load_protected_asset(), Ok(vec![0u8; 1024]));
}

#[test]
fn vm_antitamper_hooks_succeed() {
    let mut p = VMAntitamper::new();
    assert_eq!(p.on_startup(), Ok(()));
    assert_eq!(p.on_checkpoint(), Ok(()));
    assert_eq!(p.load_protected_asset(), Ok(vec![0u8; 1024]));
    assert!(!p.check_tamper());
}

#[test]
fn heartbeat_matches_float_draw_below_five_percent() {
    assert_eq!(HEARTBEAT_WAIT_THRESHOLD, 214748416);
    assert_eq!(heartbeat_stall_ms(214748415), 15);
    assert_eq!(heartbeat_stall_ms(214748416), 0);
    for word in (214748000u32..214749000).chain([0u32, 1 << 31, u32::MAX]) {
        let as_float = (word >> 8) as f32 * (1.0 / (1u32 << 24) as f32);
        let expected = if as_float < 0.05 { 15 } else { 0 };
        assert_eq!(heartbeat_stall_ms(word), expected, "word {}", word);
    }
}

#[test]
fn profiles_from_given_secrets_start_and_load() {
    let mut p = InGen::from_secrets([9u8; 32], [0u8; 32], [0u8; 12]);
    assert!(!p.watchdog_armed());
    assert_eq!(p.on_startup(), Ok(()));
    assert!(p.watchdog_armed());
    assert_eq!(p.load_protected_asset().unwrap(), vec![42u8; SEALED_ASSET_LEN]);
    let mut q = HeavyReasonable::from_secrets([9u8; 32], [3u8; 32], [4u8; 12]);
    assert_eq!(q.checkpoint_counter(), 0);
    assert_eq!(q.on_startup(), Ok(()));
    assert_eq!(q.on_checkpoint(), Ok(()));
    assert_eq!(q.load_protected_asset().unwrap(), vec![42u8; SEALED_ASSET_LEN]);
}

use ingen_drm::modes::{
    create_profile, gameplay_halted, telemetry_first_line, violation_message, AnyProfile, Mode,
    VisualTheme,
};
use ingen_drm::profile::ProtectionProfile;

#[test]
fn mode_names() {
    assert_eq!(Mode::Baseline.name(), "Baseline (No DRM)");
    assert_eq!(Mode::InGen.name(), "InGen (Lightweight)");
    assert_eq!(Mode::HeavyReasonable.name(), "Heavy-Reasonable (Sync VM/Thunks)");
    assert_eq!(Mode::HeavyAbusive.name(), "Heavy-Abusive (Worst Case)");
    assert_eq!(Mode::AlwaysOnline.name(), "Always Online (Network micro-stutters)");
    assert_eq!(Mode::VMAntitamper.name(), "VM Anti-tamper (Denuvo-style obfuscation)");
}

#[test]
fn theme_names_and_cycle() {
    assert_eq!(VisualTheme::Cubes.name(), "Abstract Cubes");
    assert_eq!(VisualTheme::VoxelTerrain.name(), "Voxel Terrain");
    assert_eq!(VisualTheme::WireframeSpace.name(), "Wireframe Space");
    assert_eq!(VisualTheme::Cubes.next(), VisualTheme::VoxelTerrain);
    assert_eq!(VisualTheme::VoxelTerrain.next(), VisualTheme::WireframeSpace);
    assert_eq!(VisualTheme::WireframeSpace.next(), VisualTheme::Cubes);
    for t in [VisualTheme::Cubes, VisualTheme::VoxelTerrain, VisualTheme::WireframeSpace] {
        assert_eq!(t.next().next().next(), t);
        assert_ne!(t.next(), t);
    }
}

#[test]
fn every_mode_runs_its_profile() {
    let modes = [
        Mode::Baseline,
        Mode::InGen,
        Mode::HeavyReasonable,
        Mode::HeavyAbusive,
        Mode::AlwaysOnline,
        Mode::VMAntitamper,
    ];
    for mode in modes {
        let mut p = create_profile(&mode);
        let matches_mode = match (&p, mode) {
            (AnyProfile::Baseline(_), Mode::Baseline) => true,
            (AnyProfile::InGen(_), Mode::InGen) => true,
            (AnyProfile::HeavyReasonable(_), Mode::HeavyReasonable) => true,
            (AnyProfile::HeavyAbusive(_), Mode::HeavyAbusive) => true,
            (AnyProfile::AlwaysOnline(_), Mode::AlwaysOnline) => true,
            (AnyProfile::VMAntitamper(_), Mode::VMAntitamper) => true,
            _ => false,
        };
        assert!(matches_mode);
        assert_eq!(p.on_startup(), Ok(()));
        assert_eq!(p.on_checkpoint(), Ok(()));
        let asset = p.load_protected_asset().unwrap();
        match mode {
            Mode::InGen | Mode::HeavyReasonable => assert_eq!(asset, vec![42u8; 1024 * 1024]),
            Mode::HeavyAbusive => assert!(asset.is_empty()),
            _ => assert_eq!(asset, vec![0u8; 1024]),
        }
        assert!(!p.check_tamper());
    }
}

#[test]
fn halting_rule() {
    assert!(!gameplay_halted(false, false));
    assert!(gameplay_halted(true, false));
    assert!(gameplay_halted(false, true));
    assert!(gameplay_halted(true, true));
}

#[test]
fn violation_banners() {
    assert_eq!(violation_message(true), "DRM VIOLATION: INVALID LICENSE TOKEN SIGNATURE!");
    assert_eq!(violation_message(false), "DRM VIOLATION: MEMORY TAMPERING DETECTED!");
}

#[test]
fn telemetry_shows_newest_seven_lines() {
    assert_eq!(telemetry_first_line(0), 0);
    assert_eq!(telemetry_first_line(7), 0);
    assert_eq!(telemetry_first_line(8), 1);
    assert_eq!(telemetry_first_line(100), 93);
}

#[test]
fn created_profiles_are_fresh() {
    match create_profile(&Mode::InGen) {
        AnyProfile::InGen(p) => assert!(!p.watchdog_armed()),
        _ => panic!("wrong profile"),
    }
    match create_profile(&Mode::AlwaysOnline) {
        AnyProfile::AlwaysOnline(mut p) => assert_eq!(p.take_stall_ms(), 0),
        _ => panic!("wrong profile"),
    }
    match create_profile(&Mode::HeavyAbusive) {
        AnyProfile::HeavyAbusive(p) => {
            assert_eq!(p.checkpoint_counter(), 0);
            assert!(p.memory_block().iter().all(|&b| b == 1));
            assert_eq!(p.memory_block().len(), 5 * 1024 * 1024);
        }
        _ => panic!("wrong profile"),
    }
    match create_profile(&Mode::HeavyReasonable) {
        AnyProfile::HeavyReasonable(p) => {
            assert_eq!(p.checkpoint_counter(), 0);
            assert_eq!(p.memory_block(), &vec![1u8; 2 * 1024 * 1024][..]);
        }
        _ => panic!("wrong profile"),
    }
}

#[test]
fn any_profile_startup_arms_ingen_and_counts_abusive_checkpoints() {
    let mut p = create_profile(&Mode::InGen);
    assert_eq!(p.on_startup(), Ok(()));
    match &p {
        AnyProfile::InGen(q) => assert!(q.watchdog_armed()),
        _ => panic!("wrong profile"),
    }
    let mut h = create_profile(&Mode::HeavyAbusive);
    for _ in 0..3 {
        assert_eq!(h.on_startup(), Ok(()));
        assert_eq!(h.on_checkpoint(), Ok(()));
        assert!(h.load_protected_asset().is_ok());
    }
    match &h {
        AnyProfile::HeavyAbusive(q) => {
            assert_eq!(q.checkpoint_counter(), 3);
            assert_eq!(q.memory_block().len(), 5 * 1024 * 1024);
        }
        _ => panic!("wrong profile"),
    }
}

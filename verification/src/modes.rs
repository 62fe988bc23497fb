//! The DRM modes and visual themes a testbed switches between, and the
//! profile each mode runs.

use vstd::prelude::*;
use crate::crypto::sha256_digest;
use crate::profile::{
    memory_traffic, reasonable_hash_step, sealed_asset, zeros, AlwaysOnline, Baseline,
    HeavyAbusive, HeavyReasonable, InGen, ProtectionProfile, VMAntitamper, ABUSIVE_BLOCK_LEN,
    ABUSIVE_TRAFFIC_ROUNDS, HANDSHAKE_STALL_MS, HEARTBEAT_STALL_MS, PLAIN_ASSET_LEN,
    REASONABLE_BLOCK_LEN, REASONABLE_TRAFFIC_ROUNDS, VM_SCRATCH_LEN,
};

verus! {

/// The DRM schemes a testbed can run.
#[derive(Clone, Copy, Debug, PartialEq, Eq, Structural)]
pub enum Mode {
    Baseline,
    InGen,
    HeavyReasonable,
    HeavyAbusive,
    AlwaysOnline,
    VMAntitamper,
}

/// The label shown for each mode.
pub open spec fn mode_label(mode: Mode) -> Seq<char> {
    match mode {
        Mode::Baseline => "Baseline (No DRM)"@,
        Mode::InGen => "InGen (Lightweight)"@,
        Mode::HeavyReasonable => "Heavy-Reasonable (Sync VM/Thunks)"@,
        Mode::HeavyAbusive => "Heavy-Abusive (Worst Case)"@,
        Mode::AlwaysOnline => "Always Online (Network micro-stutters)"@,
        Mode::VMAntitamper => "VM Anti-tamper (Denuvo-style obfuscation)"@,
    }
}

impl Mode {
    /// The label shown for this mode.
    pub fn name(&self) -> (label: &'static str)
        ensures
            label@ == mode_label(*self),
    {
        match self {
            Mode::Baseline => "Baseline (No DRM)",
            Mode::InGen => "InGen (Lightweight)",
            Mode::HeavyReasonable => "Heavy-Reasonable (Sync VM/Thunks)",
            Mode::HeavyAbusive => "Heavy-Abusive (Worst Case)",
            Mode::AlwaysOnline => "Always Online (Network micro-stutters)",
            Mode::VMAntitamper => "VM Anti-tamper (Denuvo-style obfuscation)",
        }
    }
}

/// The rendering styles the 3D testbed cycles through.
#[derive(Clone, Copy, Debug, PartialEq, Eq, Structural)]
pub enum VisualTheme {
    Cubes,
    VoxelTerrain,
    WireframeSpace,
}

/// The label shown for each theme.
pub open spec fn theme_label(theme: VisualTheme) -> Seq<char> {
    match theme {
        VisualTheme::Cubes => "Abstract Cubes"@,
        VisualTheme::VoxelTerrain => "Voxel Terrain"@,
        VisualTheme::WireframeSpace => "Wireframe Space"@,
    }
}

/// The theme that follows another in the cycle.
pub open spec fn theme_after(theme: VisualTheme) -> VisualTheme {
    match theme {
        VisualTheme::Cubes => VisualTheme::VoxelTerrain,
        VisualTheme::VoxelTerrain => VisualTheme::WireframeSpace,
        VisualTheme::WireframeSpace => VisualTheme::Cubes,
    }
}

impl VisualTheme {
    /// The label shown for this theme.
    pub fn name(&self) -> (label: &'static str)
        ensures
            label@ == theme_label(*self),
    {
        match self {
            VisualTheme::Cubes => "Abstract Cubes",
            VisualTheme::VoxelTerrain => "Voxel Terrain",
            VisualTheme::WireframeSpace => "Wireframe Space",
        }
    }

    /// The theme the switch key moves to.
    pub fn next(&self) -> (after: VisualTheme)
        ensures
            after == theme_after(*self),
    {
        match self {
            VisualTheme::Cubes => VisualTheme::VoxelTerrain,
            VisualTheme::VoxelTerrain => VisualTheme::WireframeSpace,
            VisualTheme::WireframeSpace => VisualTheme::Cubes,
        }
    }
}

/// Pressing the theme key three times comes back to the theme one started
/// from, and no fewer presses do.
pub proof fn lemma_theme_cycle(theme: VisualTheme)
    ensures
        theme_after(theme_after(theme_after(theme))) == theme,
        theme_after(theme) != theme,
        theme_after(theme_after(theme)) != theme,
{
}

/// A profile of any of the modes.
pub enum AnyProfile {
    Baseline(Baseline),
    InGen(InGen),
    HeavyReasonable(HeavyReasonable),
    HeavyAbusive(HeavyAbusive),
    AlwaysOnline(AlwaysOnline),
    VMAntitamper(VMAntitamper),
}

impl AnyProfile {
    /// The mode whose profile this is.
    pub open spec fn mode(&self) -> Mode {
        match self {
            AnyProfile::Baseline(_) => Mode::Baseline,
            AnyProfile::InGen(_) => Mode::InGen,
            AnyProfile::HeavyReasonable(_) => Mode::HeavyReasonable,
            AnyProfile::HeavyAbusive(_) => Mode::HeavyAbusive,
            AnyProfile::AlwaysOnline(_) => Mode::AlwaysOnline,
            AnyProfile::VMAntitamper(_) => Mode::VMAntitamper,
        }
    }
    /// The checkpoints a heavy profile has counted; the other profiles keep no count.
    pub open spec fn checkpoints_taken(&self) -> nat {
        match self {
            AnyProfile::HeavyReasonable(p) => p.checkpoints(),
            AnyProfile::HeavyAbusive(p) => p.checkpoints(),
            _ => 0,
        }
    }
}

/// Whether a mode's profile counts its checkpoints.
pub open spec fn counts_checkpoints(mode: Mode) -> bool {
    mode == Mode::HeavyReasonable || mode == Mode::HeavyAbusive
}

/// The asset each mode's profile hands out on load.
pub open spec fn mode_asset(mode: Mode) -> Seq<u8> {
    match mode {
        Mode::InGen | Mode::HeavyReasonable => sealed_asset(),
        Mode::HeavyAbusive => Seq::empty(),
        _ => zeros(PLAIN_ASSET_LEN as nat),
    }
}

impl ProtectionProfile for AnyProfile {
    open spec fn well_formed(&self) -> bool {
        match self {
            AnyProfile::Baseline(p) => p.well_formed(),
            AnyProfile::InGen(p) => p.well_formed(),
            AnyProfile::HeavyReasonable(p) => p.well_formed(),
            AnyProfile::HeavyAbusive(p) => p.well_formed(),
            AnyProfile::AlwaysOnline(p) => p.well_formed(),
            AnyProfile::VMAntitamper(p) => p.well_formed(),
        }
    }

    open spec fn checkpoint_in_range(&self) -> bool {
        match self {
            AnyProfile::Baseline(p) => p.checkpoint_in_range(),
            AnyProfile::InGen(p) => p.checkpoint_in_range(),
            AnyProfile::HeavyReasonable(p) => p.checkpoint_in_range(),
            AnyProfile::HeavyAbusive(p) => p.checkpoint_in_range(),
            AnyProfile::AlwaysOnline(p) => p.checkpoint_in_range(),
            AnyProfile::VMAntitamper(p) => p.checkpoint_in_range(),
        }
    }

    fn on_startup(&mut self) -> (r: Result<(), &'static str>)
        ensures
            r is Ok,
            final(self).mode() == old(self).mode(),
            final(self).checkpoints_taken() == old(self).checkpoints_taken(),
            match *old(self) {
                AnyProfile::InGen(_) => *final(self) matches AnyProfile::InGen(p) && p.armed(),
                AnyProfile::AlwaysOnline(_) => *final(self) matches AnyProfile::AlwaysOnline(p)
                    && p.pending() == HANDSHAKE_STALL_MS,
                _ => *final(self) == *old(self),
            },
    {
        match self {
            AnyProfile::Baseline(p) => p.on_startup(),
            AnyProfile::InGen(p) => p.on_startup(),
            AnyProfile::HeavyReasonable(p) => p.on_startup(),
            AnyProfile::HeavyAbusive(p) => p.on_startup(),
            AnyProfile::AlwaysOnline(p) => p.on_startup(),
            AnyProfile::VMAntitamper(p) => p.on_startup(),
        }
    }

    fn on_checkpoint(&mut self) -> (r: Result<(), &'static str>)
        ensures
            r is Ok,
            final(self).mode() == old(self).mode(),
            final(self).checkpoints_taken() == old(self).checkpoints_taken() + (if counts_checkpoints(
                old(self).mode(),
            ) {
                1nat
            } else {
                0nat
            }),
            match *old(self) {
                AnyProfile::HeavyAbusive(q) => *final(self) matches AnyProfile::HeavyAbusive(p)
                    && p.checkpoints() == q.checkpoints() + 1
                    && p.memory() == memory_traffic(
                    q.memory(),
                    p.checkpoints(),
                    ABUSIVE_TRAFFIC_ROUNDS as nat,
                ),
                AnyProfile::HeavyReasonable(q) => *final(self) matches AnyProfile::HeavyReasonable(p)
                    && p.checkpoints() == q.checkpoints() + 1
                    && p.memory() == memory_traffic(
                    reasonable_hash_step(q.memory(), p.checkpoints()),
                    p.checkpoints(),
                    REASONABLE_TRAFFIC_ROUNDS as nat,
                ),
                AnyProfile::AlwaysOnline(_) => *final(self) matches AnyProfile::AlwaysOnline(p)
                    && (p.pending() == HEARTBEAT_STALL_MS || p.pending() == 0),
                AnyProfile::VMAntitamper(_) => *final(self) matches AnyProfile::VMAntitamper(p)
                    && p.scratch_digest() == Some(
                    sha256_digest(Seq::new(VM_SCRATCH_LEN as nat, |i: int| 1u8)),
                ),
                _ => *final(self) == *old(self),
            },
    {
        match self {
            AnyProfile::Baseline(p) => p.on_checkpoint(),
            AnyProfile::InGen(p) => p.on_checkpoint(),
            AnyProfile::HeavyReasonable(p) => p.on_checkpoint(),
            AnyProfile::HeavyAbusive(p) => p.on_checkpoint(),
            AnyProfile::AlwaysOnline(p) => p.on_checkpoint(),
            AnyProfile::VMAntitamper(p) => p.on_checkpoint(),
        }
    }

    fn load_protected_asset(&mut self) -> (r: Result<Vec<u8>, String>)
        ensures
            r matches Ok(v) && v@ == mode_asset(old(self).mode()),
            final(self).mode() == old(self).mode(),
            *final(self) == *old(self),
    {
        match self {
            AnyProfile::Baseline(p) => p.load_protected_asset(),
            AnyProfile::InGen(p) => p.load_protected_asset(),
            AnyProfile::HeavyReasonable(p) => p.load_protected_asset(),
            AnyProfile::HeavyAbusive(p) => p.load_protected_asset(),
            AnyProfile::AlwaysOnline(p) => p.load_protected_asset(),
            AnyProfile::VMAntitamper(p) => p.load_protected_asset(),
        }
    }
}

/// A fresh profile for a mode.
pub fn create_profile(mode: &Mode) -> (profile: AnyProfile)
    ensures
        profile.mode() == *mode,
        profile.well_formed(),
        profile.checkpoints_taken() == 0,
        match profile {
            AnyProfile::InGen(p) => !p.armed(),
            AnyProfile::HeavyReasonable(p) => p.checkpoints() == 0 && p.memory() == Seq::new(
                REASONABLE_BLOCK_LEN as nat,
                |i: int| 1u8,
            ),
            AnyProfile::HeavyAbusive(p) => p.checkpoints() == 0 && p.memory() == Seq::new(
                ABUSIVE_BLOCK_LEN as nat,
                |i: int| 1u8,
            ),
            AnyProfile::AlwaysOnline(p) => p.pending() == 0,
            _ => true,
        },
{
    match mode {
        Mode::Baseline => AnyProfile::Baseline(Baseline),
        Mode::InGen => AnyProfile::InGen(InGen::new()),
        Mode::HeavyReasonable => AnyProfile::HeavyReasonable(HeavyReasonable::new()),
        Mode::HeavyAbusive => AnyProfile::HeavyAbusive(HeavyAbusive::new()),
        Mode::AlwaysOnline => AnyProfile::AlwaysOnline(AlwaysOnline::new()),
        Mode::VMAntitamper => AnyProfile::VMAntitamper(VMAntitamper::new()),
    }
}

/// Gameplay halts once memory tampering has been flagged or a forged licence
/// token has been injected.
pub fn gameplay_halted(memory_tampered: bool, token_crack_attempted: bool) -> (halted: bool)
    ensures
        halted == (memory_tampered || token_crack_attempted),
{
    memory_tampered || token_crack_attempted
}

/// The banner shown while gameplay is halted: a forged token takes precedence
/// over memory tampering.
pub fn violation_message(token_crack_attempted: bool) -> (message: &'static str)
    ensures
        message@ == (if token_crack_attempted {
            "DRM VIOLATION: INVALID LICENSE TOKEN SIGNATURE!"@
        } else {
            "DRM VIOLATION: MEMORY TAMPERING DETECTED!"@
        }),
{
    if token_crack_attempted {
        "DRM VIOLATION: INVALID LICENSE TOKEN SIGNATURE!"
    } else {
        "DRM VIOLATION: MEMORY TAMPERING DETECTED!"
    }
}

/// How many of the newest audit log lines the telemetry panel shows.
pub const TELEMETRY_LINES: usize = 7;

/// The index of the first audit log line the telemetry panel shows, out of
/// `line_count` lines: the panel shows the newest seven, oldest first.
pub fn telemetry_first_line(line_count: usize) -> (first: usize)
    ensures
        first == (if line_count <= TELEMETRY_LINES { 0 } else { line_count - TELEMETRY_LINES }),
{
    if line_count <= TELEMETRY_LINES {
        0
    } else {
        line_count - TELEMETRY_LINES
    }
}

} // verus!

# ingen_drm

A testbed comparing DRM schemes by what they cost a game frame by frame, with
the decisions and data handling of each scheme verified in Verus.

- `src/` is the verified library:
  - `profile`: the `ProtectionProfile` hooks and the six profiles (no DRM,
    InGen, two heavy-handed ones, always-online, instruction virtualisation);
  - `modes`: the modes and visual themes a testbed switches between, the
    profile each mode runs, and the crack simulator's halting rule;
  - `audit`: audit log lines, breach detection in the log, and InGen's
    integrity watchdog;
  - `license`: lease tokens and their signatures;
  - `seal`: sealing an asset, its manifest and the manifest's signature;
  - `crypto`: the trusted boundary to `aes-gcm`, `ed25519-dalek`, `sha2` and
    `rand`;
  - `hex`: lower-case hexadecimal encoding.
- `app/` holds the programs (benchmark, 2D and 3D testbeds, licence server,
  sealing tool, data synthesiser) as subcommands, with the boids simulation,
  rendering, timing and all file and network I/O.
- `tests/` exercises the library on concrete values, including RFC 8032 and
  NIST GCM vectors.

//! Verified core of the InGen DRM testbed: protection profiles, the
//! licence and sealing logic, and the small formatting helpers they use.

pub mod hex;
pub mod crypto;
pub mod profile;
pub mod modes;
pub mod audit;
pub mod license;
pub mod seal;

//! Verified core of the desktop toolkit: update decisions, updater-shim
//! argument handling, splash first-launch logic and startup timing.

pub mod log;
pub mod shim;
pub mod splash;
pub mod startup;
pub mod text;
pub mod updater;
pub mod version;

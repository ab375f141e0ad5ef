//! Verified planning logic for a boot-time bootstrapper that layers a
//! memory-backed copy-on-write root over a read-only base image and hands
//! control to init inside it.
//!
//! The crate decides; the caller performs. Every privileged operation is
//! described as a value that the caller carries out, and whose outcome it
//! reports back.

pub mod boot;
pub mod errors;
pub mod exec;
pub mod mount;
pub mod options;
pub mod plan;
pub mod text;

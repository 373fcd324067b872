//! Verified core of a minimal package manager.
//!
//! A package is a gzip-compressed tar archive carrying a `bruh.toml`
//! manifest.  The library validates manifests, gates installation on a
//! SHA-256 content check, and drives the install/uninstall lifecycle as a
//! pure state machine: every filesystem or network effect is returned to the
//! caller as an [`lifecycle::Action`], and the caller reports what happened
//! as an [`lifecycle::Event`].  The decision logic — what to do next, when
//! to roll back, which error to surface — is verified.

pub mod errors;
pub mod integrity;
pub mod laws;
pub mod lifecycle;
pub mod manifest;
pub mod store;

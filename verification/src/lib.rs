//! Repository state resolver for a shell prompt.
//!
//! The crate derives a normalized snapshot of a version-controlled working
//! directory — current branch identity, divergence from tracked remotes, an
//! in-progress operation, and file status counts — from the raw signals a
//! backend exposes. The decision logic is verified; calls into the backend
//! and the configuration parser stand behind trusted wrappers.

pub mod backend;
pub mod branch;
pub mod conf;
pub mod operation;
pub mod snapshot;
pub mod status;

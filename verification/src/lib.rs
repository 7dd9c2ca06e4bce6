//! Capability-aware build-configuration synthesis.
//!
//! The decision core of a build optimizer: it models the host system,
//! validates user configuration against explicit bounds, deterministically
//! synthesizes build-tool configuration documents, and merges them
//! idempotently into an existing project.  Every rule here is stated as a
//! contract and proved; probing and file handling stay with the caller.

pub mod config;
pub mod error;
pub mod install;
pub mod merge;
pub mod synth;
pub mod system;
pub mod text;
pub mod textfmt;

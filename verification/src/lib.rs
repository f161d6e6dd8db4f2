//! Access policies and launch plans for sandboxed WASI command plugins.
//!
//! The library decides what a plugin may see (streams, arguments,
//! environment variables, preopened directories) from its manifest and
//! computes where configuration, manifests and binaries live.  Opening
//! directories, reading the environment and running the component are left
//! to the caller, which hands the outcomes back as plain values.

pub mod paths;
pub mod perms;
pub mod setup;
pub mod keyed;
pub mod listing;
pub mod config;
pub mod runtime;
pub mod manifest;
pub mod context;
pub mod tasks;
pub mod launcher;
pub mod cli;
pub mod command;

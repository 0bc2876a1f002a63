//! A minimal container launcher: what is unshared, which identity the
//! launched process holds, which mounts are applied, and in what order the
//! setup inside the new namespaces runs.

pub mod config;
pub mod error;
pub mod mount;
pub mod search;
pub mod stage;

//! Repository synchronization engine for a desktop Git client.
//!
//! The crate models the sync core: credential resolution, clone
//! orchestration with staged progress, fetch / pull / push with conflict
//! detection, fast-forward / merge / rebase decision logic, and branch
//! lifecycle management.  Calls into the embedded Git library and the
//! other host facilities stand behind narrow trusted wrappers; everything
//! around them is verified.

pub mod auth;
pub mod branches;
pub mod clone;
pub mod commands;
pub mod gitio;
pub mod hostio;
pub mod http;
pub mod operations;
pub mod progress;
pub mod text;
pub mod types;

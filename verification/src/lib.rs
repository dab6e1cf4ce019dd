//! Provisioning engine for the FLang language-server backend.
//!
//! The crate decides, from plain inputs (configuration values, directory
//! listings, file-existence probes, release metadata), which binary to launch
//! and how to install one when it is missing.  All filesystem and network
//! work is performed by the embedding host, which drives the [`auto`] state
//! machine: each step returns the next action to perform, and the host feeds
//! the outcome back as an event.

pub mod text;
pub mod platform;
pub mod error;
pub mod config;
pub mod paths;
pub mod release;
pub mod dirs;
pub mod session;
pub mod command;
pub mod auto;
pub mod resolve;

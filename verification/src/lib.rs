//! Development-loop supervisor for dolph.js projects.
//!
//! The crate watches a source tree for changes, decides which changes warrant
//! a restart of the supervised server process, debounces restart storms, and
//! manages the lifecycle of exactly one child process at a time.

pub mod config;
pub mod database;
pub mod debounce;
pub mod errors;
pub mod filter;
pub mod orchestrator;
pub mod path_match;
pub mod properties;
pub mod supervisor;

pub use config::{CommandConfig, Config, WatchConfig};

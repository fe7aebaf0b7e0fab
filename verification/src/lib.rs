//! Detection and orchestration core for a process/connection monitor.
//!
//! The library watches for a named external process, determines whether it
//! holds an established connection to a known endpoint, resolves the region
//! that endpoint belongs to, and turns those raw observations into a small,
//! deduplicated stream of lifecycle events that drives a downstream processor
//! and an auto-update scheduler.

pub mod app_ready_state;
pub mod aws_iprange;
pub mod background_worker;
pub mod models;
pub mod process_watcher;
pub mod updater;

pub use app_ready_state::AppReadyState;

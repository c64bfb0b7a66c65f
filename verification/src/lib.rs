//! Automatic HDR management for Windows.
//!
//! The library holds the decisions of the application: which displays to toggle,
//! when a monitored application counts as started or stopped, how process names
//! are normalised, how icons are prepared and how configuration entries are merged.
//! The operating-system work (display configuration calls, process snapshots,
//! registry and file access) is done by the caller, which hands the results in.

pub mod config;
pub mod controller;
pub mod error;
pub mod hdr;
pub mod monitor;
pub mod text;
pub mod utils;

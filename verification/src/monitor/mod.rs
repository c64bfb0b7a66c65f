//! Process monitoring and HDR state change detection.

pub mod hdr_state_monitor;
pub mod process_monitor;

pub use hdr_state_monitor::HdrStateEvent;
pub use process_monitor::{AppIdentifier, ProcessEvent, WatchState};

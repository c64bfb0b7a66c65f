//! Configuration: monitored applications, user preferences and window state,
//! and the rules by which stored configuration is merged and completed.

pub mod manager;
pub mod models;

pub use manager::ConfigManager;
pub use models::{AppConfig, MonitoredApp, UserPreferences, UwpApp, Win32App, WindowState};

//! HDR control: Windows version handling, display-configuration records and the
//! controller that decides which displays to switch.

pub mod controller;
pub mod version;
pub mod windows_api;

pub use controller::{DisplayProbe, DisplayTarget, HdrController};
pub use version::WindowsVersion;

//! Icons, icon cache, profiling figures, update checks and start-up settings.

pub mod icon_extractor;
pub mod memory_profiler;
pub mod startup_profiler;
pub mod autostart;
pub mod icon_cache;
pub mod update_checker;
pub mod logging;

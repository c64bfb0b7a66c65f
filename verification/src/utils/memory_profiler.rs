//! Memory usage figures: icons held in memory and the process working set.
//!
//! The working set is read by the caller from the operating system.

use vstd::prelude::*;

verus! {

/// Target limit for the process memory: 50 MB.
pub const MEMORY_LIMIT_BYTES: usize = 52_428_800;

/// Estimated memory of the configuration (10 KB).
pub const CONFIG_MEMORY_ESTIMATE: usize = 10240;

/// Estimated memory of the process monitor (5 KB).
pub const MONITOR_MEMORY_ESTIMATE: usize = 5120;

/// Memory usage statistics
#[derive(Debug, Clone, Copy, Default)]
pub struct MemoryStats {
    /// Total process memory (working set) in bytes
    pub total_memory: usize,
    /// Icon cache memory in bytes
    pub icon_cache_memory: usize,
    /// Number of cached icons
    pub cached_icon_count: usize,
    /// Estimated configuration memory in bytes
    pub config_memory: usize,
    /// Estimated process monitor memory in bytes
    pub monitor_memory: usize,
}

impl MemoryStats {
    /// Whether the total memory is below the 50 MB target.
    pub fn is_within_limits(&self) -> (r: bool)
        ensures
            r == (self.total_memory < MEMORY_LIMIT_BYTES),
    {
        self.total_memory < MEMORY_LIMIT_BYTES
    }
}

/// `a + b`, wrapping around at the end of `usize`.
pub open spec fn wrapping_add_usize(a: usize, b: usize) -> usize {
    if a + b > usize::MAX {
        (a + b - usize::MAX - 1) as usize
    } else {
        (a + b) as usize
    }
}

/// `a - b`, wrapping around at the end of `usize`.
pub open spec fn wrapping_sub_usize(a: usize, b: usize) -> usize {
    if a >= b {
        (a - b) as usize
    } else {
        (a - b + usize::MAX + 1) as usize
    }
}

fn add_wrapping(a: usize, b: usize) -> (r: usize)
    ensures
        r == wrapping_add_usize(a, b),
{
    if a > usize::MAX - b {
        a - (usize::MAX - b) - 1
    } else {
        a + b
    }
}

fn sub_wrapping(a: usize, b: usize) -> (r: usize)
    ensures
        r == wrapping_sub_usize(a, b),
{
    if a >= b {
        a - b
    } else {
        usize::MAX - (b - a) + 1
    }
}

/// Counters of the icons held in memory.
#[derive(Debug)]
pub struct MemoryProfiler {
    /// Total bytes of the icons held
    pub icon_cache_size: usize,
    /// Number of icons held
    pub icon_count: usize,
}

impl MemoryProfiler {
    /// A profiler with no icon recorded.
    pub fn new() -> (p: MemoryProfiler)
        ensures
            p.icon_cache_size == 0,
            p.icon_count == 0,
    {
        MemoryProfiler { icon_cache_size: 0, icon_count: 0 }
    }

    /// Record an icon added to memory (the counters wrap around like the
    /// atomic counters they stand for).
    pub fn record_icon_cached(&mut self, icon_size: usize)
        ensures
            final(self).icon_cache_size == wrapping_add_usize(old(self).icon_cache_size, icon_size),
            final(self).icon_count == wrapping_add_usize(old(self).icon_count, 1),
    {
        self.icon_cache_size = add_wrapping(self.icon_cache_size, icon_size);
        self.icon_count = add_wrapping(self.icon_count, 1);
    }

    /// Record an icon removed from memory.
    pub fn record_icon_removed(&mut self, icon_size: usize)
        ensures
            final(self).icon_cache_size == wrapping_sub_usize(old(self).icon_cache_size, icon_size),
            final(self).icon_count == wrapping_sub_usize(old(self).icon_count, 1),
    {
        self.icon_cache_size = sub_wrapping(self.icon_cache_size, icon_size);
        self.icon_count = sub_wrapping(self.icon_count, 1);
    }

    /// Current statistics; `process_memory` is the working set of the process
    /// (0 where it cannot be read).
    pub fn get_stats(&self, process_memory: usize) -> (s: MemoryStats)
        ensures
            s.total_memory == process_memory,
            s.icon_cache_memory == self.icon_cache_size,
            s.cached_icon_count == self.icon_count,
            s.config_memory == CONFIG_MEMORY_ESTIMATE,
            s.monitor_memory == MONITOR_MEMORY_ESTIMATE,
    {
        MemoryStats {
            total_memory: process_memory,
            icon_cache_memory: self.icon_cache_size,
            cached_icon_count: self.icon_count,
            config_memory: CONFIG_MEMORY_ESTIMATE,
            monitor_memory: MONITOR_MEMORY_ESTIMATE,
        }
    }
}

impl Default for MemoryProfiler {
    fn default() -> (p: MemoryProfiler)
        ensures
            p.icon_cache_size == 0,
            p.icon_count == 0,
    {
        MemoryProfiler::new()
    }
}

/// Recording an icon and then its removal restores both counters.
pub proof fn lemma_cached_then_removed_restores(size: usize, count: usize, icon_size: usize)
    ensures
        wrapping_sub_usize(wrapping_add_usize(size, icon_size), icon_size) == size,
        wrapping_sub_usize(wrapping_add_usize(count, 1), 1) == count,
{
}

} // verus!

//! Start-up timing: how long each start-up phase took.
//!
//! Times are nanoseconds on a monotonic clock, read by the caller.

use vstd::prelude::*;

verus! {

/// Target limit for the start-up time: 200 ms.
pub const STARTUP_LIMIT_NANOS: u64 = 200_000_000;

/// Phases of application start-up
#[derive(Debug, Clone, Copy, PartialEq, Eq, Structural)]
pub enum StartupPhase {
    /// Application start (main entry)
    AppStart,
    /// Logging initialized
    LoggingInit,
    /// Windows version detected
    VersionDetection,
    /// Configuration loaded
    ConfigLoad,
    /// HDR controller initialized
    HdrControllerInit,
    /// HDR state monitor initialized
    HdrMonitorInit,
    /// Process monitor initialized
    ProcessMonitorInit,
    /// Application controller initialized
    AppControllerInit,
    /// GUI controller initialized
    GuiControllerInit,
    /// GUI displayed
    GuiDisplay,
    /// Application ready
    AppReady,
}

/// The human-readable name of a phase.
pub open spec fn phase_name(p: StartupPhase) -> Seq<char> {
    match p {
        StartupPhase::AppStart => "Application Start"@,
        StartupPhase::LoggingInit => "Logging Initialization"@,
        StartupPhase::VersionDetection => "Version Detection"@,
        StartupPhase::ConfigLoad => "Configuration Load"@,
        StartupPhase::HdrControllerInit => "HDR Controller Init"@,
        StartupPhase::HdrMonitorInit => "HDR State Monitor Init"@,
        StartupPhase::ProcessMonitorInit => "Process Monitor Init"@,
        StartupPhase::AppControllerInit => "App Controller Init"@,
        StartupPhase::GuiControllerInit => "GUI Controller Init"@,
        StartupPhase::GuiDisplay => "GUI Display"@,
        StartupPhase::AppReady => "Application Ready"@,
    }
}

impl StartupPhase {
    /// Human-readable name of the phase.
    pub fn name(&self) -> (n: &'static str)
        ensures
            n@ == phase_name(*self),
    {
        match self {
            StartupPhase::AppStart => "Application Start",
            StartupPhase::LoggingInit => "Logging Initialization",
            StartupPhase::VersionDetection => "Version Detection",
            StartupPhase::ConfigLoad => "Configuration Load",
            StartupPhase::HdrControllerInit => "HDR Controller Init",
            StartupPhase::HdrMonitorInit => "HDR State Monitor Init",
            StartupPhase::ProcessMonitorInit => "Process Monitor Init",
            StartupPhase::AppControllerInit => "App Controller Init",
            StartupPhase::GuiControllerInit => "GUI Controller Init",
            StartupPhase::GuiDisplay => "GUI Display",
            StartupPhase::AppReady => "Application Ready",
        }
    }
}

/// Timing of one phase
#[derive(Debug, Clone, Copy, PartialEq, Eq, Structural)]
pub struct PhaseTimings {
    /// The phase
    pub phase: StartupPhase,
    /// When the phase started (the end of the previous one), in nanoseconds
    pub start_nanos: u64,
    /// How long the phase took, in nanoseconds
    pub duration_nanos: u64,
}

/// Time from `since` to `now`, zero when `now` is earlier.
pub open spec fn span(since: u64, now: u64) -> u64 {
    if now >= since {
        (now - since) as u64
    } else {
        0
    }
}

/// Total duration of recorded phases.
pub open spec fn sum_durations(ts: Seq<PhaseTimings>) -> int
    decreases ts.len(),
{
    if ts.len() == 0 {
        0
    } else {
        sum_durations(ts.drop_last()) + ts.last().duration_nanos
    }
}

/// Start-up profiler
#[derive(Debug)]
pub struct StartupProfiler {
    /// When the application started
    pub app_start_nanos: u64,
    /// When the last recorded phase ended
    pub last_phase_end_nanos: u64,
    /// Recorded phases, in order
    pub timings: Vec<PhaseTimings>,
    /// Whether phases are recorded
    pub enabled: bool,
}

impl StartupProfiler {
    /// The recorded phases cover the time from the application start to the
    /// end of the last phase without gap or overlap.
    pub open spec fn consistent(&self) -> bool {
        &&& self.app_start_nanos <= self.last_phase_end_nanos
        &&& sum_durations(self.timings@) == self.last_phase_end_nanos - self.app_start_nanos
    }

    /// A profiler started at `now_nanos`, recording.
    pub fn new(now_nanos: u64) -> (p: StartupProfiler)
        ensures
            p.app_start_nanos == now_nanos,
            p.last_phase_end_nanos == now_nanos,
            p.timings@.len() == 0,
            p.enabled,
            p.consistent(),
    {
        StartupProfiler {
            app_start_nanos: now_nanos,
            last_phase_end_nanos: now_nanos,
            timings: Vec::new(),
            enabled: true,
        }
    }

    /// Record that a phase ended at `now_nanos`: it lasted since the end of
    /// the previous phase. Nothing is recorded while the profiler is disabled.
    pub fn record_phase(&mut self, phase: StartupPhase, now_nanos: u64)
        ensures
            !old(self).enabled ==> *final(self) == *old(self),
            old(self).enabled ==> {
                &&& final(self).timings@ == old(self).timings@.push(
                    PhaseTimings {
                        phase,
                        start_nanos: old(self).last_phase_end_nanos,
                        duration_nanos: span(old(self).last_phase_end_nanos, now_nanos),
                    },
                )
                &&& final(self).last_phase_end_nanos == now_nanos
                &&& final(self).app_start_nanos == old(self).app_start_nanos
                &&& final(self).enabled
            },
            old(self).consistent() && old(self).last_phase_end_nanos <= now_nanos ==> final(self).consistent(),
    {
        if !self.enabled {
            return;
        }
        let start = self.last_phase_end_nanos;
        let duration = if now_nanos >= start {
            now_nanos - start
        } else {
            0
        };
        let ghost before = self.timings@;
        self.timings.push(PhaseTimings { phase, start_nanos: start, duration_nanos: duration });
        assert(self.timings@.drop_last() =~= before);
        self.last_phase_end_nanos = now_nanos;
    }

    /// Time since the application started.
    pub fn total_startup_nanos(&self, now_nanos: u64) -> (t: u64)
        ensures
            t == span(self.app_start_nanos, now_nanos),
    {
        if now_nanos >= self.app_start_nanos {
            now_nanos - self.app_start_nanos
        } else {
            0
        }
    }

    /// Whether the start-up took less than 200 ms.
    pub fn is_within_limits(&self, now_nanos: u64) -> (r: bool)
        ensures
            r == (span(self.app_start_nanos, now_nanos) < STARTUP_LIMIT_NANOS),
    {
        self.total_startup_nanos(now_nanos) < STARTUP_LIMIT_NANOS
    }

    /// The recorded timings.
    pub fn get_timings(&self) -> (t: Vec<PhaseTimings>)
        ensures
            t@ == self.timings@,
    {
        let mut out: Vec<PhaseTimings> = Vec::new();
        let mut i: usize = 0;
        while i < self.timings.len()
            invariant
                i <= self.timings@.len(),
                out@ == self.timings@.take(i as int),
            decreases self.timings@.len() - i,
        {
            out.push(self.timings[i]);
            assert(self.timings@.take(i + 1) =~= self.timings@.take(i as int).push(self.timings@[i as int]));
            i = i + 1;
        }
        assert(self.timings@.take(i as int) =~= self.timings@);
        out
    }

    /// Stop recording.
    pub fn disable(&mut self)
        ensures
            *final(self) == (StartupProfiler { enabled: false, ..*old(self) }),
    {
        self.enabled = false;
    }

    /// Resume recording.
    pub fn enable(&mut self)
        ensures
            *final(self) == (StartupProfiler { enabled: true, ..*old(self) }),
    {
        self.enabled = true;
    }

    /// Whether phases are recorded.
    pub fn is_enabled(&self) -> (r: bool)
        ensures
            r == self.enabled,
    {
        self.enabled
    }
}

} // verus!

//! HDR state change detection.
//!
//! Windows offers no event for HDR being switched in its settings; a display or
//! settings change message is the trigger to look at the state again. Because
//! the message can arrive before the display configuration reflects the change,
//! an unchanged state starts periodic rechecks: every 500 ms, at most ten
//! times, stopping early once a change is seen. The messages, the timer and the
//! HDR queries belong to the caller; this module decides.

use crate::error::EasyHdrError;
use crate::hdr::controller::{HdrController, any_hdr_enabled};
use vstd::prelude::*;

verus! {

/// Interval between rechecks, in milliseconds.
pub const RECHECK_INTERVAL_MS: u32 = 500;

/// Maximum number of rechecks after one message (five seconds in all).
pub const MAX_RECHECK_COUNT: u32 = 10;

/// Identifier of the recheck timer.
pub const TIMER_ID_HDR_RECHECK: usize = 1;

/// HDR state change events.
#[derive(Debug, Clone, Copy, PartialEq, Eq, Structural)]
pub enum HdrStateEvent {
    /// HDR was enabled outside the application (Windows settings)
    Enabled,
    /// HDR was disabled outside the application (Windows settings)
    Disabled,
    /// The display configuration changed; this many displays now support HDR
    DisplayConfigurationChanged { hdr_capable_count: usize },
}

/// A window message that the monitor reacts to.
#[derive(Debug, Clone, Copy, PartialEq, Eq, Structural)]
pub enum MonitorMessage {
    /// The display configuration changed (`WM_DISPLAYCHANGE`)
    DisplayChange,
    /// A system setting changed (`WM_SETTINGCHANGE`)
    SettingChange,
    /// The recheck timer fired (`WM_TIMER` with the recheck timer)
    RecheckTimer,
    /// The window is destroyed (`WM_DESTROY`)
    Destroy,
}

/// What to do with the recheck timer.
#[derive(Debug, Clone, Copy, PartialEq, Eq, Structural)]
pub enum TimerCommand {
    /// Start (or restart) the periodic timer
    Start,
    /// Kill the timer
    Stop,
    /// Leave the timer as it is
    Keep,
}

/// The reaction to a message.
#[derive(Debug, Clone, Copy, PartialEq, Eq, Structural)]
pub struct MonitorReaction {
    /// Event to send to the application controller
    pub event: Option<HdrStateEvent>,
    /// What to do with the recheck timer
    pub timer: TimerCommand,
    /// Leave the message loop
    pub quit: bool,
}

/// The event for a new HDR state.
pub open spec fn state_event(on: bool) -> HdrStateEvent {
    if on {
        HdrStateEvent::Enabled
    } else {
        HdrStateEvent::Disabled
    }
}

/// HDR state monitor: the last known HDR state and the rechecks left.
pub struct HdrStateMonitor {
    /// HDR controller used for the state queries
    pub hdr_controller: HdrController,
    /// Last known HDR state
    pub cached_hdr_state: bool,
    /// Rechecks left
    pub recheck_count: u32,
}

impl HdrStateMonitor {
    /// The rechecks left never exceed the maximum.
    pub open spec fn well_formed(&self) -> bool {
        self.recheck_count <= MAX_RECHECK_COUNT
    }

    /// Create a monitor; `hdr_enabled[i]` is the answer of the HDR-enabled query
    /// for display `i` of the controller, from which the initial state comes.
    pub fn new(hdr_controller: HdrController, hdr_enabled: &Vec<Result<bool, EasyHdrError>>) -> (r:
        Result<HdrStateMonitor, EasyHdrError>)
        requires
            hdr_enabled@.len() == hdr_controller.displays().len(),
        ensures
            r is Ok,
            r->Ok_0.well_formed(),
            r->Ok_0.hdr_controller == hdr_controller,
            r->Ok_0.cached_hdr_state == any_hdr_enabled(hdr_controller.displays(), hdr_enabled@),
            r->Ok_0.recheck_count == 0,
    {
        let initial_state = Self::detect_current_hdr_state_internal(&hdr_controller, hdr_enabled);
        Ok(HdrStateMonitor { hdr_controller, cached_hdr_state: initial_state, recheck_count: 0 })
    }

    /// Whether HDR is on: some HDR-capable display reports it on.
    fn detect_current_hdr_state_internal(
        hdr_controller: &HdrController,
        hdr_enabled: &Vec<Result<bool, EasyHdrError>>,
    ) -> (on: bool)
        requires
            hdr_enabled@.len() == hdr_controller.displays().len(),
        ensures
            on == any_hdr_enabled(hdr_controller.displays(), hdr_enabled@),
    {
        hdr_controller.detect_current_hdr_state(hdr_enabled)
    }

    /// Compare the queried HDR state with the last known one: on a change the
    /// new state is kept and its event returned, otherwise nothing happens.
    pub fn check_and_notify_hdr_state_change(&mut self, current_state: bool) -> (event: Option<
        HdrStateEvent,
    >)
        ensures
            (final(self).cached_hdr_state, event) == check_outcome(old(self).cached_hdr_state, current_state),
            final(self).hdr_controller == old(self).hdr_controller,
            final(self).recheck_count == old(self).recheck_count,
    {
        if current_state == self.cached_hdr_state {
            None
        } else {
            self.cached_hdr_state = current_state;
            if current_state {
                Some(HdrStateEvent::Enabled)
            } else {
                Some(HdrStateEvent::Disabled)
            }
        }
    }

    /// React to a window message; `current_state` is the HDR state queried when
    /// the message arrived (not read for `Destroy`).
    ///
    /// A display or settings change with a visible change of state sends the
    /// event and stops the rechecks; without one it (re)starts them with the
    /// full count. A recheck with a change sends the event and stops; without
    /// one it uses up one recheck, and stops when none is left. Destruction
    /// stops the rechecks and leaves the loop.
    pub fn handle_message(&mut self, message: MonitorMessage, current_state: bool) -> (reaction:
        MonitorReaction)
        requires
            old(self).well_formed(),
        ensures
            final(self).well_formed(),
            final(self).hdr_controller == old(self).hdr_controller,
            reaction.quit == (message == MonitorMessage::Destroy),
            message == MonitorMessage::Destroy ==> {
                &&& reaction.event is None
                &&& reaction.timer == TimerCommand::Stop
                &&& final(self).recheck_count == 0
                &&& final(self).cached_hdr_state == old(self).cached_hdr_state
            },
            message != MonitorMessage::Destroy ==> (final(self).cached_hdr_state, reaction.event)
                == check_outcome(old(self).cached_hdr_state, current_state),
            message != MonitorMessage::Destroy && current_state != old(self).cached_hdr_state ==> {
                &&& reaction.timer == TimerCommand::Stop
                &&& final(self).recheck_count == 0
            },
            (message == MonitorMessage::DisplayChange || message == MonitorMessage::SettingChange)
                && current_state == old(self).cached_hdr_state ==> {
                &&& reaction.timer == TimerCommand::Start
                &&& final(self).recheck_count == MAX_RECHECK_COUNT
            },
            message == MonitorMessage::RecheckTimer && current_state == old(self).cached_hdr_state ==> (
            final(self).recheck_count, reaction.timer) == unchanged_tick(old(self).recheck_count),
    {
        match message {
            MonitorMessage::Destroy => {
                self.recheck_count = 0;
                MonitorReaction { event: None, timer: TimerCommand::Stop, quit: true }
            },
            MonitorMessage::DisplayChange | MonitorMessage::SettingChange => {
                let event = self.check_and_notify_hdr_state_change(current_state);
                if event.is_some() {
                    self.recheck_count = 0;
                    MonitorReaction { event, timer: TimerCommand::Stop, quit: false }
                } else {
                    self.recheck_count = MAX_RECHECK_COUNT;
                    MonitorReaction { event, timer: TimerCommand::Start, quit: false }
                }
            },
            MonitorMessage::RecheckTimer => {
                let event = self.check_and_notify_hdr_state_change(current_state);
                if event.is_some() {
                    self.recheck_count = 0;
                    MonitorReaction { event, timer: TimerCommand::Stop, quit: false }
                } else if self.recheck_count > 0 {
                    self.recheck_count = self.recheck_count - 1;
                    MonitorReaction { event, timer: TimerCommand::Keep, quit: false }
                } else {
                    MonitorReaction { event, timer: TimerCommand::Stop, quit: false }
                }
            },
        }
    }
}

/// An unchanged recheck: one recheck is used up, or the timer stops when none is left.
pub open spec fn unchanged_tick(rechecks_left: u32) -> (u32, TimerCommand) {
    if rechecks_left > 0 {
        ((rechecks_left - 1) as u32, TimerCommand::Keep)
    } else {
        (0, TimerCommand::Stop)
    }
}

/// The number of unchanged rechecks after which the timer stops.
pub open spec fn ticks_until_stop(rechecks_left: u32) -> nat
    decreases rechecks_left,
{
    if rechecks_left > 0 {
        1 + ticks_until_stop(unchanged_tick(rechecks_left).0)
    } else {
        1
    }
}

/// The outcome of comparing a queried state with the known one: the state kept
/// and the event sent.
pub open spec fn check_outcome(cached: bool, current: bool) -> (bool, Option<HdrStateEvent>) {
    if current == cached {
        (cached, None)
    } else {
        (current, Some(state_event(current)))
    }
}

/// Rechecks are bounded: after a change message that shows no change, the timer
/// stops at the latest with the eleventh unchanged recheck (ten rechecks of
/// 500 ms, five seconds in all).
pub proof fn lemma_rechecks_bounded(rechecks_left: u32)
    requires
        rechecks_left <= MAX_RECHECK_COUNT,
    ensures
        ticks_until_stop(rechecks_left) == rechecks_left + 1,
        ticks_until_stop(rechecks_left) <= MAX_RECHECK_COUNT + 1,
    decreases rechecks_left,
{
    if rechecks_left > 0 {
        lemma_rechecks_bounded((rechecks_left - 1) as u32);
    }
}

/// A state reported twice in a row gives at most one event: the second check
/// sends nothing, and the known state is the reported one.
pub proof fn lemma_repeated_state_sends_nothing(cached: bool, state: bool)
    ensures
        check_outcome(cached, state).0 == state,
        check_outcome(check_outcome(cached, state).0, state).1 is None,
        check_outcome(check_outcome(cached, state).0, state).0 == state,
{
}

} // verus!

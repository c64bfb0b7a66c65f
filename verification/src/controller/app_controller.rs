//! The application controller: turns process events and HDR state events into
//! HDR switching decisions and state updates for the user interface.
//!
//! The controller does not switch displays itself: each handler returns what the
//! caller has to do (switch HDR on all HDR-capable displays, send a state update).

use crate::config::models::{
    AppConfig, MonitoredApp, MonitoredAppView, UserPreferences, first_with_id, lemma_first_with_id,
};
use crate::error::{EasyHdrError, error_message};
use crate::hdr::controller::{DisplayProbe, HdrController, any_hdr_enabled, hdr_capable, targets_of_probes};
use crate::monitor::hdr_state_monitor::HdrStateEvent;
use crate::monitor::process_monitor::{
    AppIdentifier, AppIdentifierView, ProcessEvent, ProcessEventView, WatchState, elapsed,
};
use crate::text::{
    ascii_lowercase_text, concat, decimal_text, is_ascii_text, lowercase_text, to_lowercase, u64_to_decimal,
};
use vstd::prelude::*;

verus! {

/// After a toggle, stop events do not switch HDR off for this long (500 ms), so
/// that an application restarting does not make HDR flicker.
pub const DEBOUNCE_NANOS: u64 = 500_000_000;

/// Application state for GUI updates
#[derive(Debug)]
pub struct AppState {
    /// Whether HDR is currently enabled
    pub hdr_enabled: bool,
    /// Display names of the enabled monitored applications
    pub active_apps: Vec<String>,
    /// Last event message
    pub last_event: String,
    /// Show the "HDR displays now available" notification
    pub show_hdr_available_notification: bool,
    /// Show the startup warning that no HDR display was found
    pub show_no_hdr_warning: bool,
}

/// The values of a state update.
pub struct AppStateView {
    pub hdr_enabled: bool,
    pub active_apps: Seq<Seq<char>>,
    pub last_event: Seq<char>,
    pub show_hdr_available_notification: bool,
    pub show_no_hdr_warning: bool,
}

impl View for AppState {
    type V = AppStateView;

    open spec fn view(&self) -> AppStateView {
        AppStateView {
            hdr_enabled: self.hdr_enabled,
            active_apps: self.active_apps@.map_values(|s: String| s@),
            last_event: self.last_event@,
            show_hdr_available_notification: self.show_hdr_available_notification,
            show_no_hdr_warning: self.show_no_hdr_warning,
        }
    }
}

/// What the caller does after an event.
#[derive(Debug)]
pub struct ControllerAction {
    /// Switch HDR on (`true`) or off (`false`) on all HDR-capable displays
    pub toggle_hdr: Option<bool>,
    /// State update to send to the user interface
    pub state_update: Option<AppState>,
}

/// The enabled applications of a list, in order.
pub open spec fn enabled_apps(apps: Seq<MonitoredAppView>) -> Seq<MonitoredAppView> {
    apps.filter(|a: MonitoredAppView| a.enabled())
}

/// Display names of the enabled applications of a list, in order.
pub open spec fn active_app_names(apps: Seq<MonitoredAppView>) -> Seq<Seq<char>> {
    enabled_apps(apps).map_values(|a: MonitoredAppView| a.display_name())
}

/// The status line of a state update.
pub open spec fn status_text(count: nat) -> Seq<char> {
    "Active processes: "@ + decimal_text(count)
}

/// An identifier as it is looked up in the watch list: Win32 process names in
/// lowercase, UWP package family names as they are (they are case-sensitive).
pub open spec fn normalized_identifier(id: AppIdentifierView) -> AppIdentifierView {
    match id {
        AppIdentifierView::Win32(n) => AppIdentifierView::Win32(lowercase_text(n)),
        AppIdentifierView::Uwp(n) => AppIdentifierView::Uwp(n),
    }
}

/// The identifier an event is about.
pub open spec fn event_identifier(e: ProcessEventView) -> AppIdentifierView {
    match e {
        ProcessEventView::Started(id) => id,
        ProcessEventView::Stopped(id) => id,
    }
}

/// The active-process count after a start (the counter wraps around).
pub open spec fn count_after_start(c: usize) -> usize {
    if c == usize::MAX {
        0
    } else {
        (c + 1) as usize
    }
}

/// The active-process count after a stop (never below zero).
pub open spec fn count_after_stop(c: usize) -> usize {
    if c == 0 {
        0
    } else {
        (c - 1) as usize
    }
}

/// A stop at `now` comes within the debounce time after the last toggle.
pub open spec fn debounced(last_toggle: u64, now: u64) -> bool {
    elapsed(last_toggle, now) < DEBOUNCE_NANOS
}

/// The list with the first application of the identifier enabled or disabled.
pub open spec fn with_app_enabled(apps: Seq<MonitoredAppView>, id: u128, enabled: bool) -> Seq<
    MonitoredAppView,
> {
    let k = first_with_id(apps, id);
    if k >= 0 {
        apps.update(k, apps[k].with_enabled(enabled))
    } else {
        apps
    }
}

/// The list without the applications of the identifier.
pub open spec fn without_id(apps: Seq<MonitoredAppView>, id: u128) -> Seq<MonitoredAppView> {
    apps.filter(|a: MonitoredAppView| a.id() != id)
}

/// Copies of the enabled applications of a list.
fn enabled_app_copies(apps: &Vec<MonitoredApp>) -> (r: Vec<MonitoredApp>)
    ensures
        r.deep_view() == enabled_apps(apps.deep_view()),
{
    let ghost all = apps.deep_view();
    let ghost p = |a: MonitoredAppView| a.enabled();
    let mut r: Vec<MonitoredApp> = Vec::new();
    let mut i: usize = 0;
    while i < apps.len()
        invariant
            i <= apps@.len(),
            all == apps.deep_view(),
            p == (|a: MonitoredAppView| a.enabled()),
            r.deep_view() == all.take(i as int).filter(p),
        decreases apps@.len() - i,
    {
        proof {
            assert(all.take(i + 1) =~= all.take(i as int).push(all[i as int]));
            all.take(i as int).lemma_filter_push(all[i as int], p);
        }
        if apps[i].is_enabled() {
            let ghost before = r.deep_view();
            r.push(apps[i].clone());
            assert(r.deep_view() =~= before.push(all[i as int]));
        }
        i = i + 1;
    }
    assert(all.take(i as int) =~= all);
    r
}

/// Display names of the enabled applications of a list.
fn active_app_names_of(apps: &Vec<MonitoredApp>) -> (r: Vec<String>)
    ensures
        r@.map_values(|s: String| s@) == active_app_names(apps.deep_view()),
{
    let ghost all = apps.deep_view();
    let ghost p = |a: MonitoredAppView| a.enabled();
    let ghost f = |a: MonitoredAppView| a.display_name();
    let mut r: Vec<String> = Vec::new();
    let mut i: usize = 0;
    while i < apps.len()
        invariant
            i <= apps@.len(),
            all == apps.deep_view(),
            p == (|a: MonitoredAppView| a.enabled()),
            f == (|a: MonitoredAppView| a.display_name()),
            r@.map_values(|s: String| s@) == all.take(i as int).filter(p).map_values(f),
        decreases apps@.len() - i,
    {
        proof {
            assert(all.take(i + 1) =~= all.take(i as int).push(all[i as int]));
            all.take(i as int).lemma_filter_push(all[i as int], p);
        }
        if apps[i].is_enabled() {
            let ghost before = r@;
            r.push(String::from_str(apps[i].display_name()));
            assert(r@.map_values(|s: String| s@) =~= before.map_values(|s: String| s@).push(
                all[i as int].display_name(),
            ));
            assert(all.take(i + 1).filter(p).map_values(f) =~= all.take(i as int).filter(
                p,
            ).map_values(f).push(f(all[i as int])));
        }
        i = i + 1;
    }
    assert(all.take(i as int) =~= all);
    r
}

/// Application logic controller
pub struct AppController {
    /// Application configuration
    pub config: AppConfig,
    /// Display control decisions
    pub hdr_controller: HdrController,
    /// Number of monitored processes running
    pub active_process_count: usize,
    /// Whether HDR is on
    pub current_hdr_state: bool,
    /// When HDR was last toggled (nanoseconds since startup)
    pub last_toggle_time_nanos: u64,
    /// Watch list shared with the process monitor: the enabled applications
    pub watch_state: WatchState,
    /// Whether HDR-capable displays are available
    pub hdr_displays_available: bool,
    /// Show the "HDR displays now available" notification with the next update
    pub pending_hdr_available_notification: bool,
    /// Show the "no HDR display" warning with the next update
    pub pending_no_hdr_warning: bool,
}

impl AppController {
    /// The configured applications.
    pub open spec fn apps(&self) -> Seq<MonitoredAppView> {
        self.config.monitored_apps.deep_view()
    }

    /// The watch list is consistent and holds exactly the enabled applications.
    pub open spec fn well_formed(&self) -> bool {
        &&& self.watch_state.well_formed()
        &&& self.watch_state.apps.deep_view() == enabled_apps(self.apps())
    }

    /// The state update that the current state gives, with the given
    /// notification flags.
    pub open spec fn update_with(&self, available_note: bool, warning: bool) -> AppStateView {
        AppStateView {
            hdr_enabled: self.current_hdr_state,
            active_apps: active_app_names(self.apps()),
            last_event: status_text(self.active_process_count as nat),
            show_hdr_available_notification: available_note,
            show_no_hdr_warning: warning,
        }
    }

    /// The update sent from this state: the pending notifications are shown.
    pub open spec fn pending_update(&self) -> AppStateView {
        self.update_with(self.pending_hdr_available_notification, self.pending_no_hdr_warning)
    }

    /// The state after an update was sent: the pending notifications are cleared.
    pub open spec fn after_send(self) -> AppController {
        AppController {
            pending_hdr_available_notification: false,
            pending_no_hdr_warning: false,
            ..self
        }
    }

    /// The state after switching HDR at `now`.
    pub open spec fn toggled(self, enable: bool, now: u64) -> AppController {
        AppController { current_hdr_state: enable, last_toggle_time_nanos: now, ..self }
    }

    /// HDR is switched on at a start when no monitored process was running and HDR was off.
    pub open spec fn start_switches_on(&self) -> bool {
        self.active_process_count == 0 && !self.current_hdr_state
    }

    /// The state after a start of a watched application at `now` (before the update is sent).
    pub open spec fn started_state(self, now: u64) -> AppController {
        let counted = AppController {
            active_process_count: count_after_start(self.active_process_count),
            ..self
        };
        if self.start_switches_on() {
            counted.toggled(true, now)
        } else {
            counted
        }
    }

    /// HDR is switched off at a stop that is not debounced when the last
    /// monitored process stopped and HDR is on.
    pub open spec fn stop_switches_off(&self) -> bool {
        self.active_process_count == 1 && self.current_hdr_state
    }

    /// The state after a stop of a watched application at `now` (before an
    /// update is sent; none is sent when the stop is debounced).
    pub open spec fn stopped_state(self, now: u64) -> AppController {
        let counted = AppController {
            active_process_count: count_after_stop(self.active_process_count),
            ..self
        };
        if !debounced(self.last_toggle_time_nanos, now) && self.stop_switches_off() {
            counted.toggled(false, now)
        } else {
            counted
        }
    }

    /// Whether an event names a watched application.
    pub open spec fn watches(&self, id: AppIdentifierView) -> bool {
        self.watch_state.identifiers.deep_view().contains(normalized_identifier(id))
    }

    /// The state after an HDR state event (before the update is sent), given
    /// the display cache after the refresh that a configuration change causes.
    pub open spec fn hdr_event_state(self, event: HdrStateEvent, refreshed: HdrController, now: u64) -> AppController {
        match event {
            HdrStateEvent::Enabled => AppController { current_hdr_state: true, ..self },
            HdrStateEvent::Disabled => AppController { current_hdr_state: false, ..self },
            HdrStateEvent::DisplayConfigurationChanged { hdr_capable_count } => {
                let now_available = hdr_capable_count > 0;
                let noted = AppController {
                    hdr_controller: refreshed,
                    hdr_displays_available: now_available,
                    pending_hdr_available_notification: self.pending_hdr_available_notification
                        || (!self.hdr_displays_available && now_available),
                    ..self
                };
                if now_available && self.active_process_count > 0 && !self.current_hdr_state {
                    noted.toggled(true, now)
                } else {
                    noted
                }
            },
        }
    }

    /// Whether an HDR state event makes the controller switch HDR on.
    pub open spec fn hdr_event_switches_on(&self, event: HdrStateEvent) -> bool {
        match event {
            HdrStateEvent::DisplayConfigurationChanged { hdr_capable_count } => hdr_capable_count > 0
                && self.active_process_count > 0 && !self.current_hdr_state,
            _ => false,
        }
    }

    /// Send the current state to the user interface: the update carries the
    /// pending notifications, which are then cleared.
    fn send_state_update(&mut self) -> (s: AppState)
        ensures
            s@ == old(self).pending_update(),
            *final(self) == old(self).after_send(),
    {
        let active_apps = active_app_names_of(&self.config.monitored_apps);
        let count_text = u64_to_decimal(self.active_process_count as u64);
        let last_event = concat("Active processes: ", count_text.as_str());
        let state = AppState {
            hdr_enabled: self.current_hdr_state,
            active_apps,
            last_event,
            show_hdr_available_notification: self.pending_hdr_available_notification,
            show_no_hdr_warning: self.pending_no_hdr_warning,
        };
        self.pending_hdr_available_notification = false;
        self.pending_no_hdr_warning = false;
        state
    }

    /// Record a switch of HDR at `now`; the caller switches the displays.
    fn toggle_hdr(&mut self, enable: bool, now_nanos: u64)
        ensures
            *final(self) == old(self).toggled(enable, now_nanos),
    {
        self.current_hdr_state = enable;
        self.last_toggle_time_nanos = now_nanos;
    }

    /// Make the watch list hold the enabled applications of the configuration.
    fn update_process_monitor_watch_list(&mut self)
        ensures
            final(self).well_formed(),
            *final(self) == (AppController { watch_state: final(self).watch_state, ..*old(self) }),
    {
        let enabled = enabled_app_copies(&self.config.monitored_apps);
        self.watch_state = WatchState::from_apps(enabled);
    }

    /// A controller for a configuration. `hdr_controller` is the HDR controller
    /// created for the system, and `hdr_enabled[i]` the answer of the HDR-enabled
    /// query for its display `i`. HDR counts as on when some HDR-capable display
    /// reports it on; when no display supports HDR, the first state update
    /// carries a warning. Fails with `HdrControlFailed` when the HDR controller
    /// could not be created.
    pub fn new(
        config: AppConfig,
        hdr_controller: Result<HdrController, EasyHdrError>,
        hdr_enabled: &Vec<Result<bool, EasyHdrError>>,
    ) -> (c: Result<AppController, EasyHdrError>)
        requires
            hdr_controller is Ok ==> hdr_enabled@.len() == hdr_controller->Ok_0.displays().len(),
        ensures
            hdr_controller is Err ==> c is Err && c->Err_0 == EasyHdrError::HdrControlFailed(
                c->Err_0->HdrControlFailed_0,
            ) && c->Err_0->HdrControlFailed_0@ == error_message(hdr_controller->Err_0),
            hdr_controller is Ok ==> c is Ok && {
                let h = hdr_controller->Ok_0;
                let a = c->Ok_0;
                &&& a.well_formed()
                &&& a.config == config
                &&& a.hdr_controller == h
                &&& a.active_process_count == 0
                &&& a.current_hdr_state == any_hdr_enabled(h.displays(), hdr_enabled@)
                &&& a.last_toggle_time_nanos == 0
                &&& a.hdr_displays_available == (hdr_capable(h.displays()).len() > 0)
                &&& !a.pending_hdr_available_notification
                &&& a.pending_no_hdr_warning == (hdr_capable(h.displays()).len() == 0)
            },
    {
        let hdr = match hdr_controller {
            Ok(h) => h,
            Err(e) => return Err(EasyHdrError::HdrControlFailed(e.message())),
        };
        let initial_hdr_state = hdr.detect_current_hdr_state(hdr_enabled);
        let available = hdr.hdr_capable_targets().len() > 0;
        let mut controller = AppController {
            config,
            hdr_controller: hdr,
            active_process_count: 0,
            current_hdr_state: initial_hdr_state,
            last_toggle_time_nanos: 0,
            watch_state: WatchState::new(),
            hdr_displays_available: available,
            pending_hdr_available_notification: false,
            pending_no_hdr_warning: !available,
        };
        controller.update_process_monitor_watch_list();
        Ok(controller)
    }

    /// A controller with an HDR controller that has no display (for tests): HDR
    /// is off and no warning is scheduled.
    pub fn new_with_mock_hdr(config: AppConfig) -> (c: Result<AppController, EasyHdrError>)
        ensures
            c is Ok,
            c->Ok_0.well_formed(),
            c->Ok_0.config == config,
            c->Ok_0.hdr_controller.displays().len() == 0,
            c->Ok_0.active_process_count == 0,
            !c->Ok_0.current_hdr_state,
            c->Ok_0.last_toggle_time_nanos == 0,
            !c->Ok_0.hdr_displays_available,
            !c->Ok_0.pending_hdr_available_notification,
            !c->Ok_0.pending_no_hdr_warning,
    {
        let hdr = HdrController::new_mock();
        let mut controller = AppController {
            config,
            hdr_controller: hdr,
            active_process_count: 0,
            current_hdr_state: false,
            last_toggle_time_nanos: 0,
            watch_state: WatchState::new(),
            hdr_displays_available: false,
            pending_hdr_available_notification: false,
            pending_no_hdr_warning: false,
        };
        controller.update_process_monitor_watch_list();
        Ok(controller)
    }

    /// Normalize an identifier for lookup: Win32 process names in lowercase,
    /// UWP package family names unchanged.
    pub fn normalize_app_identifier(app_id: &AppIdentifier) -> (r: AppIdentifier)
        ensures
            r@ == normalized_identifier(app_id@),
            app_id@ matches AppIdentifierView::Win32(n) ==> (is_ascii_text(n) ==> r@
                == AppIdentifierView::Win32(ascii_lowercase_text(n))),
    {
        match app_id {
            AppIdentifier::Win32(process_name) => AppIdentifier::Win32(
                to_lowercase(process_name.as_str()),
            ),
            AppIdentifier::Uwp(package_family_name) => AppIdentifier::Uwp(
                package_family_name.clone(),
            ),
        }
    }

    /// Handle a process event at `now_nanos` (nanoseconds since startup).
    ///
    /// Events for applications that are not watched are ignored. A start
    /// counts the process and switches HDR on when it is the first one and HDR
    /// is off. A stop counts the process down (never below zero); within 500 ms
    /// after the last toggle it does nothing more, else it switches HDR off when
    /// it was the last one and HDR is on. A state update follows, except for
    /// ignored and debounced events.
    pub fn handle_process_event(&mut self, event: ProcessEvent, now_nanos: u64) -> (action: ControllerAction)
        requires
            old(self).well_formed(),
        ensures
            final(self).well_formed(),
            !old(self).watches(event_identifier(event@)) ==> *final(self) == *old(self)
                && action.toggle_hdr is None && action.state_update is None,
            old(self).watches(event_identifier(event@)) && event@ is Started ==> {
                let next = old(self).started_state(now_nanos);
                &&& *final(self) == next.after_send()
                &&& action.toggle_hdr == (if old(self).start_switches_on() {
                    Some(true)
                } else {
                    None
                })
                &&& action.state_update matches Some(s) && s@ == next.pending_update()
            },
            old(self).watches(event_identifier(event@)) && event@ is Stopped ==> {
                let next = old(self).stopped_state(now_nanos);
                if debounced(old(self).last_toggle_time_nanos, now_nanos) {
                    &&& *final(self) == next
                    &&& action.toggle_hdr is None
                    &&& action.state_update is None
                } else {
                    &&& *final(self) == next.after_send()
                    &&& action.toggle_hdr == (if old(self).stop_switches_off() {
                        Some(false)
                    } else {
                        None
                    })
                    &&& action.state_update matches Some(s) && s@ == next.pending_update()
                }
            },
    {
        let ghost before = *self;
        match event {
            ProcessEvent::Started(app_id) => {
                let normalized_id = Self::normalize_app_identifier(&app_id);
                if !self.watch_state.is_watched(&normalized_id) {
                    return ControllerAction { toggle_hdr: None, state_update: None };
                }
                let prev_count = self.active_process_count;
                self.active_process_count = if prev_count == usize::MAX {
                    0
                } else {
                    prev_count + 1
                };
                let mut toggle: Option<bool> = None;
                if prev_count == 0 && !self.current_hdr_state {
                    self.toggle_hdr(true, now_nanos);
                    toggle = Some(true);
                }
                assert(*self == before.started_state(now_nanos));
                let update = self.send_state_update();
                ControllerAction { toggle_hdr: toggle, state_update: Some(update) }
            },
            ProcessEvent::Stopped(app_id) => {
                let normalized_id = Self::normalize_app_identifier(&app_id);
                if !self.watch_state.is_watched(&normalized_id) {
                    return ControllerAction { toggle_hdr: None, state_update: None };
                }
                let prev_count = self.active_process_count;
                self.active_process_count = if prev_count == 0 {
                    0
                } else {
                    prev_count - 1
                };
                let since: u64 = if now_nanos >= self.last_toggle_time_nanos {
                    now_nanos - self.last_toggle_time_nanos
                } else {
                    0
                };
                if since < DEBOUNCE_NANOS {
                    return ControllerAction { toggle_hdr: None, state_update: None };
                }
                let mut toggle: Option<bool> = None;
                if prev_count == 1 && self.current_hdr_state {
                    self.toggle_hdr(false, now_nanos);
                    toggle = Some(false);
                }
                assert(*self == before.stopped_state(now_nanos));
                let update = self.send_state_update();
                ControllerAction { toggle_hdr: toggle, state_update: Some(update) }
            },
        }
    }

    /// Re-enumerate the displays: the display cache takes the probed paths, or
    /// stays as it was when the enumeration failed, which is reported as
    /// `HdrControlFailed`.
    pub fn refresh_displays(&mut self, probes: Result<Vec<DisplayProbe>, EasyHdrError>) -> (r: Result<
        (),
        EasyHdrError,
    >)
        ensures
            *final(self) == (AppController { hdr_controller: final(self).hdr_controller, ..*old(self) }),
            final(self).hdr_controller.version() == old(self).hdr_controller.version(),
            probes is Ok ==> r is Ok && final(self).hdr_controller.displays() == targets_of_probes(
                probes->Ok_0@,
            ),
            probes is Err ==> r is Err && final(self).hdr_controller.displays()
                == old(self).hdr_controller.displays() && r->Err_0 == EasyHdrError::HdrControlFailed(
                r->Err_0->HdrControlFailed_0,
            ) && r->Err_0->HdrControlFailed_0@ == error_message(probes->Err_0),
    {
        match self.hdr_controller.refresh_displays(probes) {
            Ok(_) => Ok(()),
            Err(e) => Err(EasyHdrError::HdrControlFailed(e.message())),
        }
    }

    /// Handle an HDR state event at `now_nanos`. A change made in the Windows
    /// settings is recorded without switching anything. A display configuration
    /// change refreshes the display cache (with `probes`, the enumerated paths),
    /// schedules a notification when HDR displays became available, and switches
    /// HDR on when displays are available, monitored processes run and HDR is
    /// off. A state update follows in every case.
    pub fn handle_hdr_state_event(
        &mut self,
        event: HdrStateEvent,
        probes: Result<Vec<DisplayProbe>, EasyHdrError>,
        now_nanos: u64,
    ) -> (action: ControllerAction)
        requires
            old(self).well_formed(),
        ensures
            final(self).well_formed(),
            ({
                let next = old(self).hdr_event_state(event, final(self).hdr_controller, now_nanos);
                &&& *final(self) == next.after_send()
                &&& action.toggle_hdr == (if old(self).hdr_event_switches_on(event) {
                    Some(true)
                } else {
                    None
                })
                &&& action.state_update matches Some(s) && s@ == next.pending_update()
            }),
            final(self).hdr_controller.version() == old(self).hdr_controller.version(),
            !(event is DisplayConfigurationChanged) ==> final(self).hdr_controller
                == old(self).hdr_controller,
            event is DisplayConfigurationChanged && probes is Ok ==> final(self).hdr_controller.displays()
                == targets_of_probes(probes->Ok_0@),
            event is DisplayConfigurationChanged && probes is Err ==> final(self).hdr_controller.displays()
                == old(self).hdr_controller.displays(),
    {
        let ghost before = *self;
        let mut toggle: Option<bool> = None;
        match event {
            HdrStateEvent::Enabled => {
                self.current_hdr_state = true;
            },
            HdrStateEvent::Disabled => {
                self.current_hdr_state = false;
            },
            HdrStateEvent::DisplayConfigurationChanged { hdr_capable_count } => {
                let _ = self.refresh_displays(probes);
                let was_unavailable = !self.hdr_displays_available;
                let now_available = hdr_capable_count > 0;
                self.hdr_displays_available = now_available;
                if was_unavailable && now_available {
                    self.pending_hdr_available_notification = true;
                }
                if now_available && self.active_process_count > 0 && !self.current_hdr_state {
                    self.toggle_hdr(true, now_nanos);
                    toggle = Some(true);
                }
            },
        }
        assert(*self == before.hdr_event_state(event, self.hdr_controller, now_nanos));
        let update = self.send_state_update();
        ControllerAction { toggle_hdr: toggle, state_update: Some(update) }
    }

    /// Send the initial state: the watch list is rebuilt from the configuration
    /// and the current state is returned as an update.
    pub fn send_initial_state(&mut self) -> (s: AppState)
        ensures
            final(self).well_formed(),
            s@ == old(self).pending_update(),
            *final(self) == (AppController { watch_state: final(self).watch_state, ..*old(self) }).after_send(),
    {
        self.update_process_monitor_watch_list();
        self.send_state_update()
    }

    /// Add an application to the configuration; the watch list follows and a
    /// state update is returned. (The caller saves the configuration.)
    pub fn add_application(&mut self, app: MonitoredApp) -> (s: AppState)
        ensures
            final(self).well_formed(),
            final(self).apps() == old(self).apps().push(app@),
            final(self).config.preferences == old(self).config.preferences,
            final(self).config.window_state == old(self).config.window_state,
            *final(self) == (AppController {
                config: final(self).config,
                watch_state: final(self).watch_state,
                ..*old(self)
            }).after_send(),
            s@ == final(self).update_with(
                old(self).pending_hdr_available_notification,
                old(self).pending_no_hdr_warning,
            ),
    {
        let ghost before = self.config.monitored_apps.deep_view();
        let ghost v = app@;
        self.config.monitored_apps.push(app);
        assert(self.config.monitored_apps.deep_view() =~= before.push(v));
        self.update_process_monitor_watch_list();
        self.send_state_update()
    }

    /// Remove the applications with the identifier; the watch list follows and
    /// a state update is returned. (The caller saves the configuration and
    /// removes the cached icon.)
    pub fn remove_application(&mut self, id: u128) -> (s: AppState)
        ensures
            final(self).well_formed(),
            final(self).apps() == without_id(old(self).apps(), id),
            final(self).config.preferences == old(self).config.preferences,
            final(self).config.window_state == old(self).config.window_state,
            *final(self) == (AppController {
                config: final(self).config,
                watch_state: final(self).watch_state,
                ..*old(self)
            }).after_send(),
            s@ == final(self).update_with(
                old(self).pending_hdr_available_notification,
                old(self).pending_no_hdr_warning,
            ),
    {
        let ghost all = self.apps();
        let ghost p = |a: MonitoredAppView| a.id() != id;
        let mut kept: Vec<MonitoredApp> = Vec::new();
        let mut i: usize = 0;
        while i < self.config.monitored_apps.len()
            invariant
                i <= all.len(),
                all == self.apps(),
                p == (|a: MonitoredAppView| a.id() != id),
                kept.deep_view() == all.take(i as int).filter(p),
            decreases all.len() - i,
        {
            proof {
                assert(all.take(i + 1) =~= all.take(i as int).push(all[i as int]));
                all.take(i as int).lemma_filter_push(all[i as int], p);
            }
            if self.config.monitored_apps[i].id() != id {
                let ghost b = kept.deep_view();
                kept.push(self.config.monitored_apps[i].clone());
                assert(kept.deep_view() =~= b.push(all[i as int]));
            }
            i = i + 1;
        }
        assert(all.take(i as int) =~= all);
        self.config.monitored_apps = kept;
        self.update_process_monitor_watch_list();
        self.send_state_update()
    }

    /// Enable or disable the first application with the identifier (nothing
    /// changes when there is none); the watch list follows and a state update
    /// is returned. (The caller saves the configuration.)
    pub fn toggle_app_enabled(&mut self, id: u128, enabled: bool) -> (s: AppState)
        ensures
            final(self).well_formed(),
            final(self).apps() == with_app_enabled(old(self).apps(), id, enabled),
            final(self).config.preferences == old(self).config.preferences,
            final(self).config.window_state == old(self).config.window_state,
            *final(self) == (AppController {
                config: final(self).config,
                watch_state: final(self).watch_state,
                ..*old(self)
            }).after_send(),
            s@ == final(self).update_with(
                old(self).pending_hdr_available_notification,
                old(self).pending_no_hdr_warning,
            ),
    {
        let ghost all = self.apps();
        let mut i: usize = 0;
        while i < self.config.monitored_apps.len() && self.config.monitored_apps[i].id() != id
            invariant
                i <= all.len(),
                all == self.apps(),
                forall|j: int| 0 <= j < i ==> (#[trigger] all[j]).id() != id,
            decreases all.len() - i,
        {
            i = i + 1;
        }
        proof {
            lemma_first_with_id(all, id, i as int);
        }
        if i < self.config.monitored_apps.len() {
            let mut app = self.config.monitored_apps.remove(i);
            app.set_enabled(enabled);
            self.config.monitored_apps.insert(i, app);
            assert(self.config.monitored_apps.deep_view() =~= all.update(
                i as int,
                all[i as int].with_enabled(enabled),
            ));
        }
        self.update_process_monitor_watch_list();
        self.send_state_update()
    }

    /// Replace the user preferences. (The caller saves the configuration.)
    pub fn update_preferences(&mut self, prefs: UserPreferences)
        ensures
            *final(self) == (AppController {
                config: AppConfig { preferences: prefs, ..old(self).config },
                ..*old(self)
            }),
    {
        self.config.preferences = prefs;
    }
}

/// A monitored application starting from idle (no process, HDR off) switches
/// HDR on; when it stops again after the debounce time, HDR is switched off and
/// the count is back at zero.
pub proof fn lemma_start_then_stop_restores_idle(c: AppController, started_at: u64, stopped_at: u64)
    requires
        c.active_process_count == 0,
        !c.current_hdr_state,
        !debounced(started_at, stopped_at),
    ensures
        c.start_switches_on(),
        c.started_state(started_at).current_hdr_state,
        c.started_state(started_at).after_send().stop_switches_off(),
        c.started_state(started_at).after_send().stopped_state(stopped_at).active_process_count == 0,
        !c.started_state(started_at).after_send().stopped_state(stopped_at).current_hdr_state,
{
}

/// HDR is on exactly while monitored processes are counted.
pub open spec fn hdr_follows_count(c: AppController) -> bool {
    c.current_hdr_state == (c.active_process_count > 0)
}

/// When HDR is on exactly while monitored processes are counted, it stays so
/// after a start (short of the counter's limit) and after a stop outside the
/// debounce time.
pub proof fn lemma_hdr_follows_count(c: AppController, now: u64)
    requires
        hdr_follows_count(c),
        c.active_process_count < usize::MAX,
    ensures
        hdr_follows_count(c.started_state(now).after_send()),
        !debounced(c.last_toggle_time_nanos, now) ==> hdr_follows_count(
            c.stopped_state(now).after_send(),
        ),
{
}

/// The last monitored process stopping outside the debounce time switches HDR
/// off and leaves no process counted.
pub proof fn lemma_last_stop_switches_off(c: AppController, now: u64)
    requires
        c.active_process_count == 1,
        c.current_hdr_state,
        !debounced(c.last_toggle_time_nanos, now),
    ensures
        c.stop_switches_off(),
        c.stopped_state(now).active_process_count == 0,
        !c.stopped_state(now).current_hdr_state,
        c.stopped_state(now).last_toggle_time_nanos == now,
{
}

/// While other monitored processes still run, a stop never switches HDR.
pub proof fn lemma_stop_while_others_run_keeps_hdr(c: AppController, now: u64)
    requires
        c.active_process_count > 1,
    ensures
        !c.stop_switches_off(),
        c.stopped_state(now).active_process_count == c.active_process_count - 1,
        c.stopped_state(now).current_hdr_state == c.current_hdr_state,
{
}

/// While other monitored processes run, a start never switches HDR.
pub proof fn lemma_start_while_running_keeps_hdr(c: AppController, now: u64)
    requires
        c.active_process_count > 0,
    ensures
        !c.start_switches_on(),
        c.started_state(now).current_hdr_state == c.current_hdr_state,
        c.started_state(now).last_toggle_time_nanos == c.last_toggle_time_nanos,
{
}

/// A stop within the debounce time after a toggle never switches HDR.
pub proof fn lemma_debounced_stop_keeps_hdr(c: AppController, now: u64)
    requires
        debounced(c.last_toggle_time_nanos, now),
    ensures
        c.stopped_state(now).current_hdr_state == c.current_hdr_state,
        c.stopped_state(now).last_toggle_time_nanos == c.last_toggle_time_nanos,
        c.stopped_state(now).active_process_count == count_after_stop(c.active_process_count),
{
}

/// A stop when no monitored process is counted leaves the count at zero and
/// does not switch HDR.
pub proof fn lemma_stop_at_zero_stays_zero(c: AppController, now: u64)
    requires
        c.active_process_count == 0,
    ensures
        c.stopped_state(now).active_process_count == 0,
        c.stopped_state(now).current_hdr_state == c.current_hdr_state,
{
}

/// HDR state events switch HDR on only for a display-configuration change that
/// makes HDR displays available while monitored processes are counted and HDR
/// is off; then HDR is on and the toggle time is the event's. Otherwise HDR
/// stays as it was, except that a change made in the Windows settings is taken
/// over.
pub proof fn lemma_hdr_events_switch_on_only_for_running_processes(
    c: AppController,
    event: HdrStateEvent,
    h: HdrController,
    now: u64,
)
    ensures
        c.hdr_event_switches_on(event) ==> {
            &&& c.active_process_count > 0
            &&& !c.current_hdr_state
            &&& event matches HdrStateEvent::DisplayConfigurationChanged { hdr_capable_count }
                && hdr_capable_count > 0
            &&& c.hdr_event_state(event, h, now).current_hdr_state
            &&& c.hdr_event_state(event, h, now).last_toggle_time_nanos == now
        },
        !c.hdr_event_switches_on(event) && event is DisplayConfigurationChanged ==> {
            &&& c.hdr_event_state(event, h, now).current_hdr_state == c.current_hdr_state
            &&& c.hdr_event_state(event, h, now).last_toggle_time_nanos == c.last_toggle_time_nanos
        },
        c.hdr_event_state(event, h, now).active_process_count == c.active_process_count,
{
}

/// A display-configuration change never switches HDR on while no monitored
/// process is counted, however many HDR displays appear.
pub proof fn lemma_display_change_without_processes_keeps_hdr(
    c: AppController,
    hdr_capable_count: usize,
    h: HdrController,
    now: u64,
)
    requires
        c.active_process_count == 0,
    ensures
        !c.hdr_event_switches_on(HdrStateEvent::DisplayConfigurationChanged { hdr_capable_count }),
        c.hdr_event_state(HdrStateEvent::DisplayConfigurationChanged { hdr_capable_count }, h, now).current_hdr_state
            == c.current_hdr_state,
{
    lemma_hdr_events_switch_on_only_for_running_processes(
        c,
        HdrStateEvent::DisplayConfigurationChanged { hdr_capable_count },
        h,
        now,
    );
}

/// An HDR change made in the Windows settings is taken over as it is and never
/// answered by a switch.
pub proof fn lemma_external_change_recorded(c: AppController, h: HdrController, now: u64)
    ensures
        c.hdr_event_state(HdrStateEvent::Enabled, h, now).current_hdr_state,
        !c.hdr_event_state(HdrStateEvent::Disabled, h, now).current_hdr_state,
        !c.hdr_event_switches_on(HdrStateEvent::Enabled),
        !c.hdr_event_switches_on(HdrStateEvent::Disabled),
{
}

} // verus!

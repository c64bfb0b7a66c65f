//! Configuration data models.

use crate::error::EasyHdrError;
use crate::text::{chars_of, concat, lowercase_text, string_from_chars, to_lowercase};
use crate::utils::icon_extractor::{
    IconSource, display_name_of, extract_display_name_from_exe, extract_icon_from_exe,
    extracted_icon, file_stem, file_stem_chars, valid_icon_source,
};
use vstd::prelude::*;

verus! {

/// A fresh random application identifier (`uuid::Uuid::new_v4`, as a
/// number). Nothing is stated of the value: it is random.
#[verifier::external_body]
pub(crate) fn new_app_id() -> u128 {
    uuid::Uuid::new_v4().as_u128()
}

/// A copy of an optional icon.
pub fn copy_icon(icon: &Option<Vec<u8>>) -> (r: Option<Vec<u8>>)
    ensures
        icon_view(r) == icon_view(*icon),
{
    match icon {
        None => None,
        Some(v) => {
            let mut out: Vec<u8> = Vec::new();
            let mut i: usize = 0;
            while i < v.len()
                invariant
                    i <= v@.len(),
                    out@ == v@.take(i as int),
                decreases v@.len() - i,
            {
                out.push(v[i]);
                assert(v@.take(i + 1) =~= v@.take(i as int).push(v@[i as int]));
                i = i + 1;
            }
            assert(v@.take(i as int) =~= v@);
            Some(out)
        },
    }
}

/// The bytes of an optional icon.
pub open spec fn icon_view(icon: Option<Vec<u8>>) -> Option<Seq<u8>> {
    match icon {
        Some(v) => Some(v@),
        None => None,
    }
}

/// Win32 desktop application
#[derive(Debug)]
pub struct Win32App {
    /// Unique identifier for this application entry
    pub id: u128,
    /// Display name shown in the UI
    pub display_name: String,
    /// Full path to the executable
    pub exe_path: String,
    /// Process name (executable file name without extension, lowercase)
    pub process_name: String,
    /// Whether monitoring is enabled for this application
    pub enabled: bool,
    /// Icon data held in memory (32x32 RGBA); not stored in the configuration file
    pub icon_data: Option<Vec<u8>>,
}

/// The values held by a Win32 application entry.
pub struct Win32AppView {
    pub id: u128,
    pub display_name: Seq<char>,
    pub exe_path: Seq<char>,
    pub process_name: Seq<char>,
    pub enabled: bool,
    pub icon_data: Option<Seq<u8>>,
}

impl View for Win32App {
    type V = Win32AppView;

    open spec fn view(&self) -> Win32AppView {
        Win32AppView {
            id: self.id,
            display_name: self.display_name@,
            exe_path: self.exe_path@,
            process_name: self.process_name@,
            enabled: self.enabled,
            icon_data: icon_view(self.icon_data),
        }
    }
}

impl Clone for Win32App {
    fn clone(&self) -> (r: Self)
        ensures
            r@ == self@,
    {
        Win32App {
            id: self.id,
            display_name: self.display_name.clone(),
            exe_path: self.exe_path.clone(),
            process_name: self.process_name.clone(),
            enabled: self.enabled,
            icon_data: copy_icon(&self.icon_data),
        }
    }
}

/// UWP (Universal Windows Platform) application
#[derive(Debug)]
pub struct UwpApp {
    /// Unique identifier for this application entry
    pub id: u128,
    /// Display name shown in the UI
    pub display_name: String,
    /// Package family name (stable identifier across updates)
    pub package_family_name: String,
    /// Application ID within the package
    pub app_id: String,
    /// Whether monitoring is enabled for this application
    pub enabled: bool,
    /// Icon data held in memory; not stored in the configuration file
    pub icon_data: Option<Vec<u8>>,
}

/// The values held by a UWP application entry.
pub struct UwpAppView {
    pub id: u128,
    pub display_name: Seq<char>,
    pub package_family_name: Seq<char>,
    pub app_id: Seq<char>,
    pub enabled: bool,
    pub icon_data: Option<Seq<u8>>,
}

impl View for UwpApp {
    type V = UwpAppView;

    open spec fn view(&self) -> UwpAppView {
        UwpAppView {
            id: self.id,
            display_name: self.display_name@,
            package_family_name: self.package_family_name@,
            app_id: self.app_id@,
            enabled: self.enabled,
            icon_data: icon_view(self.icon_data),
        }
    }
}

impl Clone for UwpApp {
    fn clone(&self) -> (r: Self)
        ensures
            r@ == self@,
    {
        UwpApp {
            id: self.id,
            display_name: self.display_name.clone(),
            package_family_name: self.package_family_name.clone(),
            app_id: self.app_id.clone(),
            enabled: self.enabled,
            icon_data: copy_icon(&self.icon_data),
        }
    }
}

/// A monitored application (Win32 or UWP)
#[derive(Debug)]
pub enum MonitoredApp {
    /// Traditional Win32 desktop application
    Win32(Win32App),
    /// Universal Windows Platform application
    Uwp(UwpApp),
}

/// The values held by a monitored application entry.
pub enum MonitoredAppView {
    Win32(Win32AppView),
    Uwp(UwpAppView),
}

impl MonitoredAppView {
    /// Identifier of the entry.
    pub open spec fn id(self) -> u128 {
        match self {
            MonitoredAppView::Win32(a) => a.id,
            MonitoredAppView::Uwp(a) => a.id,
        }
    }

    /// Display name of the entry.
    pub open spec fn display_name(self) -> Seq<char> {
        match self {
            MonitoredAppView::Win32(a) => a.display_name,
            MonitoredAppView::Uwp(a) => a.display_name,
        }
    }

    /// Whether monitoring is enabled for the entry.
    pub open spec fn enabled(self) -> bool {
        match self {
            MonitoredAppView::Win32(a) => a.enabled,
            MonitoredAppView::Uwp(a) => a.enabled,
        }
    }

    /// Icon of the entry.
    pub open spec fn icon_data(self) -> Option<Seq<u8>> {
        match self {
            MonitoredAppView::Win32(a) => a.icon_data,
            MonitoredAppView::Uwp(a) => a.icon_data,
        }
    }

    /// The entry with monitoring switched on or off.
    pub open spec fn with_enabled(self, enabled: bool) -> MonitoredAppView {
        match self {
            MonitoredAppView::Win32(a) => MonitoredAppView::Win32(Win32AppView { enabled, ..a }),
            MonitoredAppView::Uwp(a) => MonitoredAppView::Uwp(UwpAppView { enabled, ..a }),
        }
    }

    /// The entry with another icon.
    pub open spec fn with_icon(self, icon_data: Option<Seq<u8>>) -> MonitoredAppView {
        match self {
            MonitoredAppView::Win32(a) => MonitoredAppView::Win32(Win32AppView { icon_data, ..a }),
            MonitoredAppView::Uwp(a) => MonitoredAppView::Uwp(UwpAppView { icon_data, ..a }),
        }
    }
}

impl View for MonitoredApp {
    type V = MonitoredAppView;

    open spec fn view(&self) -> MonitoredAppView {
        match self {
            MonitoredApp::Win32(a) => MonitoredAppView::Win32(a@),
            MonitoredApp::Uwp(a) => MonitoredAppView::Uwp(a@),
        }
    }
}

impl DeepView for MonitoredApp {
    type V = MonitoredAppView;

    open spec fn deep_view(&self) -> MonitoredAppView {
        self@
    }
}

impl Clone for MonitoredApp {
    fn clone(&self) -> (r: Self)
        ensures
            r@ == self@,
    {
        match self {
            MonitoredApp::Win32(a) => MonitoredApp::Win32(a.clone()),
            MonitoredApp::Uwp(a) => MonitoredApp::Uwp(a.clone()),
        }
    }
}

impl MonitoredApp {
    /// The unique ID, whatever the kind of application.
    pub fn id(&self) -> (id: u128)
        ensures
            id == self@.id(),
    {
        match self {
            MonitoredApp::Win32(app) => app.id,
            MonitoredApp::Uwp(app) => app.id,
        }
    }

    /// The display name, whatever the kind of application.
    pub fn display_name(&self) -> (name: &str)
        ensures
            name@ == self@.display_name(),
    {
        match self {
            MonitoredApp::Win32(app) => app.display_name.as_str(),
            MonitoredApp::Uwp(app) => app.display_name.as_str(),
        }
    }

    /// Whether monitoring is enabled.
    pub fn is_enabled(&self) -> (enabled: bool)
        ensures
            enabled == self@.enabled(),
    {
        match self {
            MonitoredApp::Win32(app) => app.enabled,
            MonitoredApp::Uwp(app) => app.enabled,
        }
    }

    /// Switch monitoring on or off.
    pub fn set_enabled(&mut self, enabled: bool)
        ensures
            final(self)@ == old(self)@.with_enabled(enabled),
    {
        match self {
            MonitoredApp::Win32(app) => app.enabled = enabled,
            MonitoredApp::Uwp(app) => app.enabled = enabled,
        }
    }

    /// The icon held in memory.
    pub fn icon_data(&self) -> (icon: Option<&Vec<u8>>)
        ensures
            match icon {
                Some(v) => self@.icon_data() == Some(v@),
                None => self@.icon_data() is None,
            },
    {
        match self {
            MonitoredApp::Win32(app) => app.icon_data.as_ref(),
            MonitoredApp::Uwp(app) => app.icon_data.as_ref(),
        }
    }

    /// The icon held in memory, to read or replace in place.
    pub fn icon_data_mut(&mut self) -> (icon: &mut Option<Vec<u8>>)
        ensures
            icon_view(*icon) == old(self)@.icon_data(),
            final(self)@ == old(self)@.with_icon(icon_view(*final(icon))),
    {
        match self {
            MonitoredApp::Win32(app) => &mut app.icon_data,
            MonitoredApp::Uwp(app) => &mut app.icon_data,
        }
    }
}

/// An icon is kept only when extraction gave some bytes.
pub open spec fn icon_if_present(icon: Seq<u8>) -> Option<Seq<u8>> {
    if icon.len() > 0 {
        Some(icon)
    } else {
        None
    }
}

/// The icon bytes when there are any.
fn keep_if_present(data: Vec<u8>) -> (r: Option<Vec<u8>>)
    ensures
        icon_view(r) == icon_if_present(data@),
{
    if data.len() > 0 {
        Some(data)
    } else {
        None
    }
}

/// Index of the first application with the identifier, or -1.
pub open spec fn first_with_id(apps: Seq<MonitoredAppView>, id: u128) -> int
    decreases apps.len(),
{
    if apps.len() == 0 {
        -1
    } else if apps[0].id() == id {
        0
    } else {
        let r = first_with_id(apps.drop_first(), id);
        if r < 0 {
            -1
        } else {
            r + 1
        }
    }
}

/// `first_with_id` is the first index holding the identifier.
pub proof fn lemma_first_with_id(apps: Seq<MonitoredAppView>, id: u128, k: int)
    requires
        0 <= k <= apps.len(),
        forall|j: int| 0 <= j < k ==> (#[trigger] apps[j]).id() != id,
        k == apps.len() || apps[k].id() == id,
    ensures
        first_with_id(apps, id) == (if k < apps.len() {
            k
        } else {
            -1
        }),
    decreases apps.len(),
{
    if apps.len() > 0 && apps[0].id() != id {
        let t = apps.drop_first();
        assert forall|j: int| 0 <= j < k - 1 implies (#[trigger] t[j]).id() != id by {
            assert(t[j] == apps[j + 1]);
        }
        if k < apps.len() {
            assert(t[k - 1] == apps[k]);
        }
        lemma_first_with_id(t, id, k - 1);
    }
}

/// The message of a configuration error.
pub open spec fn config_error(e: EasyHdrError, text: Seq<char>) -> bool {
    e is ConfigError && e->ConfigError_0@ == text
}

impl Win32App {
    /// Create an application entry for an executable. `exists` and `is_file`
    /// say what the file system reports for the path, `descriptions` are the
    /// file descriptions read from its version information and `icon` what the
    /// shell gave for its icon. The process name is the file stem in lowercase;
    /// the identifier is fresh and random; the entry is enabled; an icon is kept
    /// when one was extracted. (The caller caches the icon.)
    pub fn from_exe_path(
        exe_path: String,
        exists: bool,
        is_file: bool,
        descriptions: &Vec<Vec<u16>>,
        icon: IconSource,
    ) -> (r: Result<Win32App, EasyHdrError>)
        requires
            valid_icon_source(icon),
        ensures
            !exists ==> r is Err && config_error(
                r->Err_0,
                "Executable path does not exist: "@ + exe_path@,
            ),
            exists && !is_file ==> r is Err && config_error(r->Err_0, "Path is not a file: "@ + exe_path@),
            exists && is_file && file_stem(exe_path@) is None ==> r is Err && config_error(
                r->Err_0,
                "Failed to extract filename from path: "@ + exe_path@,
            ),
            exists && is_file && file_stem(exe_path@) is Some ==> r is Ok && {
                let a = r->Ok_0@;
                &&& a.display_name == display_name_of(
                    exe_path@,
                    descriptions@.map_values(|v: Vec<u16>| v@),
                )
                &&& a.exe_path == exe_path@
                &&& a.process_name == lowercase_text(file_stem(exe_path@)->Some_0)
                &&& a.enabled
                &&& a.icon_data == icon_if_present(extracted_icon(icon))
            },
    {
        if !exists {
            return Err(
                EasyHdrError::ConfigError(
                    concat("Executable path does not exist: ", exe_path.as_str()),
                ),
            );
        }
        if !is_file {
            return Err(EasyHdrError::ConfigError(concat("Path is not a file: ", exe_path.as_str())));
        }
        let display_name = match extract_display_name_from_exe(exe_path.as_str(), descriptions) {
            Ok(name) => name,
            Err(e) => return Err(e),
        };
        let process_name = match file_stem_chars(exe_path.as_str()) {
            Some(stem) => {
                let stem_text = string_from_chars(stem.as_slice());
                to_lowercase(stem_text.as_str())
            },
            None => {
                return Err(
                    EasyHdrError::ConfigError(
                        concat("Failed to extract filename from path: ", exe_path.as_str()),
                    ),
                );
            },
        };
        let id = new_app_id();
        let icon_data = match extract_icon_from_exe(icon) {
            Ok(data) => keep_if_present(data),
            Err(_) => None,
        };
        Ok(Win32App { id, display_name, exe_path, process_name, enabled: true, icon_data })
    }

    /// Load the icon if none is held, from what the shell gave for the
    /// executable (read only when no icon is held). Returns the icon held.
    pub fn ensure_icon_loaded(&mut self, icon: IconSource) -> (r: Option<&Vec<u8>>)
        requires
            valid_icon_source(icon),
        ensures
            old(self).icon_data is Some ==> final(self)@ == old(self)@,
            old(self).icon_data is None ==> final(self)@ == (Win32AppView {
                icon_data: icon_if_present(extracted_icon(icon)),
                ..old(self)@
            }),
            match r {
                Some(v) => final(self)@.icon_data == Some(v@),
                None => final(self)@.icon_data is None,
            },
    {
        if self.icon_data.is_none() {
            match extract_icon_from_exe(icon) {
                Ok(data) => {
                    self.icon_data = keep_if_present(data);
                },
                Err(_) => {},
            }
        }
        self.icon_data.as_ref()
    }

    /// Release the icon held in memory.
    pub fn release_icon(&mut self)
        ensures
            final(self)@ == (Win32AppView { icon_data: None, ..old(self)@ }),
    {
        self.icon_data = None;
    }
}

impl UwpApp {
    /// Create an entry for a UWP application. `logo_icon` is the result of
    /// extracting the icon from the package logo when a logo path is known.
    /// The identifier is fresh and random; the entry is enabled; an icon is
    /// kept when the extraction gave one.
    pub fn from_package_info(
        display_name: String,
        package_family_name: String,
        app_id: String,
        logo_icon: Option<Result<Vec<u8>, EasyHdrError>>,
    ) -> (app: UwpApp)
        ensures
            app@.display_name == display_name@,
            app@.package_family_name == package_family_name@,
            app@.app_id == app_id@,
            app@.enabled,
            app@.icon_data == (match logo_icon {
                Some(Ok(data)) => icon_if_present(data@),
                _ => None,
            }),
    {
        let icon_data = match logo_icon {
            Some(Ok(data)) => keep_if_present(data),
            _ => None,
        };
        UwpApp {
            id: new_app_id(),
            display_name,
            package_family_name,
            app_id,
            enabled: true,
            icon_data,
        }
    }
}

impl MonitoredApp {
    /// Load the icon if none is held (Win32 applications, from what the shell
    /// gave); a UWP entry keeps what it holds. Returns the icon held.
    pub fn ensure_icon_loaded(&mut self, icon: IconSource) -> (r: Option<&Vec<u8>>)
        requires
            valid_icon_source(icon),
        ensures
            old(self)@.icon_data() is Some || old(self)@ is Uwp ==> final(self)@ == old(self)@,
            old(self)@.icon_data() is None && old(self)@ is Win32 ==> final(self)@ == old(
                self,
            )@.with_icon(icon_if_present(extracted_icon(icon))),
            match r {
                Some(v) => final(self)@.icon_data() == Some(v@),
                None => final(self)@.icon_data() is None,
            },
    {
        match self {
            MonitoredApp::Win32(app) => app.ensure_icon_loaded(icon),
            MonitoredApp::Uwp(app) => app.icon_data.as_ref(),
        }
    }

    /// Release the icon held in memory.
    pub fn release_icon(&mut self)
        ensures
            final(self)@ == old(self)@.with_icon(None),
    {
        match self {
            MonitoredApp::Win32(app) => app.release_icon(),
            MonitoredApp::Uwp(app) => {
                app.icon_data = None;
            },
        }
    }
}

/// User preferences and settings
#[derive(Debug)]
pub struct UserPreferences {
    /// Whether to auto-start on Windows login
    pub auto_start: bool,
    /// Process monitoring interval in milliseconds (500-2000)
    pub monitoring_interval_ms: u64,
    /// Whether to show tray notifications on HDR changes
    pub show_tray_notifications: bool,
    /// Whether to show notifications when application updates are available
    pub show_update_notifications: bool,
    /// Whether the minimize button minimizes to the tray (true) or to the taskbar (false)
    pub minimize_to_tray_on_minimize: bool,
    /// Whether the close button minimizes to the tray (true) or closes the application (false)
    pub minimize_to_tray_on_close: bool,
    /// Whether to start minimized to the tray
    pub start_minimized_to_tray: bool,
    /// Unix time in seconds of the last update check, 0 if never checked
    pub last_update_check_time: u64,
    /// Latest version seen at the last update check, empty if none
    pub cached_latest_version: String,
}

/// The values held by user preferences.
pub struct UserPreferencesView {
    pub auto_start: bool,
    pub monitoring_interval_ms: u64,
    pub show_tray_notifications: bool,
    pub show_update_notifications: bool,
    pub minimize_to_tray_on_minimize: bool,
    pub minimize_to_tray_on_close: bool,
    pub start_minimized_to_tray: bool,
    pub last_update_check_time: u64,
    pub cached_latest_version: Seq<char>,
}

impl View for UserPreferences {
    type V = UserPreferencesView;

    open spec fn view(&self) -> UserPreferencesView {
        UserPreferencesView {
            auto_start: self.auto_start,
            monitoring_interval_ms: self.monitoring_interval_ms,
            show_tray_notifications: self.show_tray_notifications,
            show_update_notifications: self.show_update_notifications,
            minimize_to_tray_on_minimize: self.minimize_to_tray_on_minimize,
            minimize_to_tray_on_close: self.minimize_to_tray_on_close,
            start_minimized_to_tray: self.start_minimized_to_tray,
            last_update_check_time: self.last_update_check_time,
            cached_latest_version: self.cached_latest_version@,
        }
    }
}

/// The default preferences: no auto-start, a 1000 ms monitoring interval, tray
/// and update notifications shown, minimize to tray on minimize but not on
/// close, start with the window shown, never checked for updates.
pub open spec fn default_preferences() -> UserPreferencesView {
    UserPreferencesView {
        auto_start: false,
        monitoring_interval_ms: 1000,
        show_tray_notifications: true,
        show_update_notifications: true,
        minimize_to_tray_on_minimize: true,
        minimize_to_tray_on_close: false,
        start_minimized_to_tray: false,
        last_update_check_time: 0,
        cached_latest_version: Seq::empty(),
    }
}

impl Default for UserPreferences {
    fn default() -> (p: Self)
        ensures
            p@ == default_preferences(),
    {
        UserPreferences {
            auto_start: false,
            monitoring_interval_ms: 1000,
            show_tray_notifications: true,
            show_update_notifications: true,
            minimize_to_tray_on_minimize: true,
            minimize_to_tray_on_close: false,
            start_minimized_to_tray: false,
            last_update_check_time: 0,
            cached_latest_version: String::new(),
        }
    }
}

impl Clone for UserPreferences {
    fn clone(&self) -> (r: Self)
        ensures
            r@ == self@,
    {
        UserPreferences {
            auto_start: self.auto_start,
            monitoring_interval_ms: self.monitoring_interval_ms,
            show_tray_notifications: self.show_tray_notifications,
            show_update_notifications: self.show_update_notifications,
            minimize_to_tray_on_minimize: self.minimize_to_tray_on_minimize,
            minimize_to_tray_on_close: self.minimize_to_tray_on_close,
            start_minimized_to_tray: self.start_minimized_to_tray,
            last_update_check_time: self.last_update_check_time,
            cached_latest_version: self.cached_latest_version.clone(),
        }
    }
}

/// Value of `show_update_notifications` for stored preferences that lack it.
pub fn default_show_update_notifications() -> (b: bool)
    ensures
        b,
{
    true
}

/// Window position and size
#[derive(Debug, Clone, Copy, PartialEq, Eq, Hash, Structural)]
pub struct WindowState {
    /// X position
    pub x: i32,
    /// Y position
    pub y: i32,
    /// Window width
    pub width: u32,
    /// Window height
    pub height: u32,
}

impl Default for WindowState {
    /// A 660x660 window at (100, 100).
    fn default() -> (w: Self)
        ensures
            w == (WindowState { x: 100, y: 100, width: 660, height: 660 }),
    {
        WindowState { x: 100, y: 100, width: 660, height: 660 }
    }
}

/// Top-level application configuration
#[derive(Debug)]
pub struct AppConfig {
    /// List of monitored applications
    pub monitored_apps: Vec<MonitoredApp>,
    /// User preferences
    pub preferences: UserPreferences,
    /// Window state for persistence
    pub window_state: WindowState,
}

impl Default for AppConfig {
    /// No monitored applications, default preferences and window state.
    fn default() -> (c: Self)
        ensures
            c.monitored_apps@.len() == 0,
            c.preferences@ == default_preferences(),
            c.window_state == (WindowState { x: 100, y: 100, width: 660, height: 660 }),
    {
        AppConfig {
            monitored_apps: Vec::new(),
            preferences: UserPreferences::default(),
            window_state: WindowState::default(),
        }
    }
}


/// The view of an optional entry.
pub open spec fn entry_view(o: Option<MonitoredApp>) -> Option<MonitoredAppView> {
    match o {
        Some(a) => Some(a@),
        None => None,
    }
}

/// The entries that could be decoded, in order.
pub open spec fn decoded_entries(entries: Seq<Option<MonitoredAppView>>) -> Seq<MonitoredAppView>
    decreases entries.len(),
{
    if entries.len() == 0 {
        Seq::empty()
    } else {
        let before = decoded_entries(entries.drop_last());
        match entries.last() {
            Some(a) => before.push(a),
            None => before,
        }
    }
}

impl AppConfig {
    /// Assemble a configuration from what was read: `monitored_apps[i]` is entry
    /// `i` of the stored list, `None` where it could not be decoded (such
    /// entries are skipped, the others kept in order); a missing part takes its
    /// default.
    pub fn from_entries(
        monitored_apps: Option<Vec<Option<MonitoredApp>>>,
        preferences: Option<UserPreferences>,
        window_state: Option<WindowState>,
    ) -> (c: AppConfig)
        ensures
            c.monitored_apps.deep_view() == (match monitored_apps {
                Some(entries) => decoded_entries(entries@.map_values(|o: Option<MonitoredApp>| entry_view(o))),
                None => Seq::empty(),
            }),
            c.preferences@ == (match preferences {
                Some(p) => p@,
                None => default_preferences(),
            }),
            c.window_state == (match window_state {
                Some(w) => w,
                None => WindowState { x: 100, y: 100, width: 660, height: 660 },
            }),
    {
        let mut valid_apps: Vec<MonitoredApp> = Vec::new();
        match monitored_apps {
            Some(entries) => {
                let ghost all = entries@.map_values(|o: Option<MonitoredApp>| entry_view(o));
                let mut rest = entries;
                let len0 = rest.len();
                let ghost n = all.len();
                let mut i: usize = 0;
                while rest.len() > 0
                    invariant
                        n == all.len(),
                        n == len0,
                        i + rest@.len() == n,
                        forall|j: int| 0 <= j < rest@.len() ==> entry_view(#[trigger] rest@[j]) == all[i + j],
                        valid_apps.deep_view() == decoded_entries(all.take(i as int)),
                    decreases rest@.len(),
                {
                    let ghost before = valid_apps.deep_view();
                    let e = rest.remove(0);
                    proof {
                        assert(all.take(i + 1).drop_last() =~= all.take(i as int));
                        assert(entry_view(e) == all[i as int]);
                    }
                    match e {
                        Some(app) => {
                            let ghost v = app@;
                            valid_apps.push(app);
                            assert(valid_apps.deep_view() =~= before.push(v));
                        },
                        None => {},
                    }
                    i = i + 1;
                }
                assert(all.take(i as int) =~= all);
            },
            None => {
                assert(valid_apps.deep_view() =~= Seq::<MonitoredAppView>::empty());
            },
        }
        let preferences = match preferences {
            Some(p) => p,
            None => UserPreferences::default(),
        };
        let window_state = match window_state {
            Some(w) => w,
            None => WindowState::default(),
        };
        AppConfig { monitored_apps: valid_apps, preferences, window_state }
    }
}

} // verus!

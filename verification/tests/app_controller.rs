use easyhdr::config::{AppConfig, MonitoredApp, UserPreferences, UwpApp, Win32App};
use easyhdr::controller::AppController;
use easyhdr::error::EasyHdrError;
use easyhdr::hdr::{DisplayProbe, HdrController, WindowsVersion};
use easyhdr::hdr::windows_api::LUID;
use easyhdr::monitor::{AppIdentifier, HdrStateEvent, ProcessEvent};

const SECOND: u64 = 1_000_000_000;

fn win32_app(id: u128, display_name: &str, process_name: &str, enabled: bool) -> MonitoredApp {
    MonitoredApp::Win32(Win32App {
        id,
        display_name: display_name.to_string(),
        exe_path: format!("C:\\test\\{process_name}.exe"),
        process_name: process_name.to_string(),
        enabled,
        icon_data: None,
    })
}

fn create_test_uwp_app(package_family_name: &str, display_name: &str, app_id: &str) -> MonitoredApp {
    MonitoredApp::Uwp(UwpApp {
        id: 77,
        display_name: display_name.to_string(),
        package_family_name: package_family_name.to_string(),
        app_id: app_id.to_string(),
        enabled: true,
        icon_data: None,
    })
}

/// A controller on a system without displays, as the HDR controller finds it there.
fn controller_for(config: AppConfig) -> AppController {
    let hdr = HdrController::new(Ok(WindowsVersion::Windows11), Ok(vec![]));
    AppController::new(config, hdr, &vec![]).unwrap()
}

fn started(name: &str) -> ProcessEvent {
    ProcessEvent::Started(AppIdentifier::Win32(name.to_string()))
}

fn stopped(name: &str) -> ProcessEvent {
    ProcessEvent::Stopped(AppIdentifier::Win32(name.to_string()))
}

fn watched_process_names(controller: &AppController) -> Vec<String> {
    controller
        .watch_state
        .apps
        .iter()
        .filter_map(|app| match app {
            MonitoredApp::Win32(a) => Some(a.process_name.clone()),
            MonitoredApp::Uwp(_) => None,
        })
        .collect()
}

#[test]
fn test_app_controller_creation() {
    let config = AppConfig::default();
    let hdr = HdrController::new(Ok(WindowsVersion::Windows11), Ok(vec![]));
    let controller = AppController::new(config, hdr, &vec![]);
    assert!(controller.is_ok());
}

#[test]
fn creation_fails_when_the_hdr_controller_does() {
    let hdr = HdrController::new(Err(EasyHdrError::WindowsApiError("denied".to_string())), Ok(vec![]));
    match AppController::new(AppConfig::default(), hdr, &vec![]) {
        Err(EasyHdrError::HdrControlFailed(m)) => assert_eq!(m, "Windows API error: denied"),
        Err(other) => panic!("unexpected {:?}", other),
        Ok(_) => panic!("creation should fail"),
    }
}

#[test]
fn test_handle_process_started_increments_count() {
    let mut config = AppConfig::default();
    config.monitored_apps.push(win32_app(1, "Test App", "app", true));
    let mut controller = controller_for(config);

    assert_eq!(controller.active_process_count, 0);

    let action = controller.handle_process_event(started("app"), SECOND);

    assert_eq!(controller.active_process_count, 1);
    assert_eq!(action.toggle_hdr, Some(true));
    let state = action.state_update.unwrap();
    assert!(state.hdr_enabled);
    assert_eq!(state.last_event, "Active processes: 1");
    assert_eq!(state.active_apps, vec!["Test App".to_string()]);
    // No HDR display was found at start-up: the first update carries the warning.
    assert!(state.show_no_hdr_warning);
}

#[test]
fn test_handle_process_started_case_insensitive() {
    let mut config = AppConfig::default();
    config.monitored_apps.push(win32_app(1, "Test App", "app", true));
    let mut controller = controller_for(config);

    controller.handle_process_event(started("APP"), SECOND);

    assert_eq!(controller.active_process_count, 1);
}

#[test]
fn test_handle_process_started_disabled_app_ignored() {
    let mut config = AppConfig::default();
    config.monitored_apps.push(win32_app(1, "Test App", "app", false));
    let mut controller = controller_for(config);

    let action = controller.handle_process_event(started("app"), SECOND);

    assert_eq!(controller.active_process_count, 0);
    assert!(action.toggle_hdr.is_none());
    assert!(action.state_update.is_none());
}

#[test]
fn test_handle_process_stopped_decrements_count() {
    let mut config = AppConfig::default();
    config.monitored_apps.push(win32_app(1, "Test App", "app", true));
    let mut controller = controller_for(config);

    controller.handle_process_event(started("app"), SECOND);
    assert_eq!(controller.active_process_count, 1);

    // 600 ms later, past the debounce time.
    let action = controller.handle_process_event(stopped("app"), SECOND + 600_000_000);

    assert_eq!(controller.active_process_count, 0);
    assert_eq!(action.toggle_hdr, Some(false));
    let state = action.state_update.unwrap();
    assert!(!state.hdr_enabled);
}

#[test]
fn test_handle_process_stopped_when_count_is_zero() {
    let mut config = AppConfig::default();
    config.monitored_apps.push(win32_app(1, "Test App", "app", true));
    let mut controller = controller_for(config);

    assert_eq!(controller.active_process_count, 0);

    controller.handle_process_event(stopped("app"), 1_000);
    assert_eq!(controller.active_process_count, 0, "Count should remain 0 and not wrap to usize::MAX");

    controller.handle_process_event(stopped("app"), 2_000);
    assert_eq!(controller.active_process_count, 0, "Multiple spurious stops should not corrupt state");

    controller.handle_process_event(started("app"), 3_000);
    assert_eq!(controller.active_process_count, 1, "Normal increment should work after spurious stops");
}

#[test]
fn test_handle_multiple_processes() {
    let mut config = AppConfig::default();
    config.monitored_apps.push(win32_app(1, "App 1", "app1", true));
    config.monitored_apps.push(win32_app(2, "App 2", "app2", true));
    let mut controller = controller_for(config);

    controller.handle_process_event(started("app1"), SECOND);
    assert_eq!(controller.active_process_count, 1);
    assert!(controller.current_hdr_state);

    controller.handle_process_event(started("app2"), SECOND + 1_000);
    assert_eq!(controller.active_process_count, 2);
    assert!(controller.current_hdr_state);

    controller.handle_process_event(stopped("app1"), SECOND + 601_000_000);
    assert_eq!(controller.active_process_count, 1);
    assert!(controller.current_hdr_state);

    controller.handle_process_event(stopped("app2"), SECOND + 1_202_000_000);
    assert_eq!(controller.active_process_count, 0);
    assert!(!controller.current_hdr_state);
}

#[test]
fn test_rapid_process_restart_debouncing() {
    let mut config = AppConfig::default();
    config.monitored_apps.push(win32_app(1, "Game", "game", true));
    let mut controller = controller_for(config);

    controller.handle_process_event(started("game"), SECOND);
    assert!(controller.current_hdr_state);
    // The game stops 100 ms after HDR was switched on: HDR stays on, no update.
    let action = controller.handle_process_event(stopped("game"), SECOND + 100_000_000);
    assert!(controller.current_hdr_state);
    assert!(action.toggle_hdr.is_none());
    assert!(action.state_update.is_none());
    assert_eq!(controller.active_process_count, 0);
    // It restarts: HDR is on already, nothing is switched.
    let action = controller.handle_process_event(started("game"), SECOND + 200_000_000);
    assert!(action.toggle_hdr.is_none());
    assert_eq!(controller.active_process_count, 1);
}

#[test]
fn test_add_application() {
    let mut controller = controller_for(AppConfig::default());

    let app = win32_app(5, "New App", "newapp", true);
    let state = controller.add_application(app.clone());

    assert_eq!(controller.config.monitored_apps.len(), 1);
    assert_eq!(controller.config.monitored_apps[0].display_name(), "New App");
    assert_eq!(controller.watch_state.apps.len(), 1);
    assert!(watched_process_names(&controller).contains(&"newapp".to_string()));
    assert_eq!(state.active_apps, vec!["New App".to_string()]);
}

#[test]
fn test_remove_application() {
    let mut config = AppConfig::default();
    let app_id: u128 = 0x1234;
    config.monitored_apps.push(win32_app(app_id, "Test App", "app", true));
    let mut controller = controller_for(config);

    controller.remove_application(app_id);

    assert_eq!(controller.config.monitored_apps.len(), 0);
    assert_eq!(controller.watch_state.apps.len(), 0);
}

#[test]
fn test_toggle_app_enabled() {
    let mut config = AppConfig::default();
    let app_id: u128 = 0x42;
    config.monitored_apps.push(win32_app(app_id, "Test App", "app", true));
    let mut controller = controller_for(config);

    controller.send_initial_state();
    assert_eq!(controller.watch_state.apps.len(), 1);
    assert!(watched_process_names(&controller).contains(&"app".to_string()));

    controller.toggle_app_enabled(app_id, false);
    assert!(!controller.config.monitored_apps[0].is_enabled());
    assert_eq!(controller.watch_state.apps.len(), 0);

    controller.toggle_app_enabled(app_id, true);
    assert!(controller.config.monitored_apps[0].is_enabled());
    assert_eq!(controller.watch_state.apps.len(), 1);
    assert!(watched_process_names(&controller).contains(&"app".to_string()));
}

#[test]
fn test_update_preferences() {
    let mut controller = controller_for(AppConfig::default());

    let new_prefs = UserPreferences {
        auto_start: true,
        monitoring_interval_ms: 2000,
        show_tray_notifications: false,
        show_update_notifications: true,
        minimize_to_tray_on_minimize: true,
        minimize_to_tray_on_close: false,
        start_minimized_to_tray: false,
        last_update_check_time: 0,
        cached_latest_version: String::new(),
    };

    controller.update_preferences(new_prefs.clone());

    assert!(controller.config.preferences.auto_start);
    assert_eq!(controller.config.preferences.monitoring_interval_ms, 2000);
    assert!(!controller.config.preferences.show_tray_notifications);
}

#[test]
fn test_update_process_monitor_watch_list() {
    let mut config = AppConfig::default();
    config.monitored_apps.push(win32_app(1, "App 1", "app1", true));
    config.monitored_apps.push(win32_app(2, "App 2", "app2", false));
    config.monitored_apps.push(win32_app(3, "App 3", "app3", true));
    let mut controller = controller_for(config);

    controller.send_initial_state();

    let names = watched_process_names(&controller);
    assert_eq!(controller.watch_state.apps.len(), 2);
    assert!(names.contains(&"app1".to_string()));
    assert!(!names.contains(&"app2".to_string()));
    assert!(names.contains(&"app3".to_string()));
}

#[test]
fn test_handle_uwp_app_started() {
    let mut config = AppConfig::default();
    config.monitored_apps.push(create_test_uwp_app(
        "Microsoft.WindowsCalculator_8wekyb3d8bbwe",
        "Calculator",
        "App",
    ));
    let mut controller = controller_for(config);

    assert_eq!(controller.active_process_count, 0);

    let action = controller.handle_process_event(
        ProcessEvent::Started(AppIdentifier::Uwp("Microsoft.WindowsCalculator_8wekyb3d8bbwe".to_string())),
        SECOND,
    );

    assert_eq!(controller.active_process_count, 1);
    assert!(controller.current_hdr_state);
    let state = action.state_update.unwrap();
    assert!(state.hdr_enabled);
}

#[test]
fn test_disabled_uwp_app_ignored() {
    let mut config = AppConfig::default();
    let mut uwp_app =
        create_test_uwp_app("Microsoft.WindowsCalculator_8wekyb3d8bbwe", "Calculator", "App");
    if let MonitoredApp::Uwp(ref mut app) = uwp_app {
        app.enabled = false;
    }
    config.monitored_apps.push(uwp_app);
    let mut controller = controller_for(config);

    controller.handle_process_event(
        ProcessEvent::Started(AppIdentifier::Uwp("Microsoft.WindowsCalculator_8wekyb3d8bbwe".to_string())),
        SECOND,
    );

    assert_eq!(controller.active_process_count, 0);
    assert!(!controller.current_hdr_state);
}

#[test]
fn external_hdr_changes_are_recorded_without_switching() {
    let mut controller = controller_for(AppConfig::default());
    let action = controller.handle_hdr_state_event(HdrStateEvent::Enabled, Ok(vec![]), SECOND);
    assert!(controller.current_hdr_state);
    assert!(action.toggle_hdr.is_none());
    assert!(action.state_update.unwrap().hdr_enabled);
    let action = controller.handle_hdr_state_event(HdrStateEvent::Disabled, Ok(vec![]), SECOND);
    assert!(!controller.current_hdr_state);
    assert!(action.toggle_hdr.is_none());
}

#[test]
fn hdr_displays_appearing_switch_hdr_on_for_running_apps() {
    let mut config = AppConfig::default();
    config.monitored_apps.push(win32_app(1, "Game", "game", true));
    let mut controller = controller_for(config);
    controller.handle_process_event(started("game"), SECOND);
    // HDR went off outside the application while the game runs.
    controller.handle_hdr_state_event(HdrStateEvent::Disabled, Ok(vec![]), 2 * SECOND);
    let probes = vec![DisplayProbe { adapter_id: LUID { LowPart: 1, HighPart: 0 }, target_id: 4, hdr_support: Ok(true) }];
    let action = controller.handle_hdr_state_event(
        HdrStateEvent::DisplayConfigurationChanged { hdr_capable_count: 1 },
        Ok(probes),
        3 * SECOND,
    );
    assert_eq!(action.toggle_hdr, Some(true));
    assert!(controller.current_hdr_state);
    assert_eq!(controller.hdr_controller.get_display_cache().len(), 1);
    let state = action.state_update.unwrap();
    assert!(state.show_hdr_available_notification);
    assert!(controller.hdr_displays_available);
}

#[test]
fn mock_controller_schedules_no_warning() {
    let controller = AppController::new_with_mock_hdr(AppConfig::default()).unwrap();
    assert!(!controller.pending_no_hdr_warning);
    assert!(!controller.current_hdr_state);
}

#[test]
fn normalization_lowercases_win32_names_only() {
    match AppController::normalize_app_identifier(&AppIdentifier::Win32("GAME".to_string())) {
        AppIdentifier::Win32(n) => assert_eq!(n, "game"),
        other => panic!("unexpected {:?}", other),
    }
    match AppController::normalize_app_identifier(&AppIdentifier::Uwp("Pkg_ABC".to_string())) {
        AppIdentifier::Uwp(n) => assert_eq!(n, "Pkg_ABC"),
        other => panic!("unexpected {:?}", other),
    }
}

#[test]
fn hdr_is_switched_only_by_the_first_start_and_the_last_stop() {
    let mut config = AppConfig::default();
    config.monitored_apps.push(win32_app(1, "App 1", "app1", true));
    config.monitored_apps.push(win32_app(2, "App 2", "app2", true));
    let mut controller = controller_for(config);

    assert_eq!(controller.handle_process_event(started("app1"), SECOND).toggle_hdr, Some(true));
    assert_eq!(controller.handle_process_event(started("app2"), 2 * SECOND).toggle_hdr, None);
    assert_eq!(controller.handle_process_event(stopped("app2"), 3 * SECOND).toggle_hdr, None);
    assert!(controller.current_hdr_state);
    assert_eq!(controller.handle_process_event(stopped("app1"), 4 * SECOND).toggle_hdr, Some(false));
    assert!(!controller.current_hdr_state);
    assert_eq!(controller.active_process_count, 0);
    assert_eq!(controller.last_toggle_time_nanos, 4 * SECOND);
}

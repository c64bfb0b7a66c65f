use easyhdr::config::{MonitoredApp, UwpApp, Win32App};
use easyhdr::monitor::process_monitor::{
    PidCacheEntry, ProcessEntry, ProcessMonitor, extract_filename_without_extension,
    extract_process_name, extract_win32_app_identifier,
};
use easyhdr::monitor::{AppIdentifier, ProcessEvent};

fn create_test_win32_app(process_name: &str, display_name: &str) -> MonitoredApp {
    MonitoredApp::Win32(Win32App {
        id: 1,
        display_name: display_name.to_string(),
        exe_path: format!("C:\\test\\{process_name}.exe"),
        process_name: process_name.to_string(),
        enabled: true,
        icon_data: None,
    })
}

fn win32(name: &str) -> AppIdentifier {
    AppIdentifier::Win32(name.to_string())
}

fn utf16_name(name: &str) -> Vec<u16> {
    let mut units: Vec<u16> = name.encode_utf16().collect();
    units.resize(260, 0);
    units
}

#[test]
fn test_extract_filename_without_extension() {
    assert_eq!(extract_filename_without_extension("C:\\Windows\\System32\\notepad.exe"), "notepad");
    assert_eq!(extract_filename_without_extension("game.exe"), "game");
    assert_eq!(extract_filename_without_extension("MyApp.EXE"), "myapp");
    assert_eq!(extract_filename_without_extension("C:\\Games\\Cyberpunk2077.exe"), "cyberpunk2077");
    assert_eq!(extract_filename_without_extension("process"), "process");
    assert_eq!(extract_filename_without_extension("/usr/bin/app.exe"), "app");
    assert_eq!(extract_filename_without_extension("my.app.exe"), "my.app");
}

#[test]
fn test_detect_changes_started() {
    let mut monitor = ProcessMonitor::new(1000);
    monitor.update_watch_list(vec![
        create_test_win32_app("notepad", "Notepad"),
        create_test_win32_app("game", "Game"),
    ]);
    monitor.running_processes = Vec::new();

    let current = vec![win32("notepad"), win32("explorer")];
    let events = monitor.detect_changes(current);

    assert_eq!(events.len(), 1);
    match &events[0] {
        ProcessEvent::Started(AppIdentifier::Win32(name)) => assert_eq!(name, "notepad"),
        ProcessEvent::Started(AppIdentifier::Uwp(_)) => panic!("Expected Win32 Started event"),
        ProcessEvent::Stopped(_) => panic!("Expected Started event, got Stopped"),
    }
}

#[test]
fn test_detect_changes_stopped() {
    let mut monitor = ProcessMonitor::new(1000);
    monitor.update_watch_list(vec![
        create_test_win32_app("notepad", "Notepad"),
        create_test_win32_app("game", "Game"),
    ]);
    monitor.running_processes = vec![win32("notepad"), win32("explorer")];

    let events = monitor.detect_changes(vec![win32("explorer")]);

    assert_eq!(events.len(), 1);
    match &events[0] {
        ProcessEvent::Stopped(AppIdentifier::Win32(name)) => assert_eq!(name, "notepad"),
        ProcessEvent::Stopped(AppIdentifier::Uwp(_)) => panic!("Expected Win32 Stopped event"),
        ProcessEvent::Started(_) => panic!("Expected Stopped event, got Started"),
    }
}

#[test]
fn test_detect_changes_case_insensitive() {
    let mut monitor = ProcessMonitor::new(1000);
    monitor.update_watch_list(vec![create_test_win32_app("notepad", "Notepad")]);
    monitor.running_processes = Vec::new();

    let events = monitor.detect_changes(vec![win32("notepad")]);

    match &events[0] {
        ProcessEvent::Started(AppIdentifier::Win32(name)) => assert_eq!(name, "notepad"),
        ProcessEvent::Started(AppIdentifier::Uwp(_)) => panic!("Expected Win32 Started event"),
        ProcessEvent::Stopped(_) => panic!("Expected Started event, got Stopped"),
    }
}

#[test]
fn monitored_check_ignores_ascii_case() {
    let apps = vec![create_test_win32_app("NotePad", "Notepad")];
    assert!(ProcessMonitor::is_monitored(&win32("notepad"), &apps));
    assert!(!ProcessMonitor::is_monitored(&AppIdentifier::Uwp("notepad".to_string()), &apps));
}

#[test]
fn test_detect_changes_multiple_processes() {
    let mut monitor = ProcessMonitor::new(1000);
    monitor.update_watch_list(vec![
        create_test_win32_app("notepad", "Notepad"),
        create_test_win32_app("game", "Game"),
        create_test_win32_app("app", "App"),
    ]);
    monitor.running_processes = Vec::new();

    let events = monitor.detect_changes(vec![win32("notepad"), win32("game"), win32("explorer")]);

    let mut received = Vec::new();
    for event in &events {
        match event {
            ProcessEvent::Started(AppIdentifier::Win32(name)) => received.push(name.clone()),
            ProcessEvent::Started(AppIdentifier::Uwp(_)) => panic!("Expected Win32 Started event"),
            ProcessEvent::Stopped(_) => panic!("Expected Started event, got Stopped"),
        }
    }
    assert!(received.contains(&"notepad".to_string()));
    assert!(received.contains(&"game".to_string()));
    assert_eq!(received.len(), 2);
}

#[test]
fn test_process_name_extraction_comprehensive() {
    assert_eq!(extract_filename_without_extension("C:\\Games\\game.exe"), "game");
    assert_eq!(extract_filename_without_extension("D:\\Program Files\\MyApp\\app.exe"), "app");
    assert_eq!(extract_filename_without_extension("C:\\Program Files (x86)\\Game Name\\game.exe"), "game");
    assert_eq!(extract_filename_without_extension("\\\\server\\share\\app.exe"), "app");
    assert_eq!(extract_filename_without_extension("..\\..\\game.exe"), "game");
    assert_eq!(extract_filename_without_extension("application.exe"), "application");
}

#[test]
fn test_case_insensitive_matching_comprehensive() {
    assert_eq!(extract_filename_without_extension("Game.exe"), "game");
    assert_eq!(extract_filename_without_extension("GAME.EXE"), "game");
    assert_eq!(extract_filename_without_extension("GaMe.ExE"), "game");
    assert_eq!(extract_filename_without_extension("C:\\Games\\MyGame.EXE"), "mygame");
    assert_eq!(extract_filename_without_extension("CyberPunk2077.exe"), "cyberpunk2077");
}

#[test]
fn test_multiple_state_transitions() {
    let mut monitor = ProcessMonitor::new(1000);
    monitor.update_watch_list(vec![
        create_test_win32_app("app1", "App 1"),
        create_test_win32_app("app2", "App 2"),
        create_test_win32_app("app3", "App 3"),
    ]);
    monitor.running_processes = vec![win32("app1"), win32("app2")];

    let events = monitor.detect_changes(vec![win32("app2"), win32("app3")]);

    let mut started = Vec::new();
    let mut stopped = Vec::new();
    for event in events {
        match event {
            ProcessEvent::Started(AppIdentifier::Win32(name)) => started.push(name),
            ProcessEvent::Stopped(AppIdentifier::Win32(name)) => stopped.push(name),
            _ => panic!("Expected Win32 event"),
        }
    }
    assert_eq!(started.len(), 1);
    assert_eq!(stopped.len(), 1);
    assert!(started.contains(&"app3".to_string()));
    assert!(stopped.contains(&"app1".to_string()));
}

#[test]
fn test_no_events_when_no_state_change() {
    let mut monitor = ProcessMonitor::new(1000);
    monitor.update_watch_list(vec![create_test_win32_app("game", "Game")]);
    monitor.running_processes = vec![win32("game")];

    let events = monitor.detect_changes(vec![win32("game")]);

    assert!(events.is_empty());
}

#[test]
fn test_only_monitored_processes_trigger_events() {
    let mut monitor = ProcessMonitor::new(1000);
    monitor.update_watch_list(vec![create_test_win32_app("game", "Game")]);
    monitor.running_processes = Vec::new();

    let events =
        monitor.detect_changes(vec![win32("game"), win32("notepad"), win32("explorer"), win32("chrome")]);

    assert_eq!(events.len(), 1);
    match &events[0] {
        ProcessEvent::Started(AppIdentifier::Win32(name)) => assert_eq!(name, "game"),
        ProcessEvent::Started(AppIdentifier::Uwp(_)) => panic!("Expected Win32 Started event"),
        ProcessEvent::Stopped(_) => panic!("Expected Started event for game, got Stopped"),
    }
}

#[test]
fn test_empty_watch_list() {
    let mut monitor = ProcessMonitor::new(1000);
    monitor.update_watch_list(vec![]);
    monitor.running_processes = Vec::new();

    let events = monitor.detect_changes(vec![win32("game"), win32("notepad")]);

    assert!(events.is_empty());
}

#[test]
fn test_process_name_with_special_characters() {
    assert_eq!(extract_filename_without_extension("my-app.exe"), "my-app");
    assert_eq!(extract_filename_without_extension("app_v2.exe"), "app_v2");
    assert_eq!(extract_filename_without_extension("app (1).exe"), "app (1)");
    assert_eq!(extract_filename_without_extension("app[test].exe"), "app[test]");
}

#[test]
fn test_very_long_path() {
    let long_path = "C:\\Very\\Long\\Path\\With\\Many\\Directories\\And\\Subdirectories\\That\\Goes\\On\\And\\On\\application.exe";
    assert_eq!(extract_filename_without_extension(long_path), "application");
}

#[test]
fn estimate_is_a_moving_average() {
    let mut monitor = ProcessMonitor::new(1000);
    assert_eq!(monitor.estimated_process_count, 200);
    monitor.detect_changes(vec![win32("a"), win32("b"), win32("c"), win32("d")]);
    assert_eq!(monitor.estimated_process_count, (200 * 3 + 4) / 4);
}

#[test]
fn process_names_come_from_nul_terminated_utf16() {
    assert_eq!(extract_process_name(&utf16_name("Game.EXE")), Some("Game.EXE".to_string()));
    assert_eq!(extract_process_name(&[0xD800, 0]), None);
    match extract_win32_app_identifier(&utf16_name("C:\\Games\\Game.EXE")) {
        Some(AppIdentifier::Win32(name)) => assert_eq!(name, "game"),
        other => panic!("unexpected {:?}", other),
    }
}

#[test]
fn poll_snapshot_reports_starts_and_stops() {
    let mut monitor = ProcessMonitor::new(1000);
    monitor.update_watch_list(vec![
        create_test_win32_app("game", "Game"),
        MonitoredApp::Uwp(UwpApp {
            id: 2,
            display_name: "Calculator".to_string(),
            package_family_name: "Microsoft.WindowsCalculator_8wekyb3d8bbwe".to_string(),
            app_id: "App".to_string(),
            enabled: true,
            icon_data: None,
        }),
    ]);
    let snapshot = vec![
        ProcessEntry { pid: 10, exe_file: utf16_name("Game.exe"), uwp_family: None },
        ProcessEntry { pid: 11, exe_file: utf16_name("explorer.exe"), uwp_family: None },
        ProcessEntry {
            pid: 12,
            exe_file: utf16_name("CalculatorApp.exe"),
            uwp_family: Some("Microsoft.WindowsCalculator_8wekyb3d8bbwe".to_string()),
        },
    ];
    let events = monitor.poll_snapshot(&snapshot, 1_000);
    assert_eq!(events.len(), 2);
    assert!(matches!(&events[0], ProcessEvent::Started(AppIdentifier::Win32(n)) if n == "game"));
    assert!(matches!(&events[1], ProcessEvent::Started(AppIdentifier::Uwp(_))));
    assert_eq!(monitor.get_poll_cycle_count(), 1);
    // Every process was identified and cached.
    assert_eq!(monitor.app_id_cache.len(), 3);

    // The game stops: the next snapshot lacks it.
    let events = monitor.poll_snapshot(&vec![], 2_000);
    assert_eq!(events.len(), 2);
    assert!(matches!(&events[0], ProcessEvent::Stopped(AppIdentifier::Win32(n)) if n == "game"));
    assert_eq!(monitor.get_poll_cycle_count(), 2);
}

#[test]
fn cached_identifiers_expire_after_five_seconds() {
    let mut monitor = ProcessMonitor::new(1000);
    monitor.update_watch_list(vec![create_test_win32_app("game", "Game")]);
    monitor.app_id_cache.push(PidCacheEntry { pid: 7, app_id: win32("game"), last_seen: 0 });
    // Within five seconds the cached identifier is used, whatever the entry says.
    let entry = vec![ProcessEntry { pid: 7, exe_file: utf16_name("other.exe"), uwp_family: None }];
    let events = monitor.poll_snapshot(&entry, 4_999_999_999);
    assert_eq!(events.len(), 1);
    assert_eq!(monitor.app_id_cache[0].last_seen, 4_999_999_999);
    // An entry last seen five seconds ago or more is dropped.
    let mut fresh = ProcessMonitor::new(1000);
    fresh.app_id_cache.push(PidCacheEntry { pid: 7, app_id: win32("game"), last_seen: 0 });
    fresh.poll_snapshot(&vec![], 5_000_000_000);
    assert!(fresh.app_id_cache.is_empty());
}

#[test]
fn watch_list_update_is_idempotent() {
    let mut monitor = ProcessMonitor::new(1000);
    let apps = vec![create_test_win32_app("game", "Game"), create_test_win32_app("GAME", "Game 2")];
    monitor.update_watch_list(apps.clone());
    let first = monitor.get_watch_state_ref().apps.len();
    monitor.update_watch_list(apps);
    let second = monitor.get_watch_state_ref().apps.len();
    assert_eq!(first, second);
    // Both entries lowercase to one identifier.
    assert_eq!(monitor.get_watch_state_ref().identifiers.len(), 1);
}

#[test]
fn a_process_id_is_cached_once() {
    let mut monitor = ProcessMonitor::new(1000);
    monitor.update_watch_list(vec![create_test_win32_app("game", "Game")]);
    let snapshot = vec![
        ProcessEntry { pid: 10, exe_file: utf16_name("Game.exe"), uwp_family: None },
        ProcessEntry { pid: 10, exe_file: utf16_name("Game.exe"), uwp_family: None },
    ];
    monitor.poll_snapshot(&snapshot, 1_000);
    monitor.poll_snapshot(&snapshot, 2_000);
    assert_eq!(monitor.app_id_cache.len(), 1);
    assert_eq!(monitor.app_id_cache[0].last_seen, 2_000);
}

#[test]
fn surrogate_pairs_decode_to_one_character() {
    // "G" followed by U+1F600 (a high and a low surrogate), then ".exe".
    let units = [0x47, 0xD83D, 0xDE00, 0x2E, 0x65, 0x78, 0x65, 0];
    assert_eq!(extract_process_name(&units), Some("G\u{1F600}.exe".to_string()));
    // A low surrogate without its high one, and a high one at the end, are invalid.
    assert_eq!(extract_process_name(&[0x47, 0xDE00, 0]), None);
    assert_eq!(extract_process_name(&[0x47, 0xD83D]), None);
}

#[test]
fn mixed_case_executable_names_give_lowercase_keys() {
    assert_eq!(extract_filename_without_extension("C:\\Games\\MyApp.EXE"), "myapp");
}

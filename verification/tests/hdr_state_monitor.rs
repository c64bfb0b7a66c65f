use easyhdr::hdr::{DisplayProbe, HdrController, WindowsVersion};
use easyhdr::hdr::windows_api::LUID;
use easyhdr::monitor::HdrStateEvent;
use easyhdr::monitor::hdr_state_monitor::{
    HdrStateMonitor, MAX_RECHECK_COUNT, MonitorMessage, TimerCommand,
};

fn monitor(initial_on: bool) -> HdrStateMonitor {
    let probes = vec![DisplayProbe { adapter_id: LUID { LowPart: 1, HighPart: 0 }, target_id: 1, hdr_support: Ok(true) }];
    let hdr = HdrController::new(Ok(WindowsVersion::Windows11), Ok(probes)).unwrap();
    HdrStateMonitor::new(hdr, &vec![Ok(initial_on)]).unwrap()
}

#[test]
fn test_hdr_state_monitor_creation() {
    let hdr = HdrController::new(Ok(WindowsVersion::Windows11), Ok(vec![])).expect("Failed to create HDR controller");
    let monitor = HdrStateMonitor::new(hdr, &vec![]);
    assert!(monitor.is_ok());
}

#[test]
fn test_hdr_state_event_types() {
    assert_eq!(HdrStateEvent::Enabled, HdrStateEvent::Enabled);
    assert_eq!(HdrStateEvent::Disabled, HdrStateEvent::Disabled);
    assert_ne!(HdrStateEvent::Enabled, HdrStateEvent::Disabled);
}

#[test]
fn test_detect_current_hdr_state() {
    assert!(monitor(true).cached_hdr_state);
    assert!(!monitor(false).cached_hdr_state);
}

#[test]
fn test_monitor_state_structure() {
    let m = monitor(false);
    assert!(!m.cached_hdr_state);
    assert_eq!(m.recheck_count, 0);
}

#[test]
fn change_is_reported_once() {
    let mut m = monitor(false);
    let r = m.handle_message(MonitorMessage::DisplayChange, true);
    assert_eq!(r.event, Some(HdrStateEvent::Enabled));
    assert_eq!(r.timer, TimerCommand::Stop);
    let r = m.handle_message(MonitorMessage::SettingChange, true);
    assert_eq!(r.event, None);
    assert_eq!(r.timer, TimerCommand::Start);
    assert_eq!(m.recheck_count, MAX_RECHECK_COUNT);
}

#[test]
fn rechecks_stop_after_ten_unchanged_ticks() {
    let mut m = monitor(false);
    m.handle_message(MonitorMessage::DisplayChange, false);
    for left in (0..MAX_RECHECK_COUNT).rev() {
        let r = m.handle_message(MonitorMessage::RecheckTimer, false);
        assert_eq!(r.timer, TimerCommand::Keep);
        assert_eq!(m.recheck_count, left);
    }
    let r = m.handle_message(MonitorMessage::RecheckTimer, false);
    assert_eq!(r.timer, TimerCommand::Stop);
}

#[test]
fn recheck_finds_late_change() {
    let mut m = monitor(true);
    m.handle_message(MonitorMessage::DisplayChange, true);
    let r = m.handle_message(MonitorMessage::RecheckTimer, false);
    assert_eq!(r.event, Some(HdrStateEvent::Disabled));
    assert_eq!(r.timer, TimerCommand::Stop);
    assert_eq!(m.recheck_count, 0);
}

#[test]
fn destroy_quits() {
    let mut m = monitor(true);
    let r = m.handle_message(MonitorMessage::Destroy, false);
    assert!(r.quit);
    assert_eq!(r.event, None);
    assert!(m.cached_hdr_state);
}

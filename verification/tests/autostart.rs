use easyhdr::error::EasyHdrError;
use easyhdr::utils::autostart::{APP_NAME, AutoStartManager, RUN_KEY_PATH, RegistryOutcome};

const EXE: &str = "C:\\Program Files\\EasyHDR\\easyhdr.exe";

/// The `Run` key of a test registry: the application's value, if set.
struct RunKey {
    value: Option<String>,
}

impl RunKey {
    fn is_enabled(&self) -> Result<bool, EasyHdrError> {
        let read = if self.value.is_some() { RegistryOutcome::Done } else { RegistryOutcome::NotFound };
        AutoStartManager::is_enabled(Ok(()), read)
    }

    fn enable(&mut self) -> Result<(), EasyHdrError> {
        self.value = Some(AutoStartManager::autostart_command(EXE));
        AutoStartManager::enable(Ok(EXE.to_string()), Ok(()), Ok(()))
    }

    fn disable(&mut self) -> Result<(), EasyHdrError> {
        let outcome = if self.value.take().is_some() { RegistryOutcome::Done } else { RegistryOutcome::NotFound };
        AutoStartManager::disable(Ok(()), outcome)
    }
}

#[test]
fn test_autostart_lifecycle() {
    let mut key = RunKey { value: None };
    let _ = key.disable();

    let is_enabled = key.is_enabled().expect("Failed to check auto-start status");
    assert!(!is_enabled, "Auto-start should be disabled initially");

    key.enable().expect("Failed to enable auto-start");

    let is_enabled = key.is_enabled().expect("Failed to check auto-start status after enabling");
    assert!(is_enabled, "Auto-start should be enabled after calling enable()");

    key.disable().expect("Failed to disable auto-start");

    let is_enabled = key.is_enabled().expect("Failed to check auto-start status after disabling");
    assert!(!is_enabled, "Auto-start should be disabled after calling disable()");
}

#[test]
fn test_disable_when_already_disabled() {
    let mut key = RunKey { value: None };
    let _ = key.disable();

    let result = key.disable();
    assert!(result.is_ok(), "Disabling when already disabled should succeed");

    let is_enabled = key.is_enabled().expect("Failed to check auto-start status");
    assert!(!is_enabled, "Auto-start should remain disabled");
}

#[test]
fn test_enable_idempotent() {
    let mut key = RunKey { value: None };
    let _ = key.disable();

    key.enable().expect("First enable should succeed");
    key.enable().expect("Second enable should succeed");

    let is_enabled = key.is_enabled().expect("Failed to check auto-start status");
    assert!(is_enabled, "Auto-start should be enabled");

    let _ = key.disable();
}

#[test]
fn test_autostart_handles_paths_with_spaces() {
    let mut key = RunKey { value: None };
    key.enable().expect("Failed to enable auto-start");
    let registry_value = key.value.clone().unwrap();
    assert!(registry_value.starts_with('"') && registry_value.ends_with('"'));
    assert!(registry_value.contains("easyhdr"));
    assert_eq!(registry_value, "\"C:\\Program Files\\EasyHDR\\easyhdr.exe\"");
    assert_eq!(APP_NAME, "EasyHDR");
    assert_eq!(RUN_KEY_PATH, "Software\\Microsoft\\Windows\\CurrentVersion\\Run");
}

#[test]
fn registry_failures_become_configuration_errors() {
    match AutoStartManager::is_enabled(Err("no access".to_string()), RegistryOutcome::Done) {
        Err(EasyHdrError::ConfigError(m)) => assert_eq!(m, "Failed to access Windows auto-start registry: no access"),
        other => panic!("unexpected {:?}", other),
    }
    match AutoStartManager::is_enabled(Ok(()), RegistryOutcome::Failed("bad type".to_string())) {
        Err(EasyHdrError::ConfigError(m)) => assert_eq!(m, "Failed to check auto-start status: bad type"),
        other => panic!("unexpected {:?}", other),
    }
    match AutoStartManager::enable(Err("gone".to_string()), Ok(()), Ok(())) {
        Err(EasyHdrError::ConfigError(m)) => assert_eq!(m, "Failed to determine application location: gone"),
        other => panic!("unexpected {:?}", other),
    }
    match AutoStartManager::enable(Ok(EXE.to_string()), Ok(()), Err("denied".to_string())) {
        Err(EasyHdrError::ConfigError(m)) => {
            assert_eq!(m, "Failed to enable auto-start. Please check your permissions: denied")
        }
        other => panic!("unexpected {:?}", other),
    }
    match AutoStartManager::disable(Err("denied".to_string()), RegistryOutcome::Done) {
        Err(EasyHdrError::ConfigError(m)) => assert_eq!(
            m,
            "Failed to access Windows auto-start registry. Please check your permissions: denied"
        ),
        other => panic!("unexpected {:?}", other),
    }
    assert!(AutoStartManager::disable(Ok(()), RegistryOutcome::Failed("x".to_string())).is_err());
}

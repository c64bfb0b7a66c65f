use easyhdr::error::{EasyHdrError, StringError, get_user_friendly_error};

#[test]
fn test_error_display() {
    let error = EasyHdrError::HdrNotSupported;
    assert_eq!(error.message(), "HDR not supported on this display");
}

#[test]
fn test_user_friendly_messages() {
    let error = EasyHdrError::HdrNotSupported;
    let message = get_user_friendly_error(&error);
    assert!(message.contains("display doesn't support HDR"));
}

#[test]
fn test_error_from_io() {
    let io_error = std::io::Error::new(std::io::ErrorKind::NotFound, "file not found");
    let error = EasyHdrError::IoError(io_error.to_string());
    assert!(matches!(error, EasyHdrError::IoError(_)));
    assert_eq!(error.message(), "IO error: file not found");
    assert!(get_user_friendly_error(&error).contains("file not found"));
}

#[test]
fn test_uwp_package_not_found_display() {
    let error = EasyHdrError::UwpPackageNotFound("TestPackage_8wekyb3d8bbwe".to_string());
    assert_eq!(error.message(), "UWP package not found: TestPackage_8wekyb3d8bbwe");
}

#[test]
fn test_uwp_package_not_found_user_friendly() {
    let error = EasyHdrError::UwpPackageNotFound("TestPackage_8wekyb3d8bbwe".to_string());
    let message = get_user_friendly_error(&error);
    assert!(message.contains("UWP package not found"));
    assert!(message.contains("TestPackage_8wekyb3d8bbwe"));
    assert!(message.contains("uninstalled"));
}

#[test]
fn test_uwp_enumeration_error_display() {
    let error = EasyHdrError::UwpEnumerationError(StringError::new("test error".to_string()).0);
    assert_eq!(error.message(), "Failed to enumerate UWP packages: test error");
}

#[test]
fn test_uwp_enumeration_error_user_friendly() {
    let error = EasyHdrError::UwpEnumerationError("test error".to_string());
    let message = get_user_friendly_error(&error);
    assert!(message.contains("Failed to enumerate UWP applications"));
    assert!(message.contains("permission"));
}

#[test]
fn test_invalid_package_family_name_display() {
    let error = EasyHdrError::InvalidPackageFamilyName("Invalid_Name".to_string());
    assert_eq!(error.message(), "Invalid package family name: Invalid_Name");
}

#[test]
fn test_invalid_package_family_name_user_friendly() {
    let error = EasyHdrError::InvalidPackageFamilyName("Invalid_Name".to_string());
    let message = get_user_friendly_error(&error);
    assert!(message.contains("Invalid package family name"));
    assert!(message.contains("Invalid_Name"));
    assert!(message.contains("format is incorrect"));
}

#[test]
fn test_package_family_name_extraction_error_display() {
    let error = EasyHdrError::PackageFamilyNameExtractionError("BadFormat_1.0.0.0_x64".to_string());
    assert_eq!(
        error.message(),
        "Failed to extract package family name from full name: BadFormat_1.0.0.0_x64"
    );
}

#[test]
fn test_package_family_name_extraction_error_user_friendly() {
    let error = EasyHdrError::PackageFamilyNameExtractionError("BadFormat_1.0.0.0_x64".to_string());
    let message = get_user_friendly_error(&error);
    assert!(message.contains("Failed to extract package family name"));
    assert!(message.contains("BadFormat_1.0.0.0_x64"));
    assert!(message.contains("not recognized"));
}

#[test]
fn test_uwp_process_detection_error_display() {
    let error = EasyHdrError::UwpProcessDetectionError("access denied".to_string());
    assert_eq!(error.message(), "UWP process detection failed: access denied");
}

#[test]
fn test_uwp_process_detection_error_user_friendly() {
    let error = EasyHdrError::UwpProcessDetectionError("access denied".to_string());
    let message = get_user_friendly_error(&error);
    assert!(message.contains("Failed to detect UWP process"));
    assert!(message.contains("permission"));
}

#[test]
fn test_uwp_icon_extraction_error_display() {
    let error = EasyHdrError::UwpIconExtractionError("C:\\path\\to\\icon.png".to_string());
    assert_eq!(error.message(), "UWP icon extraction failed: C:\\path\\to\\icon.png");
}

#[test]
fn test_uwp_icon_extraction_error_user_friendly() {
    let error = EasyHdrError::UwpIconExtractionError("C:\\path\\to\\icon.png".to_string());
    let message = get_user_friendly_error(&error);
    assert!(message.contains("Failed to extract UWP icon"));
    assert!(message.contains("C:\\path\\to\\icon.png"));
    assert!(message.contains("placeholder icon"));
}

#[test]
fn every_message_has_its_prefix() {
    assert_eq!(EasyHdrError::HdrControlFailed("x".to_string()).message(), "Failed to control HDR: x");
    assert_eq!(EasyHdrError::DriverError("x".to_string()).message(), "Display driver error: x");
    assert_eq!(EasyHdrError::ProcessMonitorError("x".to_string()).message(), "Process monitoring error: x");
    assert_eq!(EasyHdrError::ConfigError("x".to_string()).message(), "Configuration error: x");
    assert_eq!(EasyHdrError::WindowsApiError("x".to_string()).message(), "Windows API error: x");
    assert_eq!(EasyHdrError::JsonError("x".to_string()).message(), "JSON error: x");
    assert!(get_user_friendly_error(&EasyHdrError::ConfigError("x".to_string())).contains("%APPDATA%\\EasyHDR"));
    assert!(get_user_friendly_error(&EasyHdrError::JsonError("bad".to_string())).contains("use default settings"));
}

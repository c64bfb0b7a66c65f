//! Error values of the library and the messages shown for them.

use crate::text::concat;
use vstd::prelude::*;

verus! {

/// Error carrying only a message.
#[derive(Debug)]
pub struct StringError(pub String);

impl StringError {
    /// Wraps a message.
    pub fn new(msg: String) -> (e: Box<StringError>)
        ensures
            e.0@ == msg@,
    {
        Box::new(StringError(msg))
    }
}

/// Errors of the icon cache.
#[derive(Debug)]
pub enum IconCacheError {
    /// Icon data must be 32x32 RGBA, exactly 4096 bytes.
    InvalidIconSize { actual: usize },
    /// PNG encoding failed.
    PngEncodingError { app_id: u128, message: String },
    /// PNG decoding failed.
    PngDecodingError { app_id: u128, message: String },
    /// The cache directory could not be created.
    CacheDirectoryCreationFailed { path: String, message: String },
    /// File metadata could not be read.
    MetadataError { path: String, message: String },
    /// A cached icon file could not be read.
    CacheReadError { app_id: u128, path: String, message: String },
    /// The temporary file for an atomic write could not be created.
    TempFileCreationFailed { app_id: u128, message: String },
    /// Writing an icon file failed.
    CacheWriteError { app_id: u128, path: String, message: String },
    /// Moving the temporary file into place failed.
    AtomicPersistFailed { app_id: u128, path: String, message: String },
    /// Deleting a cached icon failed.
    IconRemovalFailed { app_id: u128, path: String, message: String },
    /// Clearing the cache directory failed.
    CacheClearFailed { path: String, message: String },
    /// Collecting cache statistics failed.
    CacheStatsFailed { path: String, message: String },
}

/// Main error type. Underlying causes are kept as their message text.
#[derive(Debug)]
pub enum EasyHdrError {
    /// HDR is not supported on the display
    HdrNotSupported,
    /// Failed to control HDR settings
    HdrControlFailed(String),
    /// Display driver error
    DriverError(String),
    /// Process monitoring error
    ProcessMonitorError(String),
    /// Configuration error
    ConfigError(String),
    /// Windows API error
    WindowsApiError(String),
    /// IO error
    IoError(String),
    /// JSON serialization/deserialization error
    JsonError(String),
    /// UWP package not found
    UwpPackageNotFound(String),
    /// Failed to enumerate UWP packages
    UwpEnumerationError(String),
    /// Invalid package family name
    InvalidPackageFamilyName(String),
    /// Failed to extract package family name from full name
    PackageFamilyNameExtractionError(String),
    /// UWP process detection failed
    UwpProcessDetectionError(String),
    /// UWP icon extraction failed
    UwpIconExtractionError(String),
    /// Icon cache error
    IconCache(IconCacheError),
}

/// The one-line description of an error.
pub open spec fn error_message(e: EasyHdrError) -> Seq<char> {
    match e {
        EasyHdrError::HdrNotSupported => "HDR not supported on this display"@,
        EasyHdrError::HdrControlFailed(m) => "Failed to control HDR: "@ + m@,
        EasyHdrError::DriverError(m) => "Display driver error: "@ + m@,
        EasyHdrError::ProcessMonitorError(m) => "Process monitoring error: "@ + m@,
        EasyHdrError::ConfigError(m) => "Configuration error: "@ + m@,
        EasyHdrError::WindowsApiError(m) => "Windows API error: "@ + m@,
        EasyHdrError::IoError(m) => "IO error: "@ + m@,
        EasyHdrError::JsonError(m) => "JSON error: "@ + m@,
        EasyHdrError::UwpPackageNotFound(m) => "UWP package not found: "@ + m@,
        EasyHdrError::UwpEnumerationError(m) => "Failed to enumerate UWP packages: "@ + m@,
        EasyHdrError::InvalidPackageFamilyName(m) => "Invalid package family name: "@ + m@,
        EasyHdrError::PackageFamilyNameExtractionError(m) =>
            "Failed to extract package family name from full name: "@ + m@,
        EasyHdrError::UwpProcessDetectionError(m) => "UWP process detection failed: "@ + m@,
        EasyHdrError::UwpIconExtractionError(m) => "UWP icon extraction failed: "@ + m@,
        EasyHdrError::IconCache(_) => "Icon cache error"@,
    }
}

impl EasyHdrError {
    /// The one-line description of this error.
    pub fn message(&self) -> (m: String)
        ensures
            m@ == error_message(*self),
    {
        match self {
            EasyHdrError::HdrNotSupported => String::from_str("HDR not supported on this display"),
            EasyHdrError::HdrControlFailed(m) => concat("Failed to control HDR: ", m.as_str()),
            EasyHdrError::DriverError(m) => concat("Display driver error: ", m.as_str()),
            EasyHdrError::ProcessMonitorError(m) => concat("Process monitoring error: ", m.as_str()),
            EasyHdrError::ConfigError(m) => concat("Configuration error: ", m.as_str()),
            EasyHdrError::WindowsApiError(m) => concat("Windows API error: ", m.as_str()),
            EasyHdrError::IoError(m) => concat("IO error: ", m.as_str()),
            EasyHdrError::JsonError(m) => concat("JSON error: ", m.as_str()),
            EasyHdrError::UwpPackageNotFound(m) => concat("UWP package not found: ", m.as_str()),
            EasyHdrError::UwpEnumerationError(m) => concat(
                "Failed to enumerate UWP packages: ",
                m.as_str(),
            ),
            EasyHdrError::InvalidPackageFamilyName(m) => concat(
                "Invalid package family name: ",
                m.as_str(),
            ),
            EasyHdrError::PackageFamilyNameExtractionError(m) => concat(
                "Failed to extract package family name from full name: ",
                m.as_str(),
            ),
            EasyHdrError::UwpProcessDetectionError(m) => concat(
                "UWP process detection failed: ",
                m.as_str(),
            ),
            EasyHdrError::UwpIconExtractionError(m) => concat(
                "UWP icon extraction failed: ",
                m.as_str(),
            ),
            EasyHdrError::IconCache(_) => String::from_str("Icon cache error"),
        }
    }
}

/// The message shown to users for an error, with troubleshooting hints.
pub open spec fn user_friendly_message(e: EasyHdrError) -> Seq<char> {
    match e {
        EasyHdrError::HdrNotSupported => "Your display doesn't support HDR.\n\n\
             Please check your hardware specifications and ensure:\n\
             - Your display supports HDR10 or higher\n\
             - Your GPU supports HDR output\n\
             - You're using a compatible connection (HDMI 2.0+ or DisplayPort 1.4+)"@,
        EasyHdrError::HdrControlFailed(_) | EasyHdrError::DriverError(_) => "Unable to control HDR.\n\n\
             Please ensure:\n\
             - Your display drivers are up to date\n\
             - HDR is enabled in Windows display settings\n\
             - Your display is properly connected"@,
        EasyHdrError::ProcessMonitorError(_) => "Failed to monitor processes.\n\n\
             The application may not function correctly.\n\
             Try restarting the application."@,
        EasyHdrError::ConfigError(_) => "Failed to load or save configuration.\n\n\
             Your settings may not persist.\n\
             Check that you have write permissions to:\n\
             %APPDATA%\\EasyHDR"@,
        EasyHdrError::WindowsApiError(m) => "A Windows API error occurred:\n\n"@ + m@
            + "\n\nPlease ensure your Windows installation is up to date."@,
        EasyHdrError::IoError(m) => "A file system error occurred:\n\n"@ + m@
            + "\n\nPlease check file permissions and disk space."@,
        EasyHdrError::JsonError(m) => "Configuration file is corrupted:\n\n"@ + m@
            + "\n\nThe application will use default settings."@,
        EasyHdrError::UwpPackageNotFound(p) => "UWP package not found: "@ + p@
            + "\n\nThe application may have been uninstalled.\nPlease remove it from your monitored apps list."@,
        EasyHdrError::UwpEnumerationError(_) => "Failed to enumerate UWP applications.\n\n\
             Please ensure:\n\
             - You have permission to access installed applications\n\
             - Windows Store services are running\n\
             - Your Windows installation is not corrupted"@,
        EasyHdrError::InvalidPackageFamilyName(n) => "Invalid package family name: "@ + n@
            + "\n\nThe package name format is incorrect.\nThis may indicate a corrupted configuration file."@,
        EasyHdrError::PackageFamilyNameExtractionError(f) => "Failed to extract package family name from: "@
            + f@
            + "\n\nThe package name format is not recognized.\nThis may indicate an incompatible UWP application."@,
        EasyHdrError::UwpProcessDetectionError(_) => "Failed to detect UWP process.\n\n\
             Process monitoring may not work correctly for UWP applications.\n\
             Please ensure:\n\
             - You have permission to query process information\n\
             - Windows security settings allow process enumeration"@,
        EasyHdrError::UwpIconExtractionError(p) => "Failed to extract UWP icon from: "@ + p@
            + "\n\nThe application will use a placeholder icon.\nThis does not affect functionality."@,
        EasyHdrError::IconCache(_) => "Failed to access the icon cache.\n\n\
             Icons will be extracted again when needed."@,
    }
}

/// Text, then a message, then more text.
fn surround(before: &str, middle: &String, after: &str) -> (s: String)
    ensures
        s@ == before@ + middle@ + after@,
{
    let mut s = String::from_str(before);
    s.append(middle.as_str());
    s.append(after);
    s
}

/// Converts an error to a message suitable for an error dialog.
pub fn get_user_friendly_error(error: &EasyHdrError) -> (msg: String)
    ensures
        msg@ == user_friendly_message(*error),
{
    match error {
        EasyHdrError::HdrNotSupported => String::from_str(
            "Your display doesn't support HDR.\n\n\
             Please check your hardware specifications and ensure:\n\
             - Your display supports HDR10 or higher\n\
             - Your GPU supports HDR output\n\
             - You're using a compatible connection (HDMI 2.0+ or DisplayPort 1.4+)",
        ),
        EasyHdrError::HdrControlFailed(_) | EasyHdrError::DriverError(_) => String::from_str(
            "Unable to control HDR.\n\n\
             Please ensure:\n\
             - Your display drivers are up to date\n\
             - HDR is enabled in Windows display settings\n\
             - Your display is properly connected",
        ),
        EasyHdrError::ProcessMonitorError(_) => String::from_str(
            "Failed to monitor processes.\n\n\
             The application may not function correctly.\n\
             Try restarting the application.",
        ),
        EasyHdrError::ConfigError(_) => String::from_str(
            "Failed to load or save configuration.\n\n\
             Your settings may not persist.\n\
             Check that you have write permissions to:\n\
             %APPDATA%\\EasyHDR",
        ),
        EasyHdrError::WindowsApiError(m) => surround(
            "A Windows API error occurred:\n\n",
            m,
            "\n\nPlease ensure your Windows installation is up to date.",
        ),
        EasyHdrError::IoError(m) => surround(
            "A file system error occurred:\n\n",
            m,
            "\n\nPlease check file permissions and disk space.",
        ),
        EasyHdrError::JsonError(m) => surround(
            "Configuration file is corrupted:\n\n",
            m,
            "\n\nThe application will use default settings.",
        ),
        EasyHdrError::UwpPackageNotFound(p) => surround(
            "UWP package not found: ",
            p,
            "\n\nThe application may have been uninstalled.\nPlease remove it from your monitored apps list.",
        ),
        EasyHdrError::UwpEnumerationError(_) => String::from_str(
            "Failed to enumerate UWP applications.\n\n\
             Please ensure:\n\
             - You have permission to access installed applications\n\
             - Windows Store services are running\n\
             - Your Windows installation is not corrupted",
        ),
        EasyHdrError::InvalidPackageFamilyName(n) => surround(
            "Invalid package family name: ",
            n,
            "\n\nThe package name format is incorrect.\nThis may indicate a corrupted configuration file.",
        ),
        EasyHdrError::PackageFamilyNameExtractionError(f) => surround(
            "Failed to extract package family name from: ",
            f,
            "\n\nThe package name format is not recognized.\nThis may indicate an incompatible UWP application.",
        ),
        EasyHdrError::UwpProcessDetectionError(_) => String::from_str(
            "Failed to detect UWP process.\n\n\
             Process monitoring may not work correctly for UWP applications.\n\
             Please ensure:\n\
             - You have permission to query process information\n\
             - Windows security settings allow process enumeration",
        ),
        EasyHdrError::UwpIconExtractionError(p) => surround(
            "Failed to extract UWP icon from: ",
            p,
            "\n\nThe application will use a placeholder icon.\nThis does not affect functionality.",
        ),
        EasyHdrError::IconCache(_) => String::from_str(
            "Failed to access the icon cache.\n\n\
             Icons will be extracted again when needed.",
        ),
    }
}

} // verus!

verus! {

/// The error is a failure to control HDR with exactly the given text.
pub open spec fn is_control_failure(e: EasyHdrError, text: Seq<char>) -> bool {
    match e {
        EasyHdrError::HdrControlFailed(m) => m@ == text,
        _ => false,
    }
}

} // verus!

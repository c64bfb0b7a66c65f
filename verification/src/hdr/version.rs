//! Windows version classification by build number.

use crate::error::EasyHdrError;
use crate::text::{concat, decimal_text, signed_decimal_text, text_with_code, u64_to_decimal};
use vstd::prelude::*;

verus! {

/// Windows release family, as far as the HDR interfaces are concerned.
#[derive(Debug, Clone, Copy, PartialEq, Eq, Structural)]
pub enum WindowsVersion {
    /// Windows 10
    Windows10,
    /// Windows 11 before 24H2
    Windows11,
    /// Windows 11 24H2 or later (build 26100 and up)
    Windows11_24H2,
}

/// First build number of Windows 11.
pub const WINDOWS_11_FIRST_BUILD: u32 = 22000;

/// First build number of Windows 11 24H2.
pub const WINDOWS_11_24H2_FIRST_BUILD: u32 = 26100;

/// The release family that a build number belongs to.
pub open spec fn version_of_build(build_number: u32) -> WindowsVersion {
    if build_number >= 26100 {
        WindowsVersion::Windows11_24H2
    } else if build_number >= 22000 {
        WindowsVersion::Windows11
    } else {
        WindowsVersion::Windows10
    }
}

impl WindowsVersion {
    /// Classify a Windows build number.
    pub fn parse_build_number(build_number: u32) -> (version: WindowsVersion)
        ensures
            version == version_of_build(build_number),
    {
        if build_number >= WINDOWS_11_24H2_FIRST_BUILD {
            WindowsVersion::Windows11_24H2
        } else if build_number >= WINDOWS_11_FIRST_BUILD {
            WindowsVersion::Windows11
        } else {
            WindowsVersion::Windows10
        }
    }

    /// The build number from `RtlGetVersion`: `ntdll` is the result of
    /// loading `ntdll.dll`, `proc_found` whether the function was found there,
    /// `status` what it returned and `build_number` the build it reported.
    pub fn get_build_number_with_rtl_get_version(
        ntdll: Result<(), String>,
        proc_found: bool,
        status: i32,
        build_number: u32,
    ) -> (r: Result<u32, EasyHdrError>)
        ensures
            ntdll matches Err(m) ==> (r matches Err(EasyHdrError::WindowsApiError(e)) && e@ == m@),
            ntdll is Ok && !proc_found ==> (r matches Err(EasyHdrError::HdrControlFailed(e)) && e@
                == "RtlGetVersion not found in ntdll.dll"@),
            ntdll is Ok && proc_found && status != 0 ==> (r matches Err(
                EasyHdrError::HdrControlFailed(e),
            ) && e@ == "RtlGetVersion failed with status: "@ + signed_decimal_text(status as int)),
            ntdll is Ok && proc_found && status == 0 ==> r == Ok::<u32, EasyHdrError>(build_number),
    {
        match ntdll {
            Err(m) => return Err(EasyHdrError::WindowsApiError(m)),
            Ok(()) => {},
        }
        if !proc_found {
            return Err(
                EasyHdrError::HdrControlFailed(String::from_str("RtlGetVersion not found in ntdll.dll")),
            );
        }
        if status != 0 {
            return Err(
                EasyHdrError::HdrControlFailed(
                    text_with_code("RtlGetVersion failed with status: ", status),
                ),
            );
        }
        Ok(build_number)
    }

    /// The release family from the `RtlGetVersion` build number.
    pub fn detect_with_rtl_get_version(build_number: Result<u32, EasyHdrError>) -> (r: Result<
        WindowsVersion,
        EasyHdrError,
    >)
        ensures
            build_number matches Ok(b) ==> r == Ok::<WindowsVersion, EasyHdrError>(version_of_build(b)),
            build_number matches Err(e) ==> r == Err::<WindowsVersion, EasyHdrError>(e),
    {
        match build_number {
            Ok(b) => Ok(Self::parse_build_number(b)),
            Err(e) => Err(e),
        }
    }

    /// The release family from the `GetVersionExW` build number.
    pub fn detect_with_get_version_ex(build_number: Result<u32, EasyHdrError>) -> (r: Result<
        WindowsVersion,
        EasyHdrError,
    >)
        ensures
            build_number matches Ok(b) ==> r == Ok::<WindowsVersion, EasyHdrError>(version_of_build(b)),
            build_number matches Err(e) ==> r == Err::<WindowsVersion, EasyHdrError>(e),
    {
        match build_number {
            Ok(b) => Ok(Self::parse_build_number(b)),
            Err(e) => Err(e),
        }
    }

    /// The Windows build number: the one `RtlGetVersion` reports, or else the
    /// one `GetVersionExW` reports (or its failure).
    pub fn get_build_number(
        rtl_get_version: Result<u32, EasyHdrError>,
        get_version_ex: Result<u32, EasyHdrError>,
    ) -> (r: Result<u32, EasyHdrError>)
        ensures
            rtl_get_version is Ok ==> r == rtl_get_version,
            rtl_get_version is Err ==> r == get_version_ex,
    {
        match rtl_get_version {
            Ok(b) => Ok(b),
            Err(_) => get_version_ex,
        }
    }

    /// Detect the release family: from the `RtlGetVersion` build number, or
    /// else from the `GetVersionExW` one (or its failure).
    pub fn detect(
        rtl_get_version: Result<u32, EasyHdrError>,
        get_version_ex: Result<u32, EasyHdrError>,
    ) -> (r: Result<WindowsVersion, EasyHdrError>)
        ensures
            rtl_get_version matches Ok(b) ==> r == Ok::<WindowsVersion, EasyHdrError>(version_of_build(b)),
            rtl_get_version is Err ==> (get_version_ex matches Ok(b) ==> r == Ok::<
                WindowsVersion,
                EasyHdrError,
            >(version_of_build(b))),
            rtl_get_version is Err ==> (get_version_ex matches Err(e) ==> r == Err::<
                WindowsVersion,
                EasyHdrError,
            >(e)),
    {
        match Self::detect_with_rtl_get_version(rtl_get_version) {
            Ok(v) => Ok(v),
            Err(_) => Self::detect_with_get_version_ex(get_version_ex),
        }
    }
}

/// The oldest supported build (Windows 10 21H2).
pub const MIN_WINDOWS_BUILD: u32 = 19044;

/// Check that a build is supported: builds older than Windows 10 21H2 are
/// refused with a `ConfigError` naming the build and the minimum.
pub fn check_minimum_build(build_number: u32) -> (r: Result<(), EasyHdrError>)
    ensures
        build_number >= MIN_WINDOWS_BUILD ==> r is Ok,
        build_number < MIN_WINDOWS_BUILD ==> (r matches Err(EasyHdrError::ConfigError(m)) && m@
            == "Windows build "@ + decimal_text(build_number as nat) + " is too old. Minimum required: 19044"@),
{
    if build_number >= MIN_WINDOWS_BUILD {
        Ok(())
    } else {
        let number = u64_to_decimal(build_number as u64);
        let head = concat("Windows build ", number.as_str());
        Err(EasyHdrError::ConfigError(concat(head.as_str(), " is too old. Minimum required: 19044")))
    }
}

/// Later builds never belong to an earlier release family.
pub proof fn lemma_version_monotonic(a: u32, b: u32)
    requires
        a <= b,
    ensures
        version_of_build(a) == WindowsVersion::Windows11_24H2 ==> version_of_build(b)
            == WindowsVersion::Windows11_24H2,
        version_of_build(a) == WindowsVersion::Windows11 ==> version_of_build(b)
            != WindowsVersion::Windows10,
{
}

} // verus!

use easyhdr::error::EasyHdrError;
use easyhdr::hdr::WindowsVersion;
use easyhdr::hdr::version::check_minimum_build;

#[test]
fn test_parse_build_number_windows10() {
    // Windows 10 21H2 build number
    let version = WindowsVersion::parse_build_number(19044);
    assert_eq!(version, WindowsVersion::Windows10);

    // Windows 10 22H2 build number
    let version = WindowsVersion::parse_build_number(19045);
    assert_eq!(version, WindowsVersion::Windows10);
}

#[test]
fn test_parse_build_number_windows11() {
    // Windows 11 21H2 build number
    let version = WindowsVersion::parse_build_number(22000);
    assert_eq!(version, WindowsVersion::Windows11);

    // Windows 11 22H2 build number
    let version = WindowsVersion::parse_build_number(22621);
    assert_eq!(version, WindowsVersion::Windows11);

    // Windows 11 23H2 build number
    let version = WindowsVersion::parse_build_number(22631);
    assert_eq!(version, WindowsVersion::Windows11);
}

#[test]
fn test_parse_build_number_windows11_24h2() {
    // Windows 11 24H2 build number
    let version = WindowsVersion::parse_build_number(26100);
    assert_eq!(version, WindowsVersion::Windows11_24H2);

    // Future build numbers
    let version = WindowsVersion::parse_build_number(26200);
    assert_eq!(version, WindowsVersion::Windows11_24H2);
}

#[test]
fn test_parse_build_number_edge_cases() {
    // Just below Windows 11 threshold
    let version = WindowsVersion::parse_build_number(21999);
    assert_eq!(version, WindowsVersion::Windows10);

    // Exactly at Windows 11 threshold
    let version = WindowsVersion::parse_build_number(22000);
    assert_eq!(version, WindowsVersion::Windows11);

    // Just below Windows 11 24H2 threshold
    let version = WindowsVersion::parse_build_number(26099);
    assert_eq!(version, WindowsVersion::Windows11);

    // Exactly at Windows 11 24H2 threshold
    let version = WindowsVersion::parse_build_number(26100);
    assert_eq!(version, WindowsVersion::Windows11_24H2);
}

#[test]
fn test_parse_build_number_comprehensive() {
    // Test a comprehensive range of build numbers to ensure correct classification

    // Very old Windows 10 builds
    assert_eq!(
        WindowsVersion::parse_build_number(10240),
        WindowsVersion::Windows10
    );
    assert_eq!(
        WindowsVersion::parse_build_number(14393),
        WindowsVersion::Windows10
    );

    // Windows 10 1809 through 22H2
    assert_eq!(
        WindowsVersion::parse_build_number(17763),
        WindowsVersion::Windows10
    );
    assert_eq!(
        WindowsVersion::parse_build_number(18362),
        WindowsVersion::Windows10
    );
    assert_eq!(
        WindowsVersion::parse_build_number(18363),
        WindowsVersion::Windows10
    );
    assert_eq!(
        WindowsVersion::parse_build_number(19041),
        WindowsVersion::Windows10
    );
    assert_eq!(
        WindowsVersion::parse_build_number(19042),
        WindowsVersion::Windows10
    );
    assert_eq!(
        WindowsVersion::parse_build_number(19043),
        WindowsVersion::Windows10
    );
    assert_eq!(
        WindowsVersion::parse_build_number(19044),
        WindowsVersion::Windows10
    );
    assert_eq!(
        WindowsVersion::parse_build_number(19045),
        WindowsVersion::Windows10
    );

    // Windows 11 versions
    assert_eq!(
        WindowsVersion::parse_build_number(22000),
        WindowsVersion::Windows11
    );
    assert_eq!(
        WindowsVersion::parse_build_number(22621),
        WindowsVersion::Windows11
    );
    assert_eq!(
        WindowsVersion::parse_build_number(22631),
        WindowsVersion::Windows11
    );

    // Windows 11 24H2 and beyond
    assert_eq!(
        WindowsVersion::parse_build_number(26100),
        WindowsVersion::Windows11_24H2
    );
    assert_eq!(
        WindowsVersion::parse_build_number(26200),
        WindowsVersion::Windows11_24H2
    );
    assert_eq!(
        WindowsVersion::parse_build_number(30000),
        WindowsVersion::Windows11_24H2
    );
}

#[test]
fn test_parse_build_number_boundary_values() {
    // Test boundary values around version thresholds

    // Around Windows 11 threshold (22000)
    assert_eq!(
        WindowsVersion::parse_build_number(21998),
        WindowsVersion::Windows10
    );
    assert_eq!(
        WindowsVersion::parse_build_number(21999),
        WindowsVersion::Windows10
    );
    assert_eq!(
        WindowsVersion::parse_build_number(22000),
        WindowsVersion::Windows11
    );
    assert_eq!(
        WindowsVersion::parse_build_number(22001),
        WindowsVersion::Windows11
    );

    // Around Windows 11 24H2 threshold (26100)
    assert_eq!(
        WindowsVersion::parse_build_number(26098),
        WindowsVersion::Windows11
    );
    assert_eq!(
        WindowsVersion::parse_build_number(26099),
        WindowsVersion::Windows11
    );
    assert_eq!(
        WindowsVersion::parse_build_number(26100),
        WindowsVersion::Windows11_24H2
    );
    assert_eq!(
        WindowsVersion::parse_build_number(26101),
        WindowsVersion::Windows11_24H2
    );
}

#[test]
fn test_version_enum_equality() {
    assert_eq!(WindowsVersion::Windows10, WindowsVersion::Windows10);
    assert_eq!(WindowsVersion::Windows11, WindowsVersion::Windows11);
    assert_eq!(
        WindowsVersion::Windows11_24H2,
        WindowsVersion::Windows11_24H2
    );

    assert_ne!(WindowsVersion::Windows10, WindowsVersion::Windows11);
    assert_ne!(WindowsVersion::Windows11, WindowsVersion::Windows11_24H2);
}

#[test]
fn test_version_enum_debug() {
    // Ensure Debug trait works correctly
    let v1 = WindowsVersion::Windows10;
    let v2 = WindowsVersion::Windows11;
    let v3 = WindowsVersion::Windows11_24H2;

    assert_eq!(format!("{:?}", v1), "Windows10");
    assert_eq!(format!("{:?}", v2), "Windows11");
    assert_eq!(format!("{:?}", v3), "Windows11_24H2");
}

#[test]
fn test_version_enum_clone() {
    // Ensure Clone trait works correctly
    let v1 = WindowsVersion::Windows10;
    let v2 = v1; // Copy trait is used automatically
    assert_eq!(v1, v2);

    let v3 = WindowsVersion::Windows11_24H2;
    let v4 = v3; // Copy trait is used automatically
    assert_eq!(v3, v4);
}

#[test]
fn test_version_enum_copy() {
    // Ensure Copy trait works correctly
    let v1 = WindowsVersion::Windows11;
    let v2 = v1; // Copy, not move
    assert_eq!(v1, v2);
    // v1 should still be usable after copy
    assert_eq!(v1, WindowsVersion::Windows11);
}

#[test]
fn test_parse_build_number_zero() {
    // Edge case: build number 0 (should never happen in practice)
    let version = WindowsVersion::parse_build_number(0);
    assert_eq!(version, WindowsVersion::Windows10);
}

#[test]
fn test_parse_build_number_max_u32() {
    // Edge case: maximum u32 value
    let version = WindowsVersion::parse_build_number(u32::MAX);
    assert_eq!(version, WindowsVersion::Windows11_24H2);
}

#[test]
fn test_parse_build_number_known_versions() {
    // Test specific known Windows versions for accuracy

    // Windows 10 versions
    assert_eq!(
        WindowsVersion::parse_build_number(10240),
        WindowsVersion::Windows10
    ); // 1507
    assert_eq!(
        WindowsVersion::parse_build_number(10586),
        WindowsVersion::Windows10
    ); // 1511
    assert_eq!(
        WindowsVersion::parse_build_number(14393),
        WindowsVersion::Windows10
    ); // 1607
    assert_eq!(
        WindowsVersion::parse_build_number(15063),
        WindowsVersion::Windows10
    ); // 1703
    assert_eq!(
        WindowsVersion::parse_build_number(16299),
        WindowsVersion::Windows10
    ); // 1709
    assert_eq!(
        WindowsVersion::parse_build_number(17134),
        WindowsVersion::Windows10
    ); // 1803
    assert_eq!(
        WindowsVersion::parse_build_number(17763),
        WindowsVersion::Windows10
    ); // 1809
    assert_eq!(
        WindowsVersion::parse_build_number(18362),
        WindowsVersion::Windows10
    ); // 1903
    assert_eq!(
        WindowsVersion::parse_build_number(18363),
        WindowsVersion::Windows10
    ); // 1909
    assert_eq!(
        WindowsVersion::parse_build_number(19041),
        WindowsVersion::Windows10
    ); // 2004
    assert_eq!(
        WindowsVersion::parse_build_number(19042),
        WindowsVersion::Windows10
    ); // 20H2
    assert_eq!(
        WindowsVersion::parse_build_number(19043),
        WindowsVersion::Windows10
    ); // 21H1
    assert_eq!(
        WindowsVersion::parse_build_number(19044),
        WindowsVersion::Windows10
    ); // 21H2
    assert_eq!(
        WindowsVersion::parse_build_number(19045),
        WindowsVersion::Windows10
    ); // 22H2

    // Windows 11 versions
    assert_eq!(
        WindowsVersion::parse_build_number(22000),
        WindowsVersion::Windows11
    ); // 21H2
    assert_eq!(
        WindowsVersion::parse_build_number(22621),
        WindowsVersion::Windows11
    ); // 22H2
    assert_eq!(
        WindowsVersion::parse_build_number(22631),
        WindowsVersion::Windows11
    ); // 23H2

    // Windows 11 24H2
    assert_eq!(
        WindowsVersion::parse_build_number(26100),
        WindowsVersion::Windows11_24H2
    ); // 24H2
}

#[test]
fn test_version_detection() {
    // The version comes from the build number that RtlGetVersion reports.
    let version = WindowsVersion::detect(Ok(22621), Ok(22621));
    assert!(version.is_ok());
}

#[test]
fn test_version_detection_non_windows() {
    // Without a working RtlGetVersion, GetVersionExW's build number decides.
    let version = WindowsVersion::detect(
        Err(EasyHdrError::HdrControlFailed("RtlGetVersion not found in ntdll.dll".to_string())),
        Ok(22621),
    );
    assert!(version.is_ok());
    assert_eq!(version.unwrap(), WindowsVersion::Windows11);
}

#[test]
fn test_version_detection_windows_api_success() {
    let version = WindowsVersion::detect(Ok(26100), Ok(19045));
    assert!(version.is_ok(), "Version detection should succeed on Windows");
    let detected = version.unwrap();
    assert!(matches!(
        detected,
        WindowsVersion::Windows10 | WindowsVersion::Windows11 | WindowsVersion::Windows11_24H2
    ));
    assert_eq!(detected, WindowsVersion::Windows11_24H2);
}

#[test]
fn detect_fails_when_both_queries_fail() {
    let r = WindowsVersion::detect(
        Err(EasyHdrError::HdrControlFailed("RtlGetVersion failed with status: -1".to_string())),
        Err(EasyHdrError::WindowsApiError("access denied".to_string())),
    );
    match r {
        Err(EasyHdrError::WindowsApiError(m)) => assert_eq!(m, "access denied"),
        other => panic!("unexpected {:?}", other),
    }
}

#[test]
fn get_build_number_prefers_rtl_get_version() {
    assert_eq!(WindowsVersion::get_build_number(Ok(22631), Ok(19045)).unwrap(), 22631);
    let fallback = WindowsVersion::get_build_number(
        Err(EasyHdrError::HdrControlFailed("x".to_string())),
        Ok(19045),
    );
    assert_eq!(fallback.unwrap(), 19045);
}

#[test]
fn rtl_get_version_outcomes() {
    assert_eq!(WindowsVersion::get_build_number_with_rtl_get_version(Ok(()), true, 0, 22621).unwrap(), 22621);
    match WindowsVersion::get_build_number_with_rtl_get_version(Ok(()), false, 0, 0) {
        Err(EasyHdrError::HdrControlFailed(m)) => assert_eq!(m, "RtlGetVersion not found in ntdll.dll"),
        other => panic!("unexpected {:?}", other),
    }
    match WindowsVersion::get_build_number_with_rtl_get_version(Ok(()), true, -1073741823, 0) {
        Err(EasyHdrError::HdrControlFailed(m)) => {
            assert_eq!(m, "RtlGetVersion failed with status: -1073741823")
        }
        other => panic!("unexpected {:?}", other),
    }
    match WindowsVersion::get_build_number_with_rtl_get_version(Err("not loaded".to_string()), true, 0, 1) {
        Err(EasyHdrError::WindowsApiError(m)) => assert_eq!(m, "not loaded"),
        other => panic!("unexpected {:?}", other),
    }
}

#[test]
fn detect_with_single_queries() {
    assert_eq!(WindowsVersion::detect_with_rtl_get_version(Ok(19044)).unwrap(), WindowsVersion::Windows10);
    assert_eq!(WindowsVersion::detect_with_get_version_ex(Ok(26100)).unwrap(), WindowsVersion::Windows11_24H2);
    assert!(WindowsVersion::detect_with_get_version_ex(Err(EasyHdrError::HdrNotSupported)).is_err());
}

#[test]
fn builds_before_windows_10_21h2_are_refused() {
    assert!(check_minimum_build(19044).is_ok());
    assert!(check_minimum_build(26100).is_ok());
    match check_minimum_build(19043) {
        Err(easyhdr::error::EasyHdrError::ConfigError(m)) => {
            assert_eq!(m, "Windows build 19043 is too old. Minimum required: 19044")
        }
        other => panic!("unexpected {other:?}"),
    }
}

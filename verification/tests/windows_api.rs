use easyhdr::hdr::windows_api::{
    ADVANCED_COLOR_INFO_2_SIZE, ADVANCED_COLOR_INFO_SIZE, DEVICE_INFO_HEADER_SIZE,
    DISPLAYCONFIG_ADVANCED_COLOR_MODE, DISPLAYCONFIG_DEVICE_INFO_HEADER, DISPLAYCONFIG_DEVICE_INFO_TYPE,
    DISPLAYCONFIG_GET_ADVANCED_COLOR_INFO, DISPLAYCONFIG_GET_ADVANCED_COLOR_INFO_2,
    DISPLAYCONFIG_SET_ADVANCED_COLOR_STATE, DISPLAYCONFIG_SET_HDR_STATE, LUID, SET_STATE_REQUEST_SIZE,
};

fn info(value: u32) -> DISPLAYCONFIG_GET_ADVANCED_COLOR_INFO {
    let mut i = DISPLAYCONFIG_GET_ADVANCED_COLOR_INFO::request(LUID { LowPart: 0, HighPart: 0 }, 0);
    i.value = value;
    i
}

fn info2(value: u32) -> DISPLAYCONFIG_GET_ADVANCED_COLOR_INFO_2 {
    let mut i = DISPLAYCONFIG_GET_ADVANCED_COLOR_INFO_2::request(LUID { LowPart: 0, HighPart: 0 }, 0);
    i.value = value;
    i
}

#[test]
fn test_displayconfig_get_advanced_color_info_bit_fields() {
    let i = info(0x1);
    assert!(i.advancedColorSupported());
    assert!(!i.advancedColorEnabled());
    assert!(!i.wideColorEnforced());

    let i = info(0x2);
    assert!(!i.advancedColorSupported());
    assert!(i.advancedColorEnabled());
    assert!(!i.wideColorEnforced());

    let i = info(0x4);
    assert!(!i.advancedColorSupported());
    assert!(!i.advancedColorEnabled());
    assert!(i.wideColorEnforced());

    let i = info(0x3);
    assert!(i.advancedColorSupported());
    assert!(i.advancedColorEnabled());
    assert!(!i.wideColorEnforced());
}

#[test]
fn test_displayconfig_get_advanced_color_info_2_bit_fields() {
    let i = info2(0x10);
    assert!(i.highDynamicRangeSupported());
    assert!(!i.wideColorGamutSupported());

    let i = info2(0x40);
    assert!(!i.highDynamicRangeSupported());
    assert!(i.wideColorGamutSupported());

    let i = info2(0x50);
    assert!(i.highDynamicRangeSupported());
    assert!(i.wideColorGamutSupported());

    let i = info2(0x1);
    assert!(i.advancedColorSupported());
    assert!(!i.highDynamicRangeSupported());

    let i = info2(0x2);
    assert!(i.advancedColorActive());
    assert!(!i.highDynamicRangeSupported());

    let i = info2(0x8);
    assert!(i.advancedColorLimitedByPolicy());

    let i = info2(0x20);
    assert!(i.highDynamicRangeUserEnabled());
    assert!(!i.highDynamicRangeSupported());

    let i = info2(0x80);
    assert!(i.wideColorUserEnabled());
    assert!(!i.wideColorGamutSupported());
}

#[test]
fn test_displayconfig_set_advanced_color_state_new() {
    let luid = LUID { LowPart: 0x1234, HighPart: 0x5678 };
    let target_id = 42;

    let state = DISPLAYCONFIG_SET_ADVANCED_COLOR_STATE::new(luid, target_id, true);
    assert_eq!(
        state.header.type_,
        DISPLAYCONFIG_DEVICE_INFO_TYPE::DISPLAYCONFIG_DEVICE_INFO_SET_ADVANCED_COLOR_STATE
    );
    assert_eq!(state.header.size, SET_STATE_REQUEST_SIZE);
    assert_eq!(state.header.size as usize, std::mem::size_of::<DISPLAYCONFIG_SET_ADVANCED_COLOR_STATE>());
    assert_eq!(state.header.adapterId.LowPart, 0x1234);
    assert_eq!(state.header.adapterId.HighPart, 0x5678);
    assert_eq!(state.header.id, 42);
    assert_eq!(state.value, 1);

    let state = DISPLAYCONFIG_SET_ADVANCED_COLOR_STATE::new(luid, target_id, false);
    assert_eq!(state.value, 0);
}

#[test]
fn test_displayconfig_set_hdr_state_new() {
    let luid = LUID { LowPart: 0xABCD, HighPart: 0xEF01 };
    let target_id = 99;

    let state = DISPLAYCONFIG_SET_HDR_STATE::new(luid, target_id, true);
    assert_eq!(state.header.type_, DISPLAYCONFIG_DEVICE_INFO_TYPE::DISPLAYCONFIG_DEVICE_INFO_SET_HDR_STATE);
    assert_eq!(state.header.size, SET_STATE_REQUEST_SIZE);
    assert_eq!(state.header.size as usize, std::mem::size_of::<DISPLAYCONFIG_SET_HDR_STATE>());
    assert_eq!(state.header.adapterId.LowPart, 0xABCD);
    assert_eq!(state.header.adapterId.HighPart, 0xEF01);
    assert_eq!(state.header.id, 99);
    assert_eq!(state.value, 1);

    let state = DISPLAYCONFIG_SET_HDR_STATE::new(luid, target_id, false);
    assert_eq!(state.value, 0);
}

#[test]
fn test_structure_sizes() {
    assert!(DEVICE_INFO_HEADER_SIZE % 4 == 0);
    assert!(ADVANCED_COLOR_INFO_SIZE % 4 == 0);
    assert!(ADVANCED_COLOR_INFO_2_SIZE % 4 == 0);
    assert!(SET_STATE_REQUEST_SIZE % 4 == 0);
    assert!(std::mem::size_of::<DISPLAYCONFIG_DEVICE_INFO_HEADER>() % 4 == 0);
}

#[test]
fn test_displayconfig_device_info_header_exact_size() {
    assert_eq!(DEVICE_INFO_HEADER_SIZE, 20);
}

#[test]
fn test_displayconfig_get_advanced_color_info_2_exact_size() {
    assert_eq!(ADVANCED_COLOR_INFO_2_SIZE, 36);
    let request = DISPLAYCONFIG_GET_ADVANCED_COLOR_INFO_2::request(LUID { LowPart: 1, HighPart: 2 }, 3);
    assert_eq!(request.header.size, 36);
    assert_eq!(
        request.header.type_,
        DISPLAYCONFIG_DEVICE_INFO_TYPE::DISPLAYCONFIG_DEVICE_INFO_GET_ADVANCED_COLOR_INFO_2
    );
}

#[test]
fn test_displayconfig_get_advanced_color_info_exact_size() {
    assert_eq!(ADVANCED_COLOR_INFO_SIZE, 32);
    let request = DISPLAYCONFIG_GET_ADVANCED_COLOR_INFO::request(LUID { LowPart: 1, HighPart: 2 }, 3);
    assert_eq!(request.header.size, 32);
    assert_eq!(request.header.id, 3);
}

#[test]
fn device_info_type_codes_follow_the_sdk() {
    assert_eq!(DISPLAYCONFIG_DEVICE_INFO_TYPE::DISPLAYCONFIG_DEVICE_INFO_GET_ADVANCED_COLOR_INFO.code(), 9);
    assert_eq!(DISPLAYCONFIG_DEVICE_INFO_TYPE::DISPLAYCONFIG_DEVICE_INFO_SET_ADVANCED_COLOR_STATE.code(), 10);
    assert_eq!(DISPLAYCONFIG_DEVICE_INFO_TYPE::DISPLAYCONFIG_DEVICE_INFO_GET_ADVANCED_COLOR_INFO_2.code(), 15);
    assert_eq!(DISPLAYCONFIG_DEVICE_INFO_TYPE::DISPLAYCONFIG_DEVICE_INFO_SET_HDR_STATE.code(), 16);
    let _ = DISPLAYCONFIG_ADVANCED_COLOR_MODE::DISPLAYCONFIG_ADVANCED_COLOR_MODE_HDR.code();
}

//! Records of the Windows display-configuration interface.
//!
//! These hold the values that the display-configuration calls read and write:
//! adapter identifiers, request headers, the advanced-colour bit fields and the
//! HDR state requests. The in-memory layout expected by Windows is the caller's
//! concern; here the records carry the values and their meaning.

#![allow(non_snake_case)]
#![allow(non_camel_case_types)]

use vstd::prelude::*;

verus! {

/// Locally unique identifier of a display adapter.
#[derive(Debug, Clone, Copy, PartialEq, Eq, Default, Structural)]
pub struct LUID {
    pub LowPart: u32,
    pub HighPart: i32,
}

/// Kind of device information requested from or given to Windows.
#[derive(Debug, Clone, Copy, PartialEq, Eq, Structural)]
pub enum DISPLAYCONFIG_DEVICE_INFO_TYPE {
    DISPLAYCONFIG_DEVICE_INFO_GET_SOURCE_NAME,
    DISPLAYCONFIG_DEVICE_INFO_GET_TARGET_NAME,
    DISPLAYCONFIG_DEVICE_INFO_GET_TARGET_PREFERRED_MODE,
    DISPLAYCONFIG_DEVICE_INFO_GET_ADAPTER_NAME,
    DISPLAYCONFIG_DEVICE_INFO_SET_TARGET_PERSISTENCE,
    DISPLAYCONFIG_DEVICE_INFO_GET_TARGET_BASE_TYPE,
    DISPLAYCONFIG_DEVICE_INFO_GET_SUPPORT_VIRTUAL_RESOLUTION,
    DISPLAYCONFIG_DEVICE_INFO_SET_SUPPORT_VIRTUAL_RESOLUTION,
    DISPLAYCONFIG_DEVICE_INFO_GET_ADVANCED_COLOR_INFO,
    DISPLAYCONFIG_DEVICE_INFO_SET_ADVANCED_COLOR_STATE,
    DISPLAYCONFIG_DEVICE_INFO_GET_SDR_WHITE_LEVEL,
    DISPLAYCONFIG_DEVICE_INFO_GET_MONITOR_SPECIALIZATION,
    DISPLAYCONFIG_DEVICE_INFO_SET_MONITOR_SPECIALIZATION,
    DISPLAYCONFIG_DEVICE_INFO_SET_RESERVED1,
    DISPLAYCONFIG_DEVICE_INFO_GET_ADVANCED_COLOR_INFO_2,
    DISPLAYCONFIG_DEVICE_INFO_SET_HDR_STATE,
    DISPLAYCONFIG_DEVICE_INFO_SET_WCG_STATE,
}

/// The numeric value that Windows uses for a device information kind.
pub open spec fn device_info_type_code(t: DISPLAYCONFIG_DEVICE_INFO_TYPE) -> u32 {
    match t {
        DISPLAYCONFIG_DEVICE_INFO_TYPE::DISPLAYCONFIG_DEVICE_INFO_GET_SOURCE_NAME => 1,
        DISPLAYCONFIG_DEVICE_INFO_TYPE::DISPLAYCONFIG_DEVICE_INFO_GET_TARGET_NAME => 2,
        DISPLAYCONFIG_DEVICE_INFO_TYPE::DISPLAYCONFIG_DEVICE_INFO_GET_TARGET_PREFERRED_MODE => 3,
        DISPLAYCONFIG_DEVICE_INFO_TYPE::DISPLAYCONFIG_DEVICE_INFO_GET_ADAPTER_NAME => 4,
        DISPLAYCONFIG_DEVICE_INFO_TYPE::DISPLAYCONFIG_DEVICE_INFO_SET_TARGET_PERSISTENCE => 5,
        DISPLAYCONFIG_DEVICE_INFO_TYPE::DISPLAYCONFIG_DEVICE_INFO_GET_TARGET_BASE_TYPE => 6,
        DISPLAYCONFIG_DEVICE_INFO_TYPE::DISPLAYCONFIG_DEVICE_INFO_GET_SUPPORT_VIRTUAL_RESOLUTION => 7,
        DISPLAYCONFIG_DEVICE_INFO_TYPE::DISPLAYCONFIG_DEVICE_INFO_SET_SUPPORT_VIRTUAL_RESOLUTION => 8,
        DISPLAYCONFIG_DEVICE_INFO_TYPE::DISPLAYCONFIG_DEVICE_INFO_GET_ADVANCED_COLOR_INFO => 9,
        DISPLAYCONFIG_DEVICE_INFO_TYPE::DISPLAYCONFIG_DEVICE_INFO_SET_ADVANCED_COLOR_STATE => 10,
        DISPLAYCONFIG_DEVICE_INFO_TYPE::DISPLAYCONFIG_DEVICE_INFO_GET_SDR_WHITE_LEVEL => 11,
        DISPLAYCONFIG_DEVICE_INFO_TYPE::DISPLAYCONFIG_DEVICE_INFO_GET_MONITOR_SPECIALIZATION => 12,
        DISPLAYCONFIG_DEVICE_INFO_TYPE::DISPLAYCONFIG_DEVICE_INFO_SET_MONITOR_SPECIALIZATION => 13,
        DISPLAYCONFIG_DEVICE_INFO_TYPE::DISPLAYCONFIG_DEVICE_INFO_SET_RESERVED1 => 14,
        DISPLAYCONFIG_DEVICE_INFO_TYPE::DISPLAYCONFIG_DEVICE_INFO_GET_ADVANCED_COLOR_INFO_2 => 15,
        DISPLAYCONFIG_DEVICE_INFO_TYPE::DISPLAYCONFIG_DEVICE_INFO_SET_HDR_STATE => 16,
        DISPLAYCONFIG_DEVICE_INFO_TYPE::DISPLAYCONFIG_DEVICE_INFO_SET_WCG_STATE => 17,
    }
}

impl DISPLAYCONFIG_DEVICE_INFO_TYPE {
    /// The numeric value that Windows uses for this kind.
    pub fn code(&self) -> (c: u32)
        ensures
            c == device_info_type_code(*self),
    {
        match self {
            DISPLAYCONFIG_DEVICE_INFO_TYPE::DISPLAYCONFIG_DEVICE_INFO_GET_SOURCE_NAME => 1,
            DISPLAYCONFIG_DEVICE_INFO_TYPE::DISPLAYCONFIG_DEVICE_INFO_GET_TARGET_NAME => 2,
            DISPLAYCONFIG_DEVICE_INFO_TYPE::DISPLAYCONFIG_DEVICE_INFO_GET_TARGET_PREFERRED_MODE => 3,
            DISPLAYCONFIG_DEVICE_INFO_TYPE::DISPLAYCONFIG_DEVICE_INFO_GET_ADAPTER_NAME => 4,
            DISPLAYCONFIG_DEVICE_INFO_TYPE::DISPLAYCONFIG_DEVICE_INFO_SET_TARGET_PERSISTENCE => 5,
            DISPLAYCONFIG_DEVICE_INFO_TYPE::DISPLAYCONFIG_DEVICE_INFO_GET_TARGET_BASE_TYPE => 6,
            DISPLAYCONFIG_DEVICE_INFO_TYPE::DISPLAYCONFIG_DEVICE_INFO_GET_SUPPORT_VIRTUAL_RESOLUTION => 7,
            DISPLAYCONFIG_DEVICE_INFO_TYPE::DISPLAYCONFIG_DEVICE_INFO_SET_SUPPORT_VIRTUAL_RESOLUTION => 8,
            DISPLAYCONFIG_DEVICE_INFO_TYPE::DISPLAYCONFIG_DEVICE_INFO_GET_ADVANCED_COLOR_INFO => 9,
            DISPLAYCONFIG_DEVICE_INFO_TYPE::DISPLAYCONFIG_DEVICE_INFO_SET_ADVANCED_COLOR_STATE => 10,
            DISPLAYCONFIG_DEVICE_INFO_TYPE::DISPLAYCONFIG_DEVICE_INFO_GET_SDR_WHITE_LEVEL => 11,
            DISPLAYCONFIG_DEVICE_INFO_TYPE::DISPLAYCONFIG_DEVICE_INFO_GET_MONITOR_SPECIALIZATION => 12,
            DISPLAYCONFIG_DEVICE_INFO_TYPE::DISPLAYCONFIG_DEVICE_INFO_SET_MONITOR_SPECIALIZATION => 13,
            DISPLAYCONFIG_DEVICE_INFO_TYPE::DISPLAYCONFIG_DEVICE_INFO_SET_RESERVED1 => 14,
            DISPLAYCONFIG_DEVICE_INFO_TYPE::DISPLAYCONFIG_DEVICE_INFO_GET_ADVANCED_COLOR_INFO_2 => 15,
            DISPLAYCONFIG_DEVICE_INFO_TYPE::DISPLAYCONFIG_DEVICE_INFO_SET_HDR_STATE => 16,
            DISPLAYCONFIG_DEVICE_INFO_TYPE::DISPLAYCONFIG_DEVICE_INFO_SET_WCG_STATE => 17,
        }
    }
}

/// Byte size of the device information header.
pub const DEVICE_INFO_HEADER_SIZE: u32 = 20;

/// Byte size of a request that sets advanced colour or HDR state.
pub const SET_STATE_REQUEST_SIZE: u32 = 24;

/// Byte size of the advanced colour information (Windows 10/11).
pub const ADVANCED_COLOR_INFO_SIZE: u32 = 32;

/// Byte size of the advanced colour information (Windows 11 24H2).
pub const ADVANCED_COLOR_INFO_2_SIZE: u32 = 36;

/// Header of every device information request.
#[derive(Debug, Clone, Copy, PartialEq, Eq, Structural)]
pub struct DISPLAYCONFIG_DEVICE_INFO_HEADER {
    /// Kind of information
    pub type_: DISPLAYCONFIG_DEVICE_INFO_TYPE,
    /// Size in bytes of the whole request, header included
    pub size: u32,
    /// Adapter
    pub adapterId: LUID,
    /// Source or target identifier
    pub id: u32,
}

/// Advanced colour information (Windows 10/11 before 24H2).
#[derive(Debug, Clone, Copy, PartialEq, Eq, Structural)]
pub struct DISPLAYCONFIG_GET_ADVANCED_COLOR_INFO {
    /// Header
    pub header: DISPLAYCONFIG_DEVICE_INFO_HEADER,
    /// Bit fields
    pub value: u32,
    /// Colour encoding
    pub colorEncoding: u32,
    /// Bits per colour channel
    pub bitsPerColorChannel: u32,
}

impl DISPLAYCONFIG_GET_ADVANCED_COLOR_INFO {
    /// An empty request for the given display.
    pub fn request(adapter_id: LUID, target_id: u32) -> (info: Self)
        ensures
            info.header.type_
                == DISPLAYCONFIG_DEVICE_INFO_TYPE::DISPLAYCONFIG_DEVICE_INFO_GET_ADVANCED_COLOR_INFO,
            info.header.size == ADVANCED_COLOR_INFO_SIZE,
            info.header.adapterId == adapter_id,
            info.header.id == target_id,
            info.value == 0,
            info.colorEncoding == 0,
            info.bitsPerColorChannel == 0,
    {
        DISPLAYCONFIG_GET_ADVANCED_COLOR_INFO {
            header: DISPLAYCONFIG_DEVICE_INFO_HEADER {
                type_: DISPLAYCONFIG_DEVICE_INFO_TYPE::DISPLAYCONFIG_DEVICE_INFO_GET_ADVANCED_COLOR_INFO,
                size: ADVANCED_COLOR_INFO_SIZE,
                adapterId: adapter_id,
                id: target_id,
            },
            value: 0,
            colorEncoding: 0,
            bitsPerColorChannel: 0,
        }
    }

    /// Advanced colour is supported (bit 0).
    pub fn advancedColorSupported(&self) -> (b: bool)
        ensures
            b == (self.value & 0x1 != 0),
    {
        (self.value & 0x1) != 0
    }

    /// Advanced colour is enabled (bit 1).
    pub fn advancedColorEnabled(&self) -> (b: bool)
        ensures
            b == (self.value & 0x2 != 0),
    {
        (self.value & 0x2) != 0
    }

    /// Wide colour gamut is enforced (bit 2).
    pub fn wideColorEnforced(&self) -> (b: bool)
        ensures
            b == (self.value & 0x4 != 0),
    {
        (self.value & 0x4) != 0
    }

    /// Advanced colour is force-disabled (bit 3).
    pub fn advancedColorForceDisabled(&self) -> (b: bool)
        ensures
            b == (self.value & 0x8 != 0),
    {
        (self.value & 0x8) != 0
    }
}

/// Advanced colour information (Windows 11 24H2 and later).
#[derive(Debug, Clone, Copy, PartialEq, Eq, Structural)]
pub struct DISPLAYCONFIG_GET_ADVANCED_COLOR_INFO_2 {
    /// Header
    pub header: DISPLAYCONFIG_DEVICE_INFO_HEADER,
    /// Bit fields
    pub value: u32,
    /// Colour encoding
    pub colorEncoding: u32,
    /// Bits per colour channel
    pub bitsPerColorChannel: u32,
    /// Active colour mode (SDR, WCG or HDR)
    pub activeColorMode: u32,
}

impl DISPLAYCONFIG_GET_ADVANCED_COLOR_INFO_2 {
    /// An empty request for the given display.
    pub fn request(adapter_id: LUID, target_id: u32) -> (info: Self)
        ensures
            info.header.type_
                == DISPLAYCONFIG_DEVICE_INFO_TYPE::DISPLAYCONFIG_DEVICE_INFO_GET_ADVANCED_COLOR_INFO_2,
            info.header.size == ADVANCED_COLOR_INFO_2_SIZE,
            info.header.adapterId == adapter_id,
            info.header.id == target_id,
            info.value == 0,
            info.colorEncoding == 0,
            info.bitsPerColorChannel == 0,
            info.activeColorMode == 0,
    {
        DISPLAYCONFIG_GET_ADVANCED_COLOR_INFO_2 {
            header: DISPLAYCONFIG_DEVICE_INFO_HEADER {
                type_: DISPLAYCONFIG_DEVICE_INFO_TYPE::DISPLAYCONFIG_DEVICE_INFO_GET_ADVANCED_COLOR_INFO_2,
                size: ADVANCED_COLOR_INFO_2_SIZE,
                adapterId: adapter_id,
                id: target_id,
            },
            value: 0,
            colorEncoding: 0,
            bitsPerColorChannel: 0,
            activeColorMode: 0,
        }
    }

    /// Advanced colour is supported (bit 0).
    pub fn advancedColorSupported(&self) -> (b: bool)
        ensures
            b == (self.value & 0x1 != 0),
    {
        (self.value & 0x1) != 0
    }

    /// Advanced colour is active (bit 1).
    pub fn advancedColorActive(&self) -> (b: bool)
        ensures
            b == (self.value & 0x2 != 0),
    {
        (self.value & 0x2) != 0
    }

    /// Advanced colour is limited by policy (bit 3).
    pub fn advancedColorLimitedByPolicy(&self) -> (b: bool)
        ensures
            b == (self.value & 0x8 != 0),
    {
        (self.value & 0x8) != 0
    }

    /// High dynamic range is supported (bit 4).
    pub fn highDynamicRangeSupported(&self) -> (b: bool)
        ensures
            b == (self.value & 0x10 != 0),
    {
        (self.value & 0x10) != 0
    }

    /// High dynamic range is enabled by the user (bit 5).
    pub fn highDynamicRangeUserEnabled(&self) -> (b: bool)
        ensures
            b == (self.value & 0x20 != 0),
    {
        (self.value & 0x20) != 0
    }

    /// Wide colour gamut is supported (bit 6).
    pub fn wideColorGamutSupported(&self) -> (b: bool)
        ensures
            b == (self.value & 0x40 != 0),
    {
        (self.value & 0x40) != 0
    }

    /// Wide colour is enabled by the user (bit 7).
    pub fn wideColorUserEnabled(&self) -> (b: bool)
        ensures
            b == (self.value & 0x80 != 0),
    {
        (self.value & 0x80) != 0
    }
}

/// Active colour mode of a display.
#[derive(Debug, Clone, Copy, PartialEq, Eq, Structural)]
pub enum DISPLAYCONFIG_ADVANCED_COLOR_MODE {
    DISPLAYCONFIG_ADVANCED_COLOR_MODE_SDR,
    DISPLAYCONFIG_ADVANCED_COLOR_MODE_WCG,
    DISPLAYCONFIG_ADVANCED_COLOR_MODE_HDR,
}

/// The numeric value that Windows uses for a colour mode.
pub open spec fn color_mode_code(m: DISPLAYCONFIG_ADVANCED_COLOR_MODE) -> u32 {
    match m {
        DISPLAYCONFIG_ADVANCED_COLOR_MODE::DISPLAYCONFIG_ADVANCED_COLOR_MODE_SDR => 0,
        DISPLAYCONFIG_ADVANCED_COLOR_MODE::DISPLAYCONFIG_ADVANCED_COLOR_MODE_WCG => 1,
        DISPLAYCONFIG_ADVANCED_COLOR_MODE::DISPLAYCONFIG_ADVANCED_COLOR_MODE_HDR => 2,
    }
}

impl DISPLAYCONFIG_ADVANCED_COLOR_MODE {
    /// The numeric value that Windows uses for this mode.
    pub fn code(&self) -> (c: u32)
        ensures
            c == color_mode_code(*self),
    {
        match self {
            DISPLAYCONFIG_ADVANCED_COLOR_MODE::DISPLAYCONFIG_ADVANCED_COLOR_MODE_SDR => 0,
            DISPLAYCONFIG_ADVANCED_COLOR_MODE::DISPLAYCONFIG_ADVANCED_COLOR_MODE_WCG => 1,
            DISPLAYCONFIG_ADVANCED_COLOR_MODE::DISPLAYCONFIG_ADVANCED_COLOR_MODE_HDR => 2,
        }
    }
}

/// Request to switch advanced colour on or off (Windows 10/11 before 24H2).
#[derive(Debug, Clone, Copy, PartialEq, Eq, Structural)]
pub struct DISPLAYCONFIG_SET_ADVANCED_COLOR_STATE {
    /// Header
    pub header: DISPLAYCONFIG_DEVICE_INFO_HEADER,
    /// Bit fields: bit 0 enables advanced colour
    pub value: u32,
}

/// The request that enables (bit 0 set) or disables advanced colour on one display.
pub open spec fn set_advanced_color_record(
    adapter_id: LUID,
    target_id: u32,
    enable: bool,
) -> DISPLAYCONFIG_SET_ADVANCED_COLOR_STATE {
    DISPLAYCONFIG_SET_ADVANCED_COLOR_STATE {
        header: DISPLAYCONFIG_DEVICE_INFO_HEADER {
            type_: DISPLAYCONFIG_DEVICE_INFO_TYPE::DISPLAYCONFIG_DEVICE_INFO_SET_ADVANCED_COLOR_STATE,
            size: SET_STATE_REQUEST_SIZE,
            adapterId: adapter_id,
            id: target_id,
        },
        value: if enable { 1u32 } else { 0u32 },
    }
}

impl DISPLAYCONFIG_SET_ADVANCED_COLOR_STATE {
    /// A request that enables or disables advanced colour on one display.
    pub fn new(adapter_id: LUID, target_id: u32, enable: bool) -> (s: Self)
        ensures
            s == set_advanced_color_record(adapter_id, target_id, enable),
    {
        DISPLAYCONFIG_SET_ADVANCED_COLOR_STATE {
            header: DISPLAYCONFIG_DEVICE_INFO_HEADER {
                type_: DISPLAYCONFIG_DEVICE_INFO_TYPE::DISPLAYCONFIG_DEVICE_INFO_SET_ADVANCED_COLOR_STATE,
                size: SET_STATE_REQUEST_SIZE,
                adapterId: adapter_id,
                id: target_id,
            },
            value: if enable { 1 } else { 0 },
        }
    }
}

/// Request to switch HDR on or off (Windows 11 24H2 and later).
#[derive(Debug, Clone, Copy, PartialEq, Eq, Structural)]
pub struct DISPLAYCONFIG_SET_HDR_STATE {
    /// Header
    pub header: DISPLAYCONFIG_DEVICE_INFO_HEADER,
    /// Bit fields: bit 0 enables HDR
    pub value: u32,
}

/// The request that enables (bit 0 set) or disables HDR on one display.
pub open spec fn set_hdr_state_record(
    adapter_id: LUID,
    target_id: u32,
    enable: bool,
) -> DISPLAYCONFIG_SET_HDR_STATE {
    DISPLAYCONFIG_SET_HDR_STATE {
        header: DISPLAYCONFIG_DEVICE_INFO_HEADER {
            type_: DISPLAYCONFIG_DEVICE_INFO_TYPE::DISPLAYCONFIG_DEVICE_INFO_SET_HDR_STATE,
            size: SET_STATE_REQUEST_SIZE,
            adapterId: adapter_id,
            id: target_id,
        },
        value: if enable { 1u32 } else { 0u32 },
    }
}

impl DISPLAYCONFIG_SET_HDR_STATE {
    /// A request that enables or disables HDR on one display.
    pub fn new(adapter_id: LUID, target_id: u32, enable: bool) -> (s: Self)
        ensures
            s == set_hdr_state_record(adapter_id, target_id, enable),
    {
        DISPLAYCONFIG_SET_HDR_STATE {
            header: DISPLAYCONFIG_DEVICE_INFO_HEADER {
                type_: DISPLAYCONFIG_DEVICE_INFO_TYPE::DISPLAYCONFIG_DEVICE_INFO_SET_HDR_STATE,
                size: SET_STATE_REQUEST_SIZE,
                adapterId: adapter_id,
                id: target_id,
            },
            value: if enable { 1 } else { 0 },
        }
    }
}

/// Flag for querying only the active display paths.
pub const QDC_ONLY_ACTIVE_PATHS: u32 = 0x00000002;

/// Flag of an active display path.
pub const DISPLAYCONFIG_PATH_ACTIVE: u32 = 0x00000001;

/// Two-dimensional size.
#[derive(Debug, Clone, Copy, PartialEq, Eq, Default, Structural)]
pub struct DISPLAYCONFIG_2DREGION {
    pub cx: u32,
    pub cy: u32,
}

/// Rational number.
#[derive(Debug, Clone, Copy, PartialEq, Eq, Default, Structural)]
pub struct DISPLAYCONFIG_RATIONAL {
    pub Numerator: u32,
    pub Denominator: u32,
}

/// Video signal description.
#[derive(Debug, Clone, Copy, PartialEq, Eq, Default, Structural)]
pub struct DISPLAYCONFIG_VIDEO_SIGNAL_INFO {
    pub pixelRate: u64,
    pub hSyncFreq: DISPLAYCONFIG_RATIONAL,
    pub vSyncFreq: DISPLAYCONFIG_RATIONAL,
    pub activeSize: DISPLAYCONFIG_2DREGION,
    pub totalSize: DISPLAYCONFIG_2DREGION,
    pub videoStandard: u32,
    pub scanLineOrdering: u32,
}

/// Target mode.
#[derive(Debug, Clone, Copy, PartialEq, Eq, Default, Structural)]
pub struct DISPLAYCONFIG_TARGET_MODE {
    pub targetVideoSignalInfo: DISPLAYCONFIG_VIDEO_SIGNAL_INFO,
}

/// Source mode.
#[derive(Debug, Clone, Copy, PartialEq, Eq, Default, Structural)]
pub struct DISPLAYCONFIG_SOURCE_MODE {
    pub width: u32,
    pub height: u32,
    pub pixelFormat: u32,
    pub position: DISPLAYCONFIG_2DREGION,
}

/// Kind of a mode record.
#[derive(Debug, Clone, Copy, PartialEq, Eq, Structural)]
pub enum DISPLAYCONFIG_MODE_INFO_TYPE {
    DISPLAYCONFIG_MODE_INFO_TYPE_SOURCE,
    DISPLAYCONFIG_MODE_INFO_TYPE_TARGET,
}

impl DISPLAYCONFIG_MODE_INFO_TYPE {
    /// The numeric value that Windows uses for this kind.
    pub fn code(&self) -> (c: u32)
        ensures
            c == (match *self {
                DISPLAYCONFIG_MODE_INFO_TYPE::DISPLAYCONFIG_MODE_INFO_TYPE_SOURCE => 1u32,
                DISPLAYCONFIG_MODE_INFO_TYPE::DISPLAYCONFIG_MODE_INFO_TYPE_TARGET => 2u32,
            }),
    {
        match self {
            DISPLAYCONFIG_MODE_INFO_TYPE::DISPLAYCONFIG_MODE_INFO_TYPE_SOURCE => 1,
            DISPLAYCONFIG_MODE_INFO_TYPE::DISPLAYCONFIG_MODE_INFO_TYPE_TARGET => 2,
        }
    }
}

} // verus!

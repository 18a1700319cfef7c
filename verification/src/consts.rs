//! Identifiers of the HID-over-GATT profile that the device exposes.

use vstd::prelude::*;

verus! {

/// Human Interface Device service.
pub const UUID_HID_SERVICE: u16 = 0x1812;

/// Battery service.
pub const UUID_BAS_SERVICE: u16 = 0x180F;

/// Device Information service.
pub const UUID_DIS_SERVICE: u16 = 0x180A;

pub const UUID_HID_INFO: u16 = 0x2A4A;

pub const UUID_HID_CONTROL_POINT: u16 = 0x2A4C;

pub const UUID_HID_PROTOCOL_MODE: u16 = 0x2A4E;

pub const UUID_HID_REPORT_MAP: u16 = 0x2A4B;

pub const UUID_HID_REPORT: u16 = 0x2A4D;

pub const UUID_BATTERY_LEVEL: u16 = 0x2A19;

pub const UUID_MFG_NAME: u16 = 0x2A29;

pub const UUID_MODEL_NUM: u16 = 0x2A24;

/// GAP appearance value advertised by the device (generic HID).
pub const PERIPHERAL_APPEARANCE: u16 = 0x03C0;

/// Report ID that prefixes every mouse report.
pub const RID_MOUSE: u8 = 0x01;

/// Report ID that prefixes every keyboard report.
pub const RID_KEYBD: u8 = 0x02;

} // verus!

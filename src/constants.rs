use vstd::prelude::*;

verus! {

/// USB vendor identifier of the device.
pub const VENDOR_ID: u16 = 0x27b8;

/// USB product identifier of the device.
pub const PRODUCT_ID: u16 = 0x01ed;

/// HID class request "Set Report".
pub const HID_SET_REPORT: u8 = 0x09;

/// HID report type "feature", in the high byte of the request value.
pub const HID_FEATURE: u16 = 0x0300;

/// The report identifier that leads every command buffer.
pub const REPORT_ID: u8 = 0x01;

/// Request type of a host-to-device, class-specific request to an interface.
pub const SET_REPORT_REQUEST_TYPE: u8 = 0x21;

/// How long a control transfer may take before it fails, in milliseconds.
pub const TRANSFER_TIMEOUT_MS: u64 = 1000;

/// Fade to RGB color: `{ 1, 'c', r, g, b, th, tl, n }`.
pub const FADE_COMMAND_ACTION: u8 = 0x63;

/// Set RGB color now: `{ 1, 'n', r, g, b, 0, 0, n }`.
pub const IMMEDIATE_COMMAND_ACTION: u8 = 0x6e;

/// Read current RGB color: `{ 1, 'r', n, 0, 0, 0, 0, n }`.
pub const READ_RGB_COMMAND_ACTION: u8 = 0x72;

/// Server-down tickle: `{ 1, 'D', on, th, tl, st, 0, 0 }`.
pub const SERVER_TICKLE_COMMAND_ACTION: u8 = 0x44;

/// Play a loop of pattern lines: `{ 1, 'p', on, sp, ep, c, 0, 0 }`.
pub const PLAY_LOOP_COMMAND_ACTION: u8 = 0x70;

/// Read back the play state: `{ 1, 'S', 0, 0, 0, 0, 0, 0 }`.
pub const PLAY_STATE_READ_BACK_COMMAND_ACTION: u8 = 0x53;

/// Set a color pattern line: `{ 1, 'P', r, g, b, th, tl, p }`.
pub const SET_COLOR_PATTERN_LINE_COMMAND_ACTION: u8 = 0x50;

/// Save the color patterns: `{ 1, 'W', 0, 0, 0, 0, 0, 0 }`.
pub const SAVE_COLOR_PATTERNS_COMMAND_ACTION: u8 = 0x57;

/// Read a color pattern line: `{ 1, 'R', 0, 0, 0, 0, 0, p }`.
pub const READ_COLOR_PATTERN_LINE_COMMAND_ACTION: u8 = 0x52;

/// Set the active LED: `{ 1, 'l', n, 0, 0, 0, 0, 0 }`.
pub const SET_LED_N_COMMAND_ACTION: u8 = 0x6c;

/// Read an EEPROM location: `{ 1, 'e', ad, 0, 0, 0, 0, 0 }`.
pub const READ_EEPROM_LOCATION_COMMAND_ACTION: u8 = 0x65;

/// Write an EEPROM location: `{ 1, 'E', ad, v, 0, 0, 0, 0 }`.
pub const WRITE_EEPROM_LOCATION_COMMAND_ACTION: u8 = 0x45;

/// Get the firmware version: `{ 1, 'v', 0, 0, 0, 0, 0, 0 }`.
pub const GET_VERSION_COMMAND_ACTION: u8 = 0x76;

/// Test command: `{ 1, '!', 0, 0, 0, 0, 0, 0 }`.
pub const TEST_COMMAND_ACTION: u8 = 0x21;

} // verus!

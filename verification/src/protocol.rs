//! Wire constants shared by every transport.

use vstd::prelude::*;

verus! {

/// First byte of a pointer datagram.
pub const HEADER_MOUSE: u8 = 0x20;

/// First byte of a key frame on the stream.
pub const HEADER_KEYBOARD: u8 = 0x10;

/// First byte of a mode-switch frame on the stream.
pub const HEADER_MODE_SWITCH: u8 = 0x30;

/// First byte of the two-byte reply to a mode switch.
pub const HEADER_MODE_ACK: u8 = 0x31;

/// First byte of a single-axis gamepad frame on the stream.
pub const HEADER_GAMEPAD_AXIS: u8 = 0x40;

/// First byte of a single-button gamepad frame on the stream.
pub const HEADER_GAMEPAD_BUTTON: u8 = 0x41;

/// First byte of a gamepad snapshot datagram.
pub const HEADER_GAMEPAD_SNAPSHOT: u8 = 0x42;

/// First byte of a discovery announcement.
pub const HEADER_DISCOVERY: u8 = 0x50;

/// Mode id of the mouse-and-keyboard mode.
pub const MODE_MOUSE_KEYBOARD: u8 = 0x01;

/// Mode id of the gamepad mode.
pub const MODE_GAMEPAD: u8 = 0x02;

/// Second byte of the reply to a mode switch that named no known mode.
pub const MODE_REFUSED: u8 = 0xFF;

/// Port that discovery announcements are broadcast to.
pub const DISCOVERY_PORT: u16 = 5557;

/// Pause between two discovery ticks, in milliseconds.
pub const DISCOVERY_INTERVAL_MS: u64 = 2000;

/// Reads two bytes as a signed 16-bit number, low byte first.
pub open spec fn i16_le(lo: u8, hi: u8) -> int {
    let unsigned = lo as int + 256 * (hi as int);
    if unsigned >= 32768 {
        unsigned - 65536
    } else {
        unsigned
    }
}

/// Decodes a signed little-endian 16-bit field.
pub fn read_i16_le(lo: u8, hi: u8) -> (value: i16)
    ensures
        value as int == i16_le(lo, hi),
{
    let unsigned: u16 = lo as u16 + 256 * (hi as u16);
    if unsigned >= 32768 {
        let shifted: i32 = unsigned as i32 - 65536;
        shifted as i16
    } else {
        unsigned as i16
    }
}

} // verus!

//! Linux input codes, taken from the `evdev` crate.
//!
//! The numbers are stated here as constants, for contracts and for the
//! tables of the controller layout. Where a decoder names a key, a button, a
//! relative axis or an event type, and where single axis updates name an
//! absolute axis, executable code asks `evdev` for the code through one of
//! the small functions below. Verus does not look into `evdev`, so the
//! equality that each of them promises is trusted, not proved.

use vstd::prelude::*;

verus! {

/// Event type of the end-of-batch marker.
pub const EV_SYNCHRONIZATION: u16 = 0x00;

/// Event type of key and button changes.
pub const EV_KEY: u16 = 0x01;

/// Event type of relative movement.
pub const EV_RELATIVE: u16 = 0x02;

/// Event type of absolute axis positions.
pub const EV_ABSOLUTE: u16 = 0x03;

/// Horizontal pointer movement.
pub const REL_X: u16 = 0x00;

/// Vertical pointer movement.
pub const REL_Y: u16 = 0x01;

/// Scroll wheel movement.
pub const REL_WHEEL: u16 = 0x08;

/// Absolute axis of the left stick, horizontal.
pub const ABS_X: u16 = 0x00;

/// Absolute axis of the left stick, vertical.
pub const ABS_Y: u16 = 0x01;

/// Absolute axis of the left trigger.
pub const ABS_Z: u16 = 0x02;

/// Absolute axis of the right stick, horizontal.
pub const ABS_RX: u16 = 0x03;

/// Absolute axis of the right stick, vertical.
pub const ABS_RY: u16 = 0x04;

/// Absolute axis of the right trigger.
pub const ABS_RZ: u16 = 0x05;

/// Absolute axis of the directional pad, horizontal.
pub const ABS_HAT0X: u16 = 0x10;

/// Absolute axis of the directional pad, vertical.
pub const ABS_HAT0Y: u16 = 0x11;

/// Left pointer button.
pub const BTN_LEFT: u16 = 0x110;

/// Right pointer button.
pub const BTN_RIGHT: u16 = 0x111;

/// Middle pointer button.
pub const BTN_MIDDLE: u16 = 0x112;

/// Lower face button of a gamepad (A).
pub const BTN_SOUTH: u16 = 0x130;

/// Right face button of a gamepad (B).
pub const BTN_EAST: u16 = 0x131;

/// Upper face button of a gamepad (X on this controller).
pub const BTN_NORTH: u16 = 0x133;

/// Left face button of a gamepad (Y on this controller).
pub const BTN_WEST: u16 = 0x134;

/// Left shoulder button.
pub const BTN_TL: u16 = 0x136;

/// Right shoulder button.
pub const BTN_TR: u16 = 0x137;

/// Back button.
pub const BTN_SELECT: u16 = 0x13a;

/// Start button.
pub const BTN_START: u16 = 0x13b;

/// Guide button.
pub const BTN_MODE: u16 = 0x13c;

/// Press of the left stick.
pub const BTN_THUMBL: u16 = 0x13d;

/// Press of the right stick.
pub const BTN_THUMBR: u16 = 0x13e;

/// `evdev::EventType::SYNCHRONIZATION`, claimed to be 0x00.
#[verifier::external_body]
pub(crate) fn ev_synchronization() -> (code: u16)
    ensures
        code == EV_SYNCHRONIZATION,
{
    evdev::EventType::SYNCHRONIZATION.0
}

/// `evdev::EventType::KEY`, claimed to be 0x01.
#[verifier::external_body]
pub(crate) fn ev_key() -> (code: u16)
    ensures
        code == EV_KEY,
{
    evdev::EventType::KEY.0
}

/// `evdev::EventType::RELATIVE`, claimed to be 0x02.
#[verifier::external_body]
pub(crate) fn ev_relative() -> (code: u16)
    ensures
        code == EV_RELATIVE,
{
    evdev::EventType::RELATIVE.0
}

/// `evdev::EventType::ABSOLUTE`, claimed to be 0x03.
#[verifier::external_body]
pub(crate) fn ev_absolute() -> (code: u16)
    ensures
        code == EV_ABSOLUTE,
{
    evdev::EventType::ABSOLUTE.0
}

/// `evdev::RelativeAxisType::REL_X`, claimed to be 0x00.
#[verifier::external_body]
pub(crate) fn rel_x() -> (code: u16)
    ensures
        code == REL_X,
{
    evdev::RelativeAxisType::REL_X.0
}

/// `evdev::RelativeAxisType::REL_Y`, claimed to be 0x01.
#[verifier::external_body]
pub(crate) fn rel_y() -> (code: u16)
    ensures
        code == REL_Y,
{
    evdev::RelativeAxisType::REL_Y.0
}

/// `evdev::RelativeAxisType::REL_WHEEL`, claimed to be 0x08.
#[verifier::external_body]
pub(crate) fn rel_wheel() -> (code: u16)
    ensures
        code == REL_WHEEL,
{
    evdev::RelativeAxisType::REL_WHEEL.0
}

/// `evdev::AbsoluteAxisType::ABS_X`, claimed to be 0x00.
#[verifier::external_body]
pub(crate) fn abs_x() -> (code: u16)
    ensures
        code == ABS_X,
{
    evdev::AbsoluteAxisType::ABS_X.0
}

/// `evdev::AbsoluteAxisType::ABS_Y`, claimed to be 0x01.
#[verifier::external_body]
pub(crate) fn abs_y() -> (code: u16)
    ensures
        code == ABS_Y,
{
    evdev::AbsoluteAxisType::ABS_Y.0
}

/// `evdev::AbsoluteAxisType::ABS_RX`, claimed to be 0x03.
#[verifier::external_body]
pub(crate) fn abs_rx() -> (code: u16)
    ensures
        code == ABS_RX,
{
    evdev::AbsoluteAxisType::ABS_RX.0
}

/// `evdev::AbsoluteAxisType::ABS_RY`, claimed to be 0x04.
#[verifier::external_body]
pub(crate) fn abs_ry() -> (code: u16)
    ensures
        code == ABS_RY,
{
    evdev::AbsoluteAxisType::ABS_RY.0
}

/// `evdev::AbsoluteAxisType::ABS_HAT0X`, claimed to be 0x10.
#[verifier::external_body]
pub(crate) fn abs_hat0x() -> (code: u16)
    ensures
        code == ABS_HAT0X,
{
    evdev::AbsoluteAxisType::ABS_HAT0X.0
}

/// `evdev::AbsoluteAxisType::ABS_HAT0Y`, claimed to be 0x11.
#[verifier::external_body]
pub(crate) fn abs_hat0y() -> (code: u16)
    ensures
        code == ABS_HAT0Y,
{
    evdev::AbsoluteAxisType::ABS_HAT0Y.0
}

/// `evdev::Key::BTN_LEFT`, claimed to be 0x110.
#[verifier::external_body]
pub(crate) fn btn_left() -> (code: u16)
    ensures
        code == BTN_LEFT,
{
    evdev::Key::BTN_LEFT.code()
}

/// `evdev::Key::BTN_RIGHT`, claimed to be 0x111.
#[verifier::external_body]
pub(crate) fn btn_right() -> (code: u16)
    ensures
        code == BTN_RIGHT,
{
    evdev::Key::BTN_RIGHT.code()
}

/// `evdev::Key::BTN_MIDDLE`, claimed to be 0x112.
#[verifier::external_body]
pub(crate) fn btn_middle() -> (code: u16)
    ensures
        code == BTN_MIDDLE,
{
    evdev::Key::BTN_MIDDLE.code()
}

/// `evdev::Key::BTN_SOUTH`, claimed to be 0x130.
#[verifier::external_body]
pub(crate) fn btn_south() -> (code: u16)
    ensures
        code == BTN_SOUTH,
{
    evdev::Key::BTN_SOUTH.code()
}

/// `evdev::Key::BTN_EAST`, claimed to be 0x131.
#[verifier::external_body]
pub(crate) fn btn_east() -> (code: u16)
    ensures
        code == BTN_EAST,
{
    evdev::Key::BTN_EAST.code()
}

/// `evdev::Key::BTN_NORTH`, claimed to be 0x133.
#[verifier::external_body]
pub(crate) fn btn_north() -> (code: u16)
    ensures
        code == BTN_NORTH,
{
    evdev::Key::BTN_NORTH.code()
}

/// `evdev::Key::BTN_WEST`, claimed to be 0x134.
#[verifier::external_body]
pub(crate) fn btn_west() -> (code: u16)
    ensures
        code == BTN_WEST,
{
    evdev::Key::BTN_WEST.code()
}

/// `evdev::Key::BTN_TL`, claimed to be 0x136.
#[verifier::external_body]
pub(crate) fn btn_tl() -> (code: u16)
    ensures
        code == BTN_TL,
{
    evdev::Key::BTN_TL.code()
}

/// `evdev::Key::BTN_TR`, claimed to be 0x137.
#[verifier::external_body]
pub(crate) fn btn_tr() -> (code: u16)
    ensures
        code == BTN_TR,
{
    evdev::Key::BTN_TR.code()
}

/// `evdev::Key::BTN_SELECT`, claimed to be 0x13a.
#[verifier::external_body]
pub(crate) fn btn_select() -> (code: u16)
    ensures
        code == BTN_SELECT,
{
    evdev::Key::BTN_SELECT.code()
}

/// `evdev::Key::BTN_START`, claimed to be 0x13b.
#[verifier::external_body]
pub(crate) fn btn_start() -> (code: u16)
    ensures
        code == BTN_START,
{
    evdev::Key::BTN_START.code()
}

/// `evdev::Key::BTN_MODE`, claimed to be 0x13c.
#[verifier::external_body]
pub(crate) fn btn_mode() -> (code: u16)
    ensures
        code == BTN_MODE,
{
    evdev::Key::BTN_MODE.code()
}

/// `evdev::Key::BTN_THUMBL`, claimed to be 0x13d.
#[verifier::external_body]
pub(crate) fn btn_thumbl() -> (code: u16)
    ensures
        code == BTN_THUMBL,
{
    evdev::Key::BTN_THUMBL.code()
}

/// `evdev::Key::BTN_THUMBR`, claimed to be 0x13e.
#[verifier::external_body]
pub(crate) fn btn_thumbr() -> (code: u16)
    ensures
        code == BTN_THUMBR,
{
    evdev::Key::BTN_THUMBR.code()
}

} // verus!

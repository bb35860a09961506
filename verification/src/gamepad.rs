//! How one gamepad axis or button update becomes an event.
//!
//! These rules serve the updates that arrive one by one: sticks pass their
//! value through, a trigger becomes a button that is down while its value is
//! not zero, and a pad axis is reduced to its sign.

use vstd::prelude::*;
use crate::codes::{BTN_THUMBL, BTN_THUMBR};
use crate::codes::{abs_hat0x, abs_hat0y, abs_rx, abs_ry, abs_x, abs_y, btn_thumbl, btn_thumbr};
use crate::event::SemanticEvent;
use crate::xbox360_layout::Xbox360Layout;

verus! {

/// Position of the left trigger among the axes.
pub const AXIS_TRIGGER_LEFT: usize = 4;

/// Position of the right trigger among the axes.
pub const AXIS_TRIGGER_RIGHT: usize = 5;

/// Position of the horizontal pad axis among the axes.
pub const AXIS_HAT_X: usize = 6;

/// Position of the vertical pad axis among the axes.
pub const AXIS_HAT_Y: usize = 7;

/// The sign of a pad axis value: -1, 0 or 1.
pub open spec fn hat_sign(value: int) -> int {
    if value < 0 {
        -1
    } else if value > 0 {
        1
    } else {
        0
    }
}

/// Reduces a pad axis value to -1, 0 or 1 by its sign.
pub fn clamp_hat(value: i16) -> (clamped: i32)
    ensures
        clamped == hat_sign(value as int),
{
    if value < 0 {
        -1
    } else if value > 0 {
        1
    } else {
        0
    }
}

/// The events of one axis update: none for an axis that the layout does not
/// have.
pub open spec fn axis_update_events(axis: int, value: int) -> Seq<SemanticEvent> {
    match Xbox360Layout::axis_code_at(axis) {
        Some(code) => {
            if axis == AXIS_TRIGGER_LEFT {
                seq![SemanticEvent::Key { code: BTN_THUMBL, pressed: value != 0 }]
            } else if axis == AXIS_TRIGGER_RIGHT {
                seq![SemanticEvent::Key { code: BTN_THUMBR, pressed: value != 0 }]
            } else if axis == AXIS_HAT_X || axis == AXIS_HAT_Y {
                seq![SemanticEvent::AbsoluteAxis { code: code as u16, value: hat_sign(value) as i32 }]
            } else {
                seq![SemanticEvent::AbsoluteAxis { code: code as u16, value: value as i32 }]
            }
        },
        None => Seq::empty(),
    }
}

/// The events of one button update: none for a button that the layout does
/// not have. The button is down while `state` is above zero.
pub open spec fn button_update_events(button: int, state: u8) -> Seq<SemanticEvent> {
    match Xbox360Layout::button_code_at(button) {
        Some(code) => seq![SemanticEvent::Key { code, pressed: state > 0 }],
        None => Seq::empty(),
    }
}

/// Appends the events of one axis update.
pub fn push_axis_update(events: &mut Vec<SemanticEvent>, axis: usize, value: i16)
    ensures
        final(events)@ == old(events)@ + axis_update_events(axis as int, value as int),
{
    if axis == 0 {
        events.push(SemanticEvent::AbsoluteAxis { code: abs_x(), value: value as i32 });
    } else if axis == 1 {
        events.push(SemanticEvent::AbsoluteAxis { code: abs_y(), value: value as i32 });
    } else if axis == 2 {
        events.push(SemanticEvent::AbsoluteAxis { code: abs_rx(), value: value as i32 });
    } else if axis == 3 {
        events.push(SemanticEvent::AbsoluteAxis { code: abs_ry(), value: value as i32 });
    } else if axis == AXIS_TRIGGER_LEFT {
        events.push(SemanticEvent::Key { code: btn_thumbl(), pressed: value != 0 });
    } else if axis == AXIS_TRIGGER_RIGHT {
        events.push(SemanticEvent::Key { code: btn_thumbr(), pressed: value != 0 });
    } else if axis == AXIS_HAT_X {
        events.push(SemanticEvent::AbsoluteAxis { code: abs_hat0x(), value: clamp_hat(value) });
    } else if axis == AXIS_HAT_Y {
        events.push(SemanticEvent::AbsoluteAxis { code: abs_hat0y(), value: clamp_hat(value) });
    }
    assert(events@ =~= old(events)@ + axis_update_events(axis as int, value as int));
}

/// Appends the events of one button update.
pub fn push_button_update(events: &mut Vec<SemanticEvent>, button: usize, state: u8)
    ensures
        final(events)@ == old(events)@ + button_update_events(button as int, state),
{
    match Xbox360Layout::button_code(button) {
        Some(code) => {
            events.push(SemanticEvent::Key { code, pressed: state > 0 });
        },
        None => {},
    }
    assert(events@ =~= old(events)@ + button_update_events(button as int, state));
}

} // verus!

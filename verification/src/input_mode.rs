//! The input mode: which kind of stream frame is honoured at the moment.

use vstd::prelude::*;
use crate::protocol::{HEADER_MODE_ACK, MODE_GAMEPAD, MODE_MOUSE_KEYBOARD, MODE_REFUSED};

verus! {

/// How the frames of the stream are interpreted. The server starts in
/// `MouseKeyboard`; only a mode-switch frame changes it.
#[derive(Debug, Clone, Copy, PartialEq, Eq, Structural)]
pub enum InputMode {
    MouseKeyboard,
    Gamepad,
}

/// The mode that a mode id names, if any.
pub open spec fn mode_of_byte(b: u8) -> Option<InputMode> {
    if b == MODE_MOUSE_KEYBOARD {
        Some(InputMode::MouseKeyboard)
    } else if b == MODE_GAMEPAD {
        Some(InputMode::Gamepad)
    } else {
        None
    }
}

/// The mode after a mode-switch frame carrying `b`.
pub open spec fn mode_after_switch(mode: InputMode, b: u8) -> InputMode {
    match mode_of_byte(b) {
        Some(requested) => requested,
        None => mode,
    }
}

/// Second byte of the reply to a mode-switch frame carrying `b`.
pub open spec fn switch_reply_byte(b: u8) -> u8 {
    if mode_of_byte(b).is_some() {
        b
    } else {
        MODE_REFUSED
    }
}

impl InputMode {
    /// The mode the server starts in.
    pub fn initial() -> (mode: InputMode)
        ensures
            mode == InputMode::MouseKeyboard,
    {
        InputMode::MouseKeyboard
    }

    /// Decodes a mode id.
    pub fn from_byte(b: u8) -> (mode: Option<InputMode>)
        ensures
            mode == mode_of_byte(b),
    {
        if b == MODE_MOUSE_KEYBOARD {
            Some(InputMode::MouseKeyboard)
        } else if b == MODE_GAMEPAD {
            Some(InputMode::Gamepad)
        } else {
            None
        }
    }

    /// The mode id that names this mode.
    pub fn to_byte(self) -> (b: u8)
        ensures
            mode_of_byte(b) == Some(self),
            b == MODE_MOUSE_KEYBOARD || b == MODE_GAMEPAD,
    {
        match self {
            InputMode::MouseKeyboard => MODE_MOUSE_KEYBOARD,
            InputMode::Gamepad => MODE_GAMEPAD,
        }
    }

    /// Applies a mode-switch frame and returns the two-byte reply. A known
    /// mode id becomes the mode and is echoed; any other byte leaves the mode
    /// as it was and is answered with the refusal byte.
    pub fn switch(&mut self, b: u8) -> (reply: [u8; 2])
        ensures
            *final(self) == mode_after_switch(*old(self), b),
            reply[0] == HEADER_MODE_ACK,
            reply[1] == switch_reply_byte(b),
    {
        match InputMode::from_byte(b) {
            Some(requested) => {
                *self = requested;
                [HEADER_MODE_ACK, b]
            },
            None => [HEADER_MODE_ACK, MODE_REFUSED],
        }
    }
}

} // verus!

//! The button and axis layout of an Xbox 360 controller, as the kernel
//! reports it.

use vstd::prelude::*;
use crate::codes::{
    BTN_EAST, BTN_MODE, BTN_NORTH, BTN_SELECT, BTN_SOUTH, BTN_START, BTN_THUMBL, BTN_THUMBR, BTN_TL,
    BTN_TR, BTN_WEST,
};

verus! {

/// How one absolute axis is declared to the kernel.
#[derive(Debug, Clone, Copy, PartialEq, Eq, Structural)]
pub struct AxisSetup {
    pub code: u16,
    pub minimum: i32,
    pub maximum: i32,
    pub fuzz: i32,
    pub flat: i32,
}

/// The layout of the real controller: eleven buttons in the order A, B, X, Y,
/// LB, RB, Back, Start, Guide, L3, R3, and eight axes in the order left stick
/// x and y, right stick x and y, left and right trigger, pad x and y.
pub struct Xbox360Layout;

impl Xbox360Layout {
    pub const BUTTON_COUNT: usize = 11;

    pub const BUTTON_CODES: [u16; 11] = [
        BTN_SOUTH,
        BTN_EAST,
        BTN_NORTH,
        BTN_WEST,
        BTN_TL,
        BTN_TR,
        BTN_SELECT,
        BTN_START,
        BTN_MODE,
        BTN_THUMBL,
        BTN_THUMBR,
    ];

    pub const AXIS_COUNT: usize = 8;

    pub const AXIS_CODES: [i32; 8] = [0, 1, 3, 4, 2, 5, 16, 17];

    pub const STICK_MIN: i32 = -32768;

    pub const STICK_MAX: i32 = 32767;

    pub const TRIGGER_MIN: i32 = 0;

    pub const TRIGGER_MAX: i32 = 255;

    pub const HAT_MIN: i32 = -1;

    pub const HAT_MAX: i32 = 1;

    /// Key code of the button at a position, where there is one.
    pub open spec fn button_code_at(idx: int) -> Option<u16> {
        if 0 <= idx < 11 {
            Some(
                seq![
                    BTN_SOUTH,
                    BTN_EAST,
                    BTN_NORTH,
                    BTN_WEST,
                    BTN_TL,
                    BTN_TR,
                    BTN_SELECT,
                    BTN_START,
                    BTN_MODE,
                    BTN_THUMBL,
                    BTN_THUMBR,
                ][idx],
            )
        } else {
            None
        }
    }

    /// Axis code of the axis at a position, where there is one.
    pub open spec fn axis_code_at(idx: int) -> Option<i32> {
        if 0 <= idx < 8 {
            Some(seq![0i32, 1i32, 3i32, 4i32, 2i32, 5i32, 16i32, 17i32][idx])
        } else {
            None
        }
    }

    /// The declaration of the axis at a position, where there is one: the
    /// four stick axes span the stick range with a fuzz of 16 and a flat zone
    /// of 128, the two triggers span the trigger range, and the two pad axes
    /// span -1 to 1.
    pub open spec fn axis_setup_at(idx: int) -> Option<AxisSetup> {
        match Self::axis_code_at(idx) {
            Some(code) => Some(
                if idx < 4 {
                    AxisSetup {
                        code: code as u16,
                        minimum: Self::STICK_MIN,
                        maximum: Self::STICK_MAX,
                        fuzz: 16,
                        flat: 128,
                    }
                } else if idx < 6 {
                    AxisSetup {
                        code: code as u16,
                        minimum: Self::TRIGGER_MIN,
                        maximum: Self::TRIGGER_MAX,
                        fuzz: 0,
                        flat: 0,
                    }
                } else {
                    AxisSetup {
                        code: code as u16,
                        minimum: Self::HAT_MIN,
                        maximum: Self::HAT_MAX,
                        fuzz: 0,
                        flat: 0,
                    }
                },
            ),
            None => None,
        }
    }

    /// Key code of the button at position `idx`, or `None` past the last
    /// button.
    pub fn button_code(idx: usize) -> (code: Option<u16>)
        ensures
            code == Self::button_code_at(idx as int),
    {
        if idx < Self::BUTTON_COUNT {
            Some(Self::BUTTON_CODES[idx])
        } else {
            None
        }
    }

    /// The declaration of the axis at position `idx`, or `None` past the
    /// last axis.
    pub fn axis_setup(idx: usize) -> (setup: Option<AxisSetup>)
        ensures
            setup == Self::axis_setup_at(idx as int),
    {
        match Self::axis_code(idx) {
            Some(code) => {
                let code: u16 = code as u16;
                if idx < 4 {
                    Some(
                        AxisSetup {
                            code,
                            minimum: Self::STICK_MIN,
                            maximum: Self::STICK_MAX,
                            fuzz: 16,
                            flat: 128,
                        },
                    )
                } else if idx < 6 {
                    Some(
                        AxisSetup {
                            code,
                            minimum: Self::TRIGGER_MIN,
                            maximum: Self::TRIGGER_MAX,
                            fuzz: 0,
                            flat: 0,
                        },
                    )
                } else {
                    Some(
                        AxisSetup {
                            code,
                            minimum: Self::HAT_MIN,
                            maximum: Self::HAT_MAX,
                            fuzz: 0,
                            flat: 0,
                        },
                    )
                }
            },
            None => None,
        }
    }

    /// Axis code of the axis at position `idx`, or `None` past the last axis.
    pub fn axis_code(idx: usize) -> (code: Option<i32>)
        ensures
            code == Self::axis_code_at(idx as int),
    {
        if idx < Self::AXIS_COUNT {
            Some(Self::AXIS_CODES[idx])
        } else {
            None
        }
    }
}

} // verus!

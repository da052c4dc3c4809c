//! Controller buttons and axes as the wire numbers them.

use vstd::prelude::*;

verus! {

pub const BTN_DPAD_UP: u32 = 0x1;

pub const BTN_DPAD_DOWN: u32 = 0x2;

pub const BTN_DPAD_LEFT: u32 = 0x4;

pub const BTN_DPAD_RIGHT: u32 = 0x8;

pub const BTN_START: u32 = 0x10;

/// Select.
pub const BTN_BACK: u32 = 0x20;

pub const BTN_LS_CLICK: u32 = 0x40;

pub const BTN_RS_CLICK: u32 = 0x80;

pub const BTN_LB: u32 = 0x100;

pub const BTN_RB: u32 = 0x200;

pub const BTN_GUIDE: u32 = 0x400;

pub const BTN_A: u32 = 0x1000;

pub const BTN_B: u32 = 0x2000;

pub const BTN_X: u32 = 0x4000;

pub const BTN_Y: u32 = 0x8000;

pub const BTN_PADDLE1: u32 = 0x1_0000;

pub const BTN_PADDLE2: u32 = 0x2_0000;

pub const BTN_PADDLE3: u32 = 0x4_0000;

pub const BTN_PADDLE4: u32 = 0x8_0000;

pub const BTN_TOUCHPAD: u32 = 0x10_0000;

/// The extra button of a Steam Deck and others.
pub const BTN_MISC1: u32 = 0x20_0000;

pub const AXIS_LS_X: u32 = 0;

pub const AXIS_LS_Y: u32 = 1;

pub const AXIS_RS_X: u32 = 2;

pub const AXIS_RS_Y: u32 = 3;

pub const AXIS_LT: u32 = 4;

pub const AXIS_RT: u32 = 5;

/// Controllers one session forwards at most.
pub const MAX_PADS: u8 = 16;

/// A button of a physical controller.
#[derive(Debug, Clone, Copy, PartialEq, Eq, Structural)]
pub enum PadButton {
    South,
    East,
    West,
    North,
    Back,
    Start,
    Guide,
    LeftStick,
    RightStick,
    LeftShoulder,
    RightShoulder,
    DPadUp,
    DPadDown,
    DPadLeft,
    DPadRight,
    Touchpad,
    RightPaddle1,
    LeftPaddle1,
    RightPaddle2,
    LeftPaddle2,
    Misc1,
    Misc2,
    /// Any other button; the wire has none for it.
    Other,
}

/// An axis of a physical controller. Sticks read down as positive.
#[derive(Debug, Clone, Copy, PartialEq, Eq, Structural)]
pub enum PadAxis {
    LeftX,
    LeftY,
    RightX,
    RightY,
    TriggerLeft,
    TriggerRight,
}

/// The wire's bit for a button.
pub open spec fn bit_of_button(b: PadButton) -> Option<u32> {
    match b {
        PadButton::South => Some(BTN_A),
        PadButton::East => Some(BTN_B),
        PadButton::West => Some(BTN_X),
        PadButton::North => Some(BTN_Y),
        PadButton::Back => Some(BTN_BACK),
        PadButton::Start => Some(BTN_START),
        PadButton::Guide => Some(BTN_GUIDE),
        PadButton::LeftStick => Some(BTN_LS_CLICK),
        PadButton::RightStick => Some(BTN_RS_CLICK),
        PadButton::LeftShoulder => Some(BTN_LB),
        PadButton::RightShoulder => Some(BTN_RB),
        PadButton::DPadUp => Some(BTN_DPAD_UP),
        PadButton::DPadDown => Some(BTN_DPAD_DOWN),
        PadButton::DPadLeft => Some(BTN_DPAD_LEFT),
        PadButton::DPadRight => Some(BTN_DPAD_RIGHT),
        PadButton::Touchpad => Some(BTN_TOUCHPAD),
        PadButton::RightPaddle1 => Some(BTN_PADDLE1),
        PadButton::LeftPaddle1 => Some(BTN_PADDLE2),
        PadButton::RightPaddle2 => Some(BTN_PADDLE3),
        PadButton::LeftPaddle2 => Some(BTN_PADDLE4),
        PadButton::Misc1 => Some(BTN_MISC1),
        PadButton::Misc2 => None,
        PadButton::Other => None,
    }
}

/// The wire's bit for a button.
pub fn button_bit(b: PadButton) -> (r: Option<u32>)
    ensures
        r == bit_of_button(b),
        b == PadButton::South ==> r == Some(0x1000u32),
        b == PadButton::East ==> r == Some(0x2000u32),
        b == PadButton::West ==> r == Some(0x4000u32),
        b == PadButton::North ==> r == Some(0x8000u32),
        b == PadButton::Back ==> r == Some(0x20u32),
        b == PadButton::Start ==> r == Some(0x10u32),
        b == PadButton::Guide ==> r == Some(0x400u32),
        b == PadButton::LeftStick ==> r == Some(0x40u32),
        b == PadButton::RightStick ==> r == Some(0x80u32),
        b == PadButton::LeftShoulder ==> r == Some(0x100u32),
        b == PadButton::RightShoulder ==> r == Some(0x200u32),
        b == PadButton::DPadUp ==> r == Some(0x1u32),
        b == PadButton::DPadDown ==> r == Some(0x2u32),
        b == PadButton::DPadLeft ==> r == Some(0x4u32),
        b == PadButton::DPadRight ==> r == Some(0x8u32),
        b == PadButton::Touchpad ==> r == Some(0x10_0000u32),
        b == PadButton::RightPaddle1 ==> r == Some(0x1_0000u32),
        b == PadButton::LeftPaddle1 ==> r == Some(0x2_0000u32),
        b == PadButton::RightPaddle2 ==> r == Some(0x4_0000u32),
        b == PadButton::LeftPaddle2 ==> r == Some(0x8_0000u32),
        b == PadButton::Misc1 ==> r == Some(0x20_0000u32),
        (r is None) == (b == PadButton::Misc2 || b == PadButton::Other),
{
    match b {
        PadButton::South => Some(BTN_A),
        PadButton::East => Some(BTN_B),
        PadButton::West => Some(BTN_X),
        PadButton::North => Some(BTN_Y),
        PadButton::Back => Some(BTN_BACK),
        PadButton::Start => Some(BTN_START),
        PadButton::Guide => Some(BTN_GUIDE),
        PadButton::LeftStick => Some(BTN_LS_CLICK),
        PadButton::RightStick => Some(BTN_RS_CLICK),
        PadButton::LeftShoulder => Some(BTN_LB),
        PadButton::RightShoulder => Some(BTN_RB),
        PadButton::DPadUp => Some(BTN_DPAD_UP),
        PadButton::DPadDown => Some(BTN_DPAD_DOWN),
        PadButton::DPadLeft => Some(BTN_DPAD_LEFT),
        PadButton::DPadRight => Some(BTN_DPAD_RIGHT),
        PadButton::Touchpad => Some(BTN_TOUCHPAD),
        PadButton::RightPaddle1 => Some(BTN_PADDLE1),
        PadButton::LeftPaddle1 => Some(BTN_PADDLE2),
        PadButton::RightPaddle2 => Some(BTN_PADDLE3),
        PadButton::LeftPaddle2 => Some(BTN_PADDLE4),
        PadButton::Misc1 => Some(BTN_MISC1),
        PadButton::Misc2 => None,
        PadButton::Other => None,
    }
}

/// Two buttons never share a bit.
pub proof fn button_bits_are_distinct(a: PadButton, b: PadButton)
    requires
        bit_of_button(a) is Some,
        bit_of_button(a) == bit_of_button(b),
    ensures
        a == b,
{
}

/// The wire's axis and value for a reading.
pub open spec fn wire_axis(axis: PadAxis, v: i16) -> (u32, int) {
    let stick = if v < -32767 {
        -32767int
    } else {
        v as int
    };
    let trigger = if v < 0 {
        0int
    } else {
        v as int / 128
    };
    match axis {
        PadAxis::LeftX => (AXIS_LS_X, stick),
        PadAxis::LeftY => (AXIS_LS_Y, -stick),
        PadAxis::RightX => (AXIS_RS_X, stick),
        PadAxis::RightY => (AXIS_RS_Y, -stick),
        PadAxis::TriggerLeft => (AXIS_LT, trigger),
        PadAxis::TriggerRight => (AXIS_RT, trigger),
    }
}

/// The wire's axis and value for a reading. Sticks turn up positive; triggers scale to a byte.
pub fn axis_value(axis: PadAxis, v: i16) -> (r: (u32, i32))
    ensures
        r.0 == wire_axis(axis, v).0,
        r.1 == wire_axis(axis, v).1,
        r.0 < 6,
        axis == PadAxis::LeftX ==> r.0 == 0,
        axis == PadAxis::LeftY ==> r.0 == 1,
        axis == PadAxis::RightX ==> r.0 == 2,
        axis == PadAxis::RightY ==> r.0 == 3,
        axis == PadAxis::TriggerLeft ==> r.0 == 4,
        axis == PadAxis::TriggerRight ==> r.0 == 5,
        (axis == PadAxis::LeftX || axis == PadAxis::RightX) && v > -32768 ==> r.1 == v,
        (axis == PadAxis::LeftX || axis == PadAxis::RightX) && v == -32768 ==> r.1 == -32767,
        (axis == PadAxis::LeftY || axis == PadAxis::RightY) && v > -32768 ==> r.1 == -v,
        (axis == PadAxis::LeftY || axis == PadAxis::RightY) && v == -32768 ==> r.1 == 32767,
        (axis == PadAxis::TriggerLeft || axis == PadAxis::TriggerRight) && v >= 0 ==> r.1 == v / 128,
        (axis == PadAxis::TriggerLeft || axis == PadAxis::TriggerRight) && v < 0 ==> r.1 == 0,
{
    let stick: i32 = if v < -32767 {
        -32767
    } else {
        v as i32
    };
    let trigger: i32 = if v < 0 {
        0
    } else {
        v as i32 / 128
    };
    match axis {
        PadAxis::LeftX => (AXIS_LS_X, stick),
        PadAxis::LeftY => (AXIS_LS_Y, -stick),
        PadAxis::RightX => (AXIS_RS_X, stick),
        PadAxis::RightY => (AXIS_RS_Y, -stick),
        PadAxis::TriggerLeft => (AXIS_LT, trigger),
        PadAxis::TriggerRight => (AXIS_RT, trigger),
    }
}

/// A stick pushed sideways keeps its sign on the wire and one pushed up or down changes it: up
/// is negative on a controller and positive on the wire. A trigger's whole way becomes a byte's,
/// and each reading stays on its own side and axis.
pub proof fn the_wire_turns_sticks_up(v: i16)
    requires
        v > -32768,
    ensures
        wire_axis(PadAxis::LeftX, v) == (0u32, v as int),
        wire_axis(PadAxis::RightX, v) == (2u32, v as int),
        wire_axis(PadAxis::LeftY, v) == (1u32, -(v as int)),
        wire_axis(PadAxis::RightY, v) == (3u32, -(v as int)),
        wire_axis(PadAxis::TriggerLeft, v).0 == 4,
        wire_axis(PadAxis::TriggerRight, v).0 == 5,
        wire_axis(PadAxis::TriggerLeft, v).1 == wire_axis(PadAxis::TriggerRight, v).1,
        v >= 0 ==> 128 * wire_axis(PadAxis::TriggerLeft, v).1 <= v < 128 * (wire_axis(
            PadAxis::TriggerLeft,
            v,
        ).1 + 1),
        v < 0 ==> wire_axis(PadAxis::TriggerLeft, v).1 == 0,
{
}

/// A stick's wire value stays in the symmetric 16-bit range and a trigger's in a byte; turning
/// a stick round turns its value round.
pub proof fn axis_values_stay_in_range(axis: PadAxis, v: i16)
    ensures
        ({
            let (id, x) = wire_axis(axis, v);
            if id == AXIS_LT || id == AXIS_RT {
                0 <= x <= 255
            } else {
                -32767 <= x <= 32767
            }
        }),
{
}

} // verus!

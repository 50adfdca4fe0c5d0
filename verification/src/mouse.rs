//! Mouse buttons and the backend's codes for them.

use vstd::prelude::*;

verus! {

pub const MOUSE_LEFT: u16 = 0xffff - 22;
pub const MOUSE_RIGHT: u16 = 0xffff - 23;
pub const MOUSE_MIDDLE: u16 = 0xffff - 24;
pub const MOUSE_RELEASE: u16 = 0xffff - 25;
pub const MOUSE_WHEEL_UP: u16 = 0xffff - 26;
pub const MOUSE_WHEEL_DOWN: u16 = 0xffff - 27;

/// What a mouse event reports: a button pressed, its release, or a turn of
/// the wheel.
#[derive(Clone, Copy, PartialEq, Eq, Hash, Debug, Structural)]
pub enum Mouse {
    Left,
    Right,
    Middle,
    Release,
    WheelUp,
    WheelDown,
}

impl Mouse {
    /// The button that a mouse code stands for, if it is one of the six.
    pub open spec fn decoded(code: u16) -> Option<Mouse> {
        if code == MOUSE_LEFT {
            Some(Mouse::Left)
        } else if code == MOUSE_RIGHT {
            Some(Mouse::Right)
        } else if code == MOUSE_MIDDLE {
            Some(Mouse::Middle)
        } else if code == MOUSE_RELEASE {
            Some(Mouse::Release)
        } else if code == MOUSE_WHEEL_UP {
            Some(Mouse::WheelUp)
        } else if code == MOUSE_WHEEL_DOWN {
            Some(Mouse::WheelDown)
        } else {
            None
        }
    }

    /// The button reported for `code`: an unknown code counts as the left
    /// button.
    pub open spec fn decoded_or_left(code: u16) -> Mouse {
        match Self::decoded(code) {
            Some(button) => button,
            None => Mouse::Left,
        }
    }

    pub fn from_code(code: u16) -> (r: Option<Mouse>)
        ensures
            r == Self::decoded(code),
            r is Some <==> MOUSE_WHEEL_DOWN <= code <= MOUSE_LEFT,
    {
        match code {
            MOUSE_LEFT => Some(Mouse::Left),
            MOUSE_RIGHT => Some(Mouse::Right),
            MOUSE_MIDDLE => Some(Mouse::Middle),
            MOUSE_RELEASE => Some(Mouse::Release),
            MOUSE_WHEEL_UP => Some(Mouse::WheelUp),
            MOUSE_WHEEL_DOWN => Some(Mouse::WheelDown),
            _ => None,
        }
    }
}

} // verus!

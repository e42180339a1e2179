//! Gamepad state snapshots.
//!
//! A [`Gamepad`] is the complete set of button, stick and trigger values sent
//! in one update to a virtual Xbox 360 pad. The button field is the XInput
//! button bitmask; the bit constants below follow that layout.

use vstd::prelude::*;

verus! {

/// D-pad up, in the XInput button bitmask.
pub const BTN_DPAD_UP: u16 = 0x0001;

/// D-pad down.
pub const BTN_DPAD_DOWN: u16 = 0x0002;

/// D-pad left.
pub const BTN_DPAD_LEFT: u16 = 0x0004;

/// D-pad right.
pub const BTN_DPAD_RIGHT: u16 = 0x0008;

/// Start button.
pub const BTN_START: u16 = 0x0010;

/// Back (select) button.
pub const BTN_BACK: u16 = 0x0020;

/// Left shoulder bumper.
pub const BTN_LB: u16 = 0x0100;

/// Right shoulder bumper.
pub const BTN_RB: u16 = 0x0200;

/// A button.
pub const BTN_A: u16 = 0x1000;

/// B button.
pub const BTN_B: u16 = 0x2000;

/// X button.
pub const BTN_X: u16 = 0x4000;

/// Y button.
pub const BTN_Y: u16 = 0x8000;

/// One complete gamepad state snapshot: the button bitmask, both analog
/// stick axis pairs, and the two trigger values.
#[derive(Clone, Copy, Debug, PartialEq, Eq, Structural)]
pub struct Gamepad {
    /// XInput button bitmask; a set bit means the button is held.
    pub buttons: u16,
    /// Left trigger, 0 at rest.
    pub left_trigger: u8,
    /// Right trigger, 0 at rest.
    pub right_trigger: u8,
    /// Left stick horizontal axis; negative is left.
    pub thumb_lx: i16,
    /// Left stick vertical axis; negative is down.
    pub thumb_ly: i16,
    /// Right stick horizontal axis.
    pub thumb_rx: i16,
    /// Right stick vertical axis.
    pub thumb_ry: i16,
}

impl Gamepad {
    /// The neutral snapshot: every button released, both sticks centred,
    /// both triggers at rest.
    pub open spec fn neutral_spec() -> Gamepad {
        Gamepad {
            buttons: 0,
            left_trigger: 0,
            right_trigger: 0,
            thumb_lx: 0,
            thumb_ly: 0,
            thumb_rx: 0,
            thumb_ry: 0,
        }
    }

    /// Whether this snapshot is the neutral one.
    pub open spec fn is_neutral(self) -> bool {
        self == Gamepad::neutral_spec()
    }

    /// The snapshot that holds exactly the given buttons, everything else
    /// neutral.
    pub open spec fn press_spec(buttons: u16) -> Gamepad {
        Gamepad {
            buttons: buttons,
            left_trigger: 0,
            right_trigger: 0,
            thumb_lx: 0,
            thumb_ly: 0,
            thumb_rx: 0,
            thumb_ry: 0,
        }
    }

    /// The snapshot with the left stick at the given position, everything
    /// else neutral.
    pub open spec fn left_stick_spec(lx: i16, ly: i16) -> Gamepad {
        Gamepad {
            buttons: 0,
            left_trigger: 0,
            right_trigger: 0,
            thumb_lx: lx,
            thumb_ly: ly,
            thumb_rx: 0,
            thumb_ry: 0,
        }
    }

    /// Builds the neutral snapshot.
    pub fn neutral() -> (g: Gamepad)
        ensures
            g == Gamepad::neutral_spec(),
            g.is_neutral(),
    {
        Gamepad {
            buttons: 0,
            left_trigger: 0,
            right_trigger: 0,
            thumb_lx: 0,
            thumb_ly: 0,
            thumb_rx: 0,
            thumb_ry: 0,
        }
    }

    /// Builds the snapshot that holds exactly the given buttons.
    pub fn pressing(buttons: u16) -> (g: Gamepad)
        ensures
            g == Gamepad::press_spec(buttons),
    {
        Gamepad {
            buttons: buttons,
            left_trigger: 0,
            right_trigger: 0,
            thumb_lx: 0,
            thumb_ly: 0,
            thumb_rx: 0,
            thumb_ry: 0,
        }
    }

    /// Builds the snapshot with the left stick at the given position.
    pub fn left_stick(lx: i16, ly: i16) -> (g: Gamepad)
        ensures
            g == Gamepad::left_stick_spec(lx, ly),
    {
        Gamepad {
            buttons: 0,
            left_trigger: 0,
            right_trigger: 0,
            thumb_lx: lx,
            thumb_ly: ly,
            thumb_rx: 0,
            thumb_ry: 0,
        }
    }
}

} // verus!

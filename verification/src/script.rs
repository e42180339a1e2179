//! The fixed demonstration script for the virtual controller.
//!
//! The script is a fixed sequence of sixteen actions: eight face and shoulder
//! button presses, four D-pad presses, and four left-stick movements to the
//! axis extremes. Each action unfolds into exactly two state updates: the
//! action's snapshot held for a fixed duration, then the neutral snapshot
//! held for a second fixed duration. [`playback`] yields the full update
//! sequence that one run of the script sends, in order.

use vstd::prelude::*;

use crate::pad::BTN_A;
use crate::pad::BTN_B;
use crate::pad::BTN_BACK;
use crate::pad::BTN_DPAD_DOWN;
use crate::pad::BTN_DPAD_LEFT;
use crate::pad::BTN_DPAD_RIGHT;
use crate::pad::BTN_DPAD_UP;
use crate::pad::BTN_LB;
use crate::pad::BTN_RB;
use crate::pad::BTN_START;
use crate::pad::BTN_X;
use crate::pad::BTN_Y;
use crate::pad::Gamepad;

verus! {

/// How long a pressed button is held, in milliseconds.
pub const PRESS_HOLD_MS: u64 = 200;

/// The pause after a button press returns to neutral.
pub const PRESS_SETTLE_MS: u64 = 300;

/// How long a stick position is held, in milliseconds.
pub const STICK_HOLD_MS: u64 = 300;

/// The pause after a stick movement returns to neutral.
pub const STICK_SETTLE_MS: u64 = 200;

/// One atomic scripted action.
#[derive(Clone, Copy, Debug, PartialEq, Eq, Structural)]
pub enum Action {
    /// Press the given buttons, hold, then release.
    Press { buttons: u16 },
    /// Move the left stick to the given position, hold, then recentre.
    MoveLeftStick { lx: i16, ly: i16 },
}

/// One state update: the snapshot to send, and how long to hold it before
/// the next update.
#[derive(Clone, Copy, Debug, PartialEq, Eq, Structural)]
pub struct Update {
    /// The complete snapshot sent to the pad.
    pub pad: Gamepad,
    /// How long this snapshot is held, in milliseconds.
    pub hold_ms: u64,
}

impl Action {
    /// The snapshot that performing this action sends.
    pub open spec fn snapshot_spec(self) -> Gamepad {
        match self {
            Action::Press { buttons } => Gamepad::press_spec(buttons),
            Action::MoveLeftStick { lx, ly } => Gamepad::left_stick_spec(lx, ly),
        }
    }

    /// How long this action's snapshot is held.
    pub open spec fn hold_spec(self) -> u64 {
        match self {
            Action::Press { .. } => PRESS_HOLD_MS,
            Action::MoveLeftStick { .. } => STICK_HOLD_MS,
        }
    }

    /// How long the neutral reset after this action is held.
    pub open spec fn settle_spec(self) -> u64 {
        match self {
            Action::Press { .. } => PRESS_SETTLE_MS,
            Action::MoveLeftStick { .. } => STICK_SETTLE_MS,
        }
    }

    /// The two updates this action unfolds into: its own snapshot, then the
    /// neutral reset.
    pub open spec fn updates_spec(self) -> Seq<Update> {
        seq![
            Update { pad: self.snapshot_spec(), hold_ms: self.hold_spec() },
            Update { pad: Gamepad::neutral_spec(), hold_ms: self.settle_spec() },
        ]
    }

    /// Unfolds this action into the two updates it sends.
    pub fn updates(&self) -> (r: Vec<Update>)
        ensures
            r@ == self.updates_spec(),
    {
        let first = match self {
            Action::Press { buttons } => Update {
                pad: Gamepad::pressing(*buttons),
                hold_ms: PRESS_HOLD_MS,
            },
            Action::MoveLeftStick { lx, ly } => Update {
                pad: Gamepad::left_stick(*lx, *ly),
                hold_ms: STICK_HOLD_MS,
            },
        };
        let settle = match self {
            Action::Press { .. } => PRESS_SETTLE_MS,
            Action::MoveLeftStick { .. } => STICK_SETTLE_MS,
        };
        let mut r: Vec<Update> = Vec::new();
        r.push(first);
        r.push(Update { pad: Gamepad::neutral(), hold_ms: settle });
        proof {
            assert(r@ =~= self.updates_spec());
        }
        r
    }
}

/// The fixed script, in order: the eight face, shoulder and menu buttons,
/// the four D-pad directions, then the left stick driven to each of its
/// four axis extremes.
pub open spec fn script_spec() -> Seq<Action> {
    seq![
        Action::Press { buttons: BTN_A },
        Action::Press { buttons: BTN_B },
        Action::Press { buttons: BTN_X },
        Action::Press { buttons: BTN_Y },
        Action::Press { buttons: BTN_LB },
        Action::Press { buttons: BTN_RB },
        Action::Press { buttons: BTN_START },
        Action::Press { buttons: BTN_BACK },
        Action::Press { buttons: BTN_DPAD_UP },
        Action::Press { buttons: BTN_DPAD_DOWN },
        Action::Press { buttons: BTN_DPAD_LEFT },
        Action::Press { buttons: BTN_DPAD_RIGHT },
        Action::MoveLeftStick { lx: 32767i16, ly: 0i16 },
        Action::MoveLeftStick { lx: -32768i16, ly: 0i16 },
        Action::MoveLeftStick { lx: 0i16, ly: 32767i16 },
        Action::MoveLeftStick { lx: 0i16, ly: -32768i16 },
    ]
}

/// Builds the fixed script.
pub fn script() -> (r: Vec<Action>)
    ensures
        r@ == script_spec(),
{
    let mut r: Vec<Action> = Vec::new();
    r.push(Action::Press { buttons: BTN_A });
    r.push(Action::Press { buttons: BTN_B });
    r.push(Action::Press { buttons: BTN_X });
    r.push(Action::Press { buttons: BTN_Y });
    r.push(Action::Press { buttons: BTN_LB });
    r.push(Action::Press { buttons: BTN_RB });
    r.push(Action::Press { buttons: BTN_START });
    r.push(Action::Press { buttons: BTN_BACK });
    r.push(Action::Press { buttons: BTN_DPAD_UP });
    r.push(Action::Press { buttons: BTN_DPAD_DOWN });
    r.push(Action::Press { buttons: BTN_DPAD_LEFT });
    r.push(Action::Press { buttons: BTN_DPAD_RIGHT });
    r.push(Action::MoveLeftStick { lx: 32767, ly: 0 });
    r.push(Action::MoveLeftStick { lx: -32768, ly: 0 });
    r.push(Action::MoveLeftStick { lx: 0, ly: 32767 });
    r.push(Action::MoveLeftStick { lx: 0, ly: -32768 });
    proof {
        assert(r@ =~= script_spec());
    }
    r
}

/// The updates sent by the first `n` actions of the script, in order.
pub open spec fn playback_prefix_spec(n: int) -> Seq<Update>
    decreases n,
{
    if n <= 0 {
        Seq::empty()
    } else {
        playback_prefix_spec(n - 1) + script_spec()[n - 1].updates_spec()
    }
}

/// The full sequence of updates that one run of the script sends.
pub open spec fn playback_spec() -> Seq<Update> {
    playback_prefix_spec(script_spec().len() as int)
}

/// Builds the full sequence of updates that one run of the script sends,
/// in order: each scripted action's snapshot, immediately followed by the
/// neutral reset.
pub fn playback() -> (r: Vec<Update>)
    ensures
        r@ == playback_spec(),
{
    let actions = script();
    let mut r: Vec<Update> = Vec::new();
    let mut i: usize = 0;
    while i < actions.len()
        invariant
            actions@ == script_spec(),
            i <= actions.len(),
            r@ == playback_prefix_spec(i as int),
        decreases actions.len() - i,
    {
        let mut step = actions[i].updates();
        r.append(&mut step);
        i = i + 1;
    }
    r
}

proof fn lemma_playback_prefix_shape(n: int)
    requires
        0 <= n <= script_spec().len(),
    ensures
        playback_prefix_spec(n).len() == 2 * n,
        forall|j: int|
            0 <= j < 2 * n ==> #[trigger] playback_prefix_spec(n)[j] == (if j % 2 == 0 {
                Update {
                    pad: script_spec()[j / 2].snapshot_spec(),
                    hold_ms: script_spec()[j / 2].hold_spec(),
                }
            } else {
                Update {
                    pad: Gamepad::neutral_spec(),
                    hold_ms: script_spec()[j / 2].settle_spec(),
                }
            }),
    decreases n,
{
    if n > 0 {
        lemma_playback_prefix_shape(n - 1);
    }
}

/// The update sequence of one run matches the fixed script exactly: it
/// holds two updates for each of the sixteen scripted actions, in script
/// order. The update at each even position is the corresponding action's
/// snapshot held for that action's duration, and the update immediately
/// after it is the neutral reset held for that action's settle duration.
pub proof fn lemma_playback_matches_script()
    ensures
        script_spec().len() == 16,
        playback_spec().len() == 32,
        forall|j: int|
            0 <= j < playback_spec().len() ==> #[trigger] playback_spec()[j] == (if j % 2 == 0 {
                Update {
                    pad: script_spec()[j / 2].snapshot_spec(),
                    hold_ms: script_spec()[j / 2].hold_spec(),
                }
            } else {
                Update {
                    pad: Gamepad::neutral_spec(),
                    hold_ms: script_spec()[j / 2].settle_spec(),
                }
            }),
{
    lemma_playback_prefix_shape(script_spec().len() as int);
}

/// No state carries over between runs: every run of the script sends the
/// one sequence `playback_spec()`, so any two runs send identical update
/// sequences and identical neutral resets.
pub proof fn lemma_playback_deterministic(first: Seq<Update>, second: Seq<Update>)
    requires
        first == playback_spec(),
        second == playback_spec(),
    ensures
        first == second,
{
}

/// The scripted stick movements reach exactly the representable extremes:
/// the four stick actions drive the moved axis to `i16::MAX` for "right"
/// and "up" and to `i16::MIN` for "left" and "down", the snapshots sent
/// for them carry exactly those values, and every other scripted action
/// is a button press.
pub proof fn lemma_stick_extremes()
    ensures
        script_spec()[12] == (Action::MoveLeftStick { lx: i16::MAX, ly: 0i16 }),
        script_spec()[13] == (Action::MoveLeftStick { lx: i16::MIN, ly: 0i16 }),
        script_spec()[14] == (Action::MoveLeftStick { lx: 0i16, ly: i16::MAX }),
        script_spec()[15] == (Action::MoveLeftStick { lx: 0i16, ly: i16::MIN }),
        playback_spec()[24].pad == Gamepad::left_stick_spec(i16::MAX, 0i16),
        playback_spec()[26].pad == Gamepad::left_stick_spec(i16::MIN, 0i16),
        playback_spec()[28].pad == Gamepad::left_stick_spec(0i16, i16::MAX),
        playback_spec()[30].pad == Gamepad::left_stick_spec(0i16, i16::MIN),
        forall|i: int|
            0 <= i < script_spec().len() && !(12 <= i < 16) ==> (#[trigger] script_spec()[i])
                is Press,
{
    lemma_playback_matches_script();
}

} // verus!

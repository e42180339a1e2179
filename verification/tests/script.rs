use rein::pad::{
    Gamepad, BTN_A, BTN_B, BTN_BACK, BTN_DPAD_DOWN, BTN_DPAD_LEFT, BTN_DPAD_RIGHT, BTN_DPAD_UP,
    BTN_LB, BTN_RB, BTN_START, BTN_X, BTN_Y,
};
use rein::script::{
    playback, script, Action, Update, PRESS_HOLD_MS, PRESS_SETTLE_MS, STICK_HOLD_MS,
    STICK_SETTLE_MS,
};

fn neutral() -> Gamepad {
    Gamepad {
        buttons: 0,
        left_trigger: 0,
        right_trigger: 0,
        thumb_lx: 0,
        thumb_ly: 0,
        thumb_rx: 0,
        thumb_ry: 0,
    }
}

#[test]
fn script_is_the_fixed_sixteen_actions() {
    let expected = vec![
        Action::Press { buttons: BTN_A },
        Action::Press { buttons: BTN_B },
        Action::Press { buttons: BTN_X },
        Action::Press { buttons: BTN_Y },
        Action::Press { buttons: BTN_LB },
        Action::Press { buttons: BTN_RB },
        Action::Press { buttons: BTN_START },
        Action::Press { buttons: BTN_BACK },
        Action::Press { buttons: BTN_DPAD_UP },
        Action::Press { buttons: BTN_DPAD_DOWN },
        Action::Press { buttons: BTN_DPAD_LEFT },
        Action::Press { buttons: BTN_DPAD_RIGHT },
        Action::MoveLeftStick { lx: 32767, ly: 0 },
        Action::MoveLeftStick { lx: -32768, ly: 0 },
        Action::MoveLeftStick { lx: 0, ly: 32767 },
        Action::MoveLeftStick { lx: 0, ly: -32768 },
    ];
    assert_eq!(script(), expected);
}

#[test]
fn button_bits_follow_the_xinput_layout() {
    assert_eq!(BTN_DPAD_UP, 0x0001);
    assert_eq!(BTN_DPAD_DOWN, 0x0002);
    assert_eq!(BTN_DPAD_LEFT, 0x0004);
    assert_eq!(BTN_DPAD_RIGHT, 0x0008);
    assert_eq!(BTN_START, 0x0010);
    assert_eq!(BTN_BACK, 0x0020);
    assert_eq!(BTN_LB, 0x0100);
    assert_eq!(BTN_RB, 0x0200);
    assert_eq!(BTN_A, 0x1000);
    assert_eq!(BTN_B, 0x2000);
    assert_eq!(BTN_X, 0x4000);
    assert_eq!(BTN_Y, 0x8000);
}

#[test]
fn each_action_is_followed_by_a_neutral_reset() {
    let actions = script();
    let updates = playback();
    assert_eq!(updates.len(), 2 * actions.len());
    for (i, action) in actions.iter().enumerate() {
        let sent = &updates[2 * i];
        let reset = &updates[2 * i + 1];
        match *action {
            Action::Press { buttons } => {
                assert_eq!(sent.pad.buttons, buttons);
                assert_eq!(sent.pad.thumb_lx, 0);
                assert_eq!(sent.pad.thumb_ly, 0);
                assert_eq!(sent.hold_ms, PRESS_HOLD_MS);
                assert_eq!(reset.hold_ms, PRESS_SETTLE_MS);
            }
            Action::MoveLeftStick { lx, ly } => {
                assert_eq!(sent.pad.buttons, 0);
                assert_eq!(sent.pad.thumb_lx, lx);
                assert_eq!(sent.pad.thumb_ly, ly);
                assert_eq!(sent.hold_ms, STICK_HOLD_MS);
                assert_eq!(reset.hold_ms, STICK_SETTLE_MS);
            }
        }
        assert_eq!(reset.pad, neutral());
    }
}

#[test]
fn first_update_presses_the_a_button() {
    let updates = playback();
    assert_eq!(
        updates[0],
        Update {
            pad: Gamepad {
                buttons: BTN_A,
                ..neutral()
            },
            hold_ms: 200,
        }
    );
    assert_eq!(
        updates[1],
        Update {
            pad: neutral(),
            hold_ms: 300,
        }
    );
}

#[test]
fn stick_updates_reach_the_signed_sixteen_bit_extremes() {
    let updates = playback();
    assert_eq!(updates[24].pad.thumb_lx, i16::MAX);
    assert_eq!(updates[24].pad.thumb_ly, 0);
    assert_eq!(updates[26].pad.thumb_lx, i16::MIN);
    assert_eq!(updates[26].pad.thumb_ly, 0);
    assert_eq!(updates[28].pad.thumb_lx, 0);
    assert_eq!(updates[28].pad.thumb_ly, i16::MAX);
    assert_eq!(updates[30].pad.thumb_lx, 0);
    assert_eq!(updates[30].pad.thumb_ly, i16::MIN);
    assert_eq!(updates[24].hold_ms, 300);
    assert_eq!(updates[25].pad, neutral());
    assert_eq!(updates[25].hold_ms, 200);
}

#[test]
fn running_the_script_twice_sends_identical_sequences() {
    let first = playback();
    let second = playback();
    assert_eq!(first, second);
    assert_eq!(script(), script());
}

#[test]
fn snapshot_builders_touch_only_their_fields() {
    let g = Gamepad::pressing(BTN_X | BTN_Y);
    assert_eq!(g.buttons, BTN_X | BTN_Y);
    assert_eq!(g.thumb_lx, 0);
    assert_eq!(g.thumb_ly, 0);
    assert_eq!(g.thumb_rx, 0);
    assert_eq!(g.thumb_ry, 0);
    assert_eq!(g.left_trigger, 0);
    assert_eq!(g.right_trigger, 0);

    let s = Gamepad::left_stick(-123, 456);
    assert_eq!(s.buttons, 0);
    assert_eq!(s.thumb_lx, -123);
    assert_eq!(s.thumb_ly, 456);

    assert_eq!(Gamepad::neutral(), neutral());
}

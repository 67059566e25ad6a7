use audio_capture::capture_events::{
    RecordingErrorEvent, RecordingWarningEvent, MICROPHONE_STALLED_ERROR,
};
use audio_capture::keyboard::{
    send_auto_submit_key, send_paste_key_combo, supported_keys, AutoSubmitKey, KeyboardStage,
    PasteMethod, VIRTUAL_KEYBOARD_NAME,
};
use evdev::KeyCode;

#[test]
fn paste_chords_press_and_release_in_order() {
    let ctrl = KeyCode::KEY_LEFTCTRL.code();
    let shift = KeyCode::KEY_LEFTSHIFT.code();
    let v = KeyCode::KEY_V.code();
    let insert = KeyCode::KEY_INSERT.code();
    assert_eq!(
        send_paste_key_combo(&PasteMethod::CtrlV).expect("keys"),
        vec![(ctrl, 1), (v, 1), (v, 0), (ctrl, 0)]
    );
    assert_eq!(
        send_paste_key_combo(&PasteMethod::CtrlShiftV).expect("keys"),
        vec![(ctrl, 1), (shift, 1), (v, 1), (v, 0), (shift, 0), (ctrl, 0)]
    );
    assert_eq!(
        send_paste_key_combo(&PasteMethod::ShiftInsert).expect("keys"),
        vec![(shift, 1), (insert, 1), (insert, 0), (shift, 0)]
    );
}

#[test]
fn other_paste_methods_are_refused() {
    assert_eq!(
        send_paste_key_combo(&PasteMethod::Other),
        Err("Unsupported Wayland paste method".to_string())
    );
}

#[test]
fn submit_chords_press_and_release_in_order() {
    let ctrl = KeyCode::KEY_LEFTCTRL.code();
    let meta = KeyCode::KEY_LEFTMETA.code();
    let enter = KeyCode::KEY_ENTER.code();
    assert_eq!(send_auto_submit_key(AutoSubmitKey::Enter), vec![(enter, 1), (enter, 0)]);
    assert_eq!(
        send_auto_submit_key(AutoSubmitKey::CtrlEnter),
        vec![(ctrl, 1), (enter, 1), (enter, 0), (ctrl, 0)]
    );
    assert_eq!(
        send_auto_submit_key(AutoSubmitKey::CmdEnter),
        vec![(meta, 1), (enter, 1), (enter, 0), (meta, 0)]
    );
}

#[test]
fn a_keyboard_supports_exactly_the_keys_of_a_chord() {
    let changes = send_paste_key_combo(&PasteMethod::CtrlShiftV).expect("keys");
    let keys = supported_keys(&changes);
    let mut codes: Vec<u16> = keys.attributes().iter().map(|key| key.code()).collect();
    codes.sort();
    let mut expected = vec![
        KeyCode::KEY_LEFTCTRL.code(),
        KeyCode::KEY_LEFTSHIFT.code(),
        KeyCode::KEY_V.code(),
    ];
    expected.sort();
    assert_eq!(codes, expected);
    assert!(keys.attributes().contains(KeyCode::KEY_V));
    assert!(!keys.attributes().contains(KeyCode::KEY_ENTER));
    assert_eq!(supported_keys(&[]).attributes().iter().count(), 0);
    assert!(supported_keys(&[(0x2ff, 1)]).attributes().contains(KeyCode::new(0x2ff)));
}

#[test]
fn every_chord_releases_what_it_presses() {
    let chords = [
        send_paste_key_combo(&PasteMethod::CtrlV).expect("keys"),
        send_paste_key_combo(&PasteMethod::CtrlShiftV).expect("keys"),
        send_paste_key_combo(&PasteMethod::ShiftInsert).expect("keys"),
        send_auto_submit_key(AutoSubmitKey::CmdEnter),
    ];
    for chord in chords {
        let mut held: Vec<u16> = Vec::new();
        for (code, state) in chord {
            if state == 1 {
                held.push(code);
            } else {
                held.retain(|key| *key != code);
            }
        }
        assert!(held.is_empty());
    }
}

#[test]
fn keyboard_failures_name_their_step() {
    assert_eq!(KeyboardStage::Open.report("x"), "Failed to open /dev/uinput: x");
    assert_eq!(
        KeyboardStage::Configure.report("x"),
        "Failed to configure the Wayland keyboard: x"
    );
    assert_eq!(KeyboardStage::Create.report("x"), "Failed to create the Wayland keyboard: x");
    assert_eq!(KeyboardStage::Emit.report("x"), "Failed to emit Wayland keyboard input: x");
    assert!(VIRTUAL_KEYBOARD_NAME.starts_with("handy-keys passthrough: "));
}

#[test]
fn events_carry_what_they_were_made_with() {
    let event = RecordingErrorEvent::new(
        MICROPHONE_STALLED_ERROR.to_string(),
        Some("no audio".to_string()),
    );
    assert_eq!(event.error_type, "microphone_stalled");
    assert_eq!(event.detail.as_deref(), Some("no audio"));
    let warning = RecordingWarningEvent::audio_dropped(600);
    assert_eq!(warning.warning_type, "audio_dropped");
    assert_eq!(warning.dropped_samples, 600);
}

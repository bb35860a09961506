use retro_control::event::SemanticEvent;
use retro_control::input_mode::InputMode;
use retro_control::stream::{
    decode_stream, frame_payload_len, is_connection_closed, map_keyboard_key, next_frame,
    process_keyboard_event, ReadFailure,
};

fn key(code: u16, pressed: bool) -> SemanticEvent {
    SemanticEvent::Key { code, pressed }
}

fn nothing() -> Vec<SemanticEvent> {
    Vec::new()
}

#[test]
fn payload_lengths_follow_the_header() {
    assert_eq!(frame_payload_len(0x30), 1);
    assert_eq!(frame_payload_len(0x10), 2);
    assert_eq!(frame_payload_len(0x40), 3);
    assert_eq!(frame_payload_len(0x41), 2);
    assert_eq!(frame_payload_len(0x00), 0);
    assert_eq!(frame_payload_len(0x42), 0);
    assert_eq!(frame_payload_len(0xFF), 0);
}

#[test]
fn scancode_quirks_are_remapped() {
    assert_eq!(map_keyboard_key(69), 12);
    assert_eq!(map_keyboard_key(70), 13);
    assert_eq!(map_keyboard_key(81), 78);
    assert_eq!(map_keyboard_key(0), 0);
    assert_eq!(map_keyboard_key(30), 30);
    assert_eq!(map_keyboard_key(68), 68);
    assert_eq!(map_keyboard_key(71), 71);
    assert_eq!(map_keyboard_key(255), 255);
}

#[test]
fn key_state_above_zero_is_pressed() {
    assert_eq!(process_keyboard_event(30, 1), key(30, true));
    assert_eq!(process_keyboard_event(30, 0), key(30, false));
    assert_eq!(process_keyboard_event(69, 200), key(12, true));
}

#[test]
fn keyboard_frame_in_gamepad_mode_is_skipped() {
    let mut mode = InputMode::Gamepad;
    let step = next_frame(&[0x10, 30, 1, 0x10], 0, &mut mode);
    assert_eq!(step.consumed, 3);
    assert_eq!(step.events, nothing());
    assert_eq!(step.reply, None);
    assert_eq!(mode, InputMode::Gamepad);
}

#[test]
fn gamepad_frames_in_keyboard_mode_are_skipped() {
    let mut mode = InputMode::MouseKeyboard;
    let step = next_frame(&[0x40, 0, 0x10, 0x20], 0, &mut mode);
    assert_eq!(step.consumed, 4);
    assert_eq!(step.events, nothing());
    let step = next_frame(&[0x41, 0, 1], 0, &mut mode);
    assert_eq!(step.consumed, 3);
    assert_eq!(step.events, nothing());
    assert_eq!(mode, InputMode::MouseKeyboard);
}

#[test]
fn mode_switch_is_acknowledged_and_keys_are_honoured() {
    let mut mode = InputMode::Gamepad;
    let step = next_frame(&[0x30, 0x01], 0, &mut mode);
    assert_eq!(step.consumed, 2);
    assert_eq!(step.reply, Some([0x31, 0x01]));
    assert_eq!(mode, InputMode::MouseKeyboard);
    let step = next_frame(&[0x10, 30, 1], 0, &mut mode);
    assert_eq!(step.events, vec![key(30, true)]);
}

#[test]
fn unknown_mode_byte_is_refused() {
    let mut mode = InputMode::MouseKeyboard;
    let step = next_frame(&[0x30, 0x7E], 0, &mut mode);
    assert_eq!(step.consumed, 2);
    assert_eq!(step.reply, Some([0x31, 0xFF]));
    assert_eq!(step.events, nothing());
    assert_eq!(mode, InputMode::MouseKeyboard);
    let mut mode = InputMode::Gamepad;
    let step = next_frame(&[0x30, 0x00], 0, &mut mode);
    assert_eq!(step.reply, Some([0x31, 0xFF]));
    assert_eq!(mode, InputMode::Gamepad);
}

#[test]
fn switch_to_gamepad_is_echoed() {
    let mut mode = InputMode::MouseKeyboard;
    let step = next_frame(&[0x30, 0x02], 0, &mut mode);
    assert_eq!(step.reply, Some([0x31, 0x02]));
    assert_eq!(mode, InputMode::Gamepad);
}

#[test]
fn gamepad_axis_frames_follow_the_axis_rules() {
    let mut mode = InputMode::Gamepad;
    let stick = next_frame(&[0x40, 0, 0x34, 0x12], 0, &mut mode);
    assert_eq!(stick.events, vec![SemanticEvent::AbsoluteAxis { code: 0, value: 0x1234 }]);
    let right = next_frame(&[0x40, 3, 0x00, 0x80], 0, &mut mode);
    assert_eq!(right.events, vec![SemanticEvent::AbsoluteAxis { code: 4, value: -32768 }]);
    let trigger = next_frame(&[0x40, 4, 0x05, 0x00], 0, &mut mode);
    assert_eq!(trigger.events, vec![key(0x13d, true)]);
    let trigger = next_frame(&[0x40, 5, 0x00, 0x00], 0, &mut mode);
    assert_eq!(trigger.events, vec![key(0x13e, false)]);
    let trigger = next_frame(&[0x40, 5, 0xFF, 0xFF], 0, &mut mode);
    assert_eq!(trigger.events, vec![key(0x13e, true)]);
    let hat = next_frame(&[0x40, 6, 0x00, 0x80], 0, &mut mode);
    assert_eq!(hat.events, vec![SemanticEvent::AbsoluteAxis { code: 16, value: -1 }]);
    let hat = next_frame(&[0x40, 7, 0x10, 0x27], 0, &mut mode);
    assert_eq!(hat.events, vec![SemanticEvent::AbsoluteAxis { code: 17, value: 1 }]);
    let hat = next_frame(&[0x40, 7, 0x00, 0x00], 0, &mut mode);
    assert_eq!(hat.events, vec![SemanticEvent::AbsoluteAxis { code: 17, value: 0 }]);
    let unknown = next_frame(&[0x40, 8, 0x01, 0x00], 0, &mut mode);
    assert_eq!(unknown.consumed, 4);
    assert_eq!(unknown.events, nothing());
}

#[test]
fn gamepad_button_frames_follow_the_layout() {
    let mut mode = InputMode::Gamepad;
    assert_eq!(next_frame(&[0x41, 0, 1], 0, &mut mode).events, vec![key(304, true)]);
    assert_eq!(next_frame(&[0x41, 6, 0], 0, &mut mode).events, vec![key(314, false)]);
    assert_eq!(next_frame(&[0x41, 10, 9], 0, &mut mode).events, vec![key(318, true)]);
    let unknown = next_frame(&[0x41, 11, 1], 0, &mut mode);
    assert_eq!(unknown.consumed, 3);
    assert_eq!(unknown.events, nothing());
}

#[test]
fn unknown_header_is_one_byte() {
    let mut mode = InputMode::MouseKeyboard;
    let step = next_frame(&[0x99, 0x10, 30, 1], 0, &mut mode);
    assert_eq!(step.consumed, 1);
    assert_eq!(step.events, nothing());
    assert_eq!(step.reply, None);
}

#[test]
fn incomplete_frame_consumes_nothing() {
    let mut mode = InputMode::MouseKeyboard;
    assert_eq!(next_frame(&[], 0, &mut mode).consumed, 0);
    assert_eq!(next_frame(&[0x10], 0, &mut mode).consumed, 0);
    assert_eq!(next_frame(&[0x10, 30], 0, &mut mode).consumed, 0);
    assert_eq!(next_frame(&[0x30], 0, &mut mode).consumed, 0);
    assert_eq!(next_frame(&[0x40, 0, 0], 0, &mut mode).consumed, 0);
    assert_eq!(next_frame(&[0x10, 30, 1], 3, &mut mode).consumed, 0);
    assert_eq!(next_frame(&[0x10, 30, 1], 9, &mut mode).consumed, 0);
    assert_eq!(mode, InputMode::MouseKeyboard);
}

#[test]
fn cursor_selects_the_frame() {
    let mut mode = InputMode::MouseKeyboard;
    let stream = [0x99, 0x10, 70, 1, 0x30, 0x02];
    let step = next_frame(&stream, 1, &mut mode);
    assert_eq!(step.consumed, 3);
    assert_eq!(step.events, vec![key(13, true)]);
    let step = next_frame(&stream, 4, &mut mode);
    assert_eq!(step.consumed, 2);
    assert_eq!(mode, InputMode::Gamepad);
}

#[test]
fn whole_stream_is_decoded_in_order() {
    let mut mode = InputMode::MouseKeyboard;
    let stream = [
        0x10, 30, 1, // key down, honoured
        0x30, 0x02, // to gamepad
        0x10, 30, 0, // key up, skipped
        0x41, 1, 1, // button B down
        0x77, // unknown
        0x30, 0x7E, // refused
        0x40, 6, 0xFF, 0xFF, // hat x = -1
        0x30, 0x01, // to mouse and keyboard
        0x10, 81, 1, // key down, remapped
        0x10, 5, // incomplete
    ];
    let outcome = decode_stream(&stream, &mut mode);
    assert_eq!(outcome.consumed, 23);
    assert_eq!(outcome.replies, vec![0x31, 0x02, 0x31, 0xFF, 0x31, 0x01]);
    assert_eq!(
        outcome.events,
        vec![
            key(30, true),
            key(305, true),
            SemanticEvent::AbsoluteAxis { code: 16, value: -1 },
            key(78, true),
        ]
    );
    assert_eq!(mode, InputMode::MouseKeyboard);
}

#[test]
fn empty_stream_decodes_to_nothing() {
    let mut mode = InputMode::Gamepad;
    let outcome = decode_stream(&[], &mut mode);
    assert_eq!(outcome.consumed, 0);
    assert_eq!(outcome.replies, Vec::<u8>::new());
    assert_eq!(outcome.events, nothing());
    assert_eq!(mode, InputMode::Gamepad);
}

#[test]
fn peer_disconnects_are_clean_exits() {
    assert!(is_connection_closed(ReadFailure::UnexpectedEof));
    assert!(is_connection_closed(ReadFailure::ConnectionReset));
    assert!(is_connection_closed(ReadFailure::ConnectionAborted));
    assert!(is_connection_closed(ReadFailure::BrokenPipe));
    assert!(!is_connection_closed(ReadFailure::Other));
}

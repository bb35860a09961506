use retro_control::input_mode::InputMode;

#[test]
fn initial_mode_is_mouse_keyboard() {
    assert_eq!(InputMode::initial(), InputMode::MouseKeyboard);
}

#[test]
fn mode_ids_are_decoded() {
    assert_eq!(InputMode::from_byte(0x01), Some(InputMode::MouseKeyboard));
    assert_eq!(InputMode::from_byte(0x02), Some(InputMode::Gamepad));
    assert_eq!(InputMode::from_byte(0x00), None);
    assert_eq!(InputMode::from_byte(0x03), None);
    assert_eq!(InputMode::from_byte(0x7E), None);
    assert_eq!(InputMode::from_byte(0xFF), None);
}

#[test]
fn mode_ids_round_trip() {
    assert_eq!(InputMode::MouseKeyboard.to_byte(), 0x01);
    assert_eq!(InputMode::Gamepad.to_byte(), 0x02);
    assert_eq!(InputMode::from_byte(InputMode::Gamepad.to_byte()), Some(InputMode::Gamepad));
}

#[test]
fn switch_echoes_known_modes() {
    let mut mode = InputMode::MouseKeyboard;
    assert_eq!(mode.switch(0x02), [0x31, 0x02]);
    assert_eq!(mode, InputMode::Gamepad);
    assert_eq!(mode.switch(0x02), [0x31, 0x02]);
    assert_eq!(mode, InputMode::Gamepad);
    assert_eq!(mode.switch(0x01), [0x31, 0x01]);
    assert_eq!(mode, InputMode::MouseKeyboard);
}

#[test]
fn switch_refuses_unknown_modes() {
    let mut mode = InputMode::Gamepad;
    assert_eq!(mode.switch(0x7E), [0x31, 0xFF]);
    assert_eq!(mode, InputMode::Gamepad);
    assert_eq!(mode.switch(0xFF), [0x31, 0xFF]);
    assert_eq!(mode, InputMode::Gamepad);
}

use retro_control::event::SemanticEvent;
use retro_control::snapshot::{
    finish_batch, parse_gamepad_snapshot, process_axes, process_buttons, GamepadWireMode,
    SnapshotDecoder,
};

const BUTTON_CODES: [u16; 11] = [304, 305, 307, 308, 310, 311, 314, 315, 316, 317, 318];

fn datagram(mask: u16, axes: [i16; 8]) -> Vec<u8> {
    let mut bytes = vec![0x42];
    bytes.extend_from_slice(&mask.to_le_bytes());
    for axis in axes {
        bytes.extend_from_slice(&axis.to_le_bytes());
    }
    bytes
}

fn abs(code: u16, value: i32) -> SemanticEvent {
    SemanticEvent::AbsoluteAxis { code, value }
}

fn key(code: u16, pressed: bool) -> SemanticEvent {
    SemanticEvent::Key { code, pressed }
}

fn buttons_of(mask: u16) -> Vec<SemanticEvent> {
    (0..11).map(|i| key(BUTTON_CODES[i], (mask >> i) & 1 == 1)).collect()
}

#[test]
fn snapshot_fields_are_parsed() {
    let bytes = datagram(0b0000_0101_1000_0001, [1, -1, 256, -256, 255, 0, -32768, 32767]);
    assert_eq!(bytes.len(), 19);
    let snapshot = parse_gamepad_snapshot(&bytes).unwrap();
    assert_eq!(
        snapshot.buttons,
        [true, false, false, false, false, false, false, true, true, false, true]
    );
    assert_eq!(snapshot.axes, [1, -1, 256, -256, 255, 0, -32768, 32767]);
}

#[test]
fn bits_above_the_eleventh_are_ignored() {
    let snapshot = parse_gamepad_snapshot(&datagram(0xF800, [0; 8])).unwrap();
    assert_eq!(snapshot.buttons, [false; 11]);
    let snapshot = parse_gamepad_snapshot(&datagram(0x07FF, [0; 8])).unwrap();
    assert_eq!(snapshot.buttons, [true; 11]);
}

#[test]
fn short_or_misheaded_snapshots_are_dropped() {
    let mut bytes = datagram(0, [0; 8]);
    bytes.pop();
    assert!(parse_gamepad_snapshot(&bytes).is_none());
    let mut bytes = datagram(0, [0; 8]);
    bytes[0] = 0x20;
    assert!(parse_gamepad_snapshot(&bytes).is_none());
    assert!(parse_gamepad_snapshot(&[]).is_none());
    let mut decoder = SnapshotDecoder::new();
    assert_eq!(decoder.decode(&bytes), Vec::<SemanticEvent>::new());
    assert_eq!(decoder.mode, GamepadWireMode::Undetected);
}

#[test]
fn longer_snapshots_are_accepted() {
    let mut bytes = datagram(1, [0; 8]);
    bytes.push(0xAA);
    assert!(parse_gamepad_snapshot(&bytes).is_some());
}

#[test]
fn buttons_map_to_the_layout() {
    let mut events = vec![SemanticEvent::Sync];
    let mut buttons = [false; 11];
    buttons[0] = true;
    buttons[10] = true;
    process_buttons(&buttons, &mut events);
    let mut expected = vec![SemanticEvent::Sync];
    expected.extend(buttons_of(0b100_0000_0001));
    assert_eq!(events, expected);
}

#[test]
fn analog_policy() {
    let mut mode = GamepadWireMode::Undetected;
    let mut events = Vec::new();
    process_axes(&mut mode, &[100, -200, 300, -400, 11, 10, -5, 7], &mut events);
    assert_eq!(mode, GamepadWireMode::Analog);
    assert_eq!(
        events,
        vec![
            abs(0, 100),
            abs(1, -200),
            abs(3, 300),
            abs(4, -400),
            abs(2, 11),
            key(0x13d, true),
            abs(5, 10),
            key(0x13e, false),
            abs(16, -1),
            abs(17, 1),
        ]
    );
}

#[test]
fn arcade_policy() {
    let mut mode = GamepadWireMode::Undetected;
    let mut events = vec![SemanticEvent::Sync];
    process_axes(&mut mode, &[-32768, 32767, 3, 4, 5, 6, 0, -9], &mut events);
    assert_eq!(mode, GamepadWireMode::Arcade);
    assert_eq!(
        events,
        vec![
            SemanticEvent::Sync,
            abs(0, -32768),
            abs(1, 32767),
            abs(16, -1),
            abs(17, 1),
            abs(3, 3),
            abs(4, 4),
            abs(2, 5),
            abs(5, 6),
            abs(16, 0),
            abs(17, -1),
        ]
    );
}

#[test]
fn arcade_threshold_is_twenty_thousand() {
    let mut mode = GamepadWireMode::Arcade;
    let mut events = Vec::new();
    process_axes(&mut mode, &[20000, -20000, 0, 0, 0, 0, 0, 0], &mut events);
    assert_eq!(events[2], abs(16, 1));
    assert_eq!(events[3], abs(17, -1));
    let mut events = Vec::new();
    process_axes(&mut mode, &[19999, -19999, 0, 0, 0, 0, 0, 0], &mut events);
    assert_eq!(events[2], abs(16, 0));
    assert_eq!(events[3], abs(17, 0));
}

#[test]
fn extremes_of_either_left_axis_latch_arcade() {
    for axes in [
        [-32768i16, 0, 0, 0, 0, 0, 0, 0],
        [-32767, 0, 0, 0, 0, 0, 0, 0],
        [32767, 0, 0, 0, 0, 0, 0, 0],
        [0, -32768, 0, 0, 0, 0, 0, 0],
        [0, -32767, 0, 0, 0, 0, 0, 0],
        [0, 32767, 0, 0, 0, 0, 0, 0],
    ] {
        let mut mode = GamepadWireMode::Undetected;
        process_axes(&mut mode, &axes, &mut Vec::new());
        assert_eq!(mode, GamepadWireMode::Arcade);
    }
    for axes in [
        [32766i16, -32766, 0, 0, 0, 0, 0, 0],
        [0, 0, 32767, -32768, 32767, -32768, 32767, -32768],
    ] {
        let mut mode = GamepadWireMode::Undetected;
        process_axes(&mut mode, &axes, &mut Vec::new());
        assert_eq!(mode, GamepadWireMode::Analog);
    }
}

#[test]
fn arcade_latch_is_sticky() {
    let mut decoder = SnapshotDecoder::new();
    decoder.decode(&datagram(0, [-32768, 0, 0, 0, 0, 0, 0, 0]));
    assert_eq!(decoder.mode, GamepadWireMode::Arcade);
    let events = decoder.decode(&datagram(0, [5000, 0, 0, 0, 50, 0, 0, 0]));
    assert_eq!(decoder.mode, GamepadWireMode::Arcade);
    let mut expected = buttons_of(0);
    expected.extend([
        abs(0, 5000),
        abs(1, 0),
        abs(16, 0),
        abs(17, 0),
        abs(3, 0),
        abs(4, 0),
        abs(2, 50),
        abs(5, 0),
        abs(16, 0),
        abs(17, 0),
        SemanticEvent::Sync,
    ]);
    assert_eq!(events, expected);
}

#[test]
fn analog_latch_is_sticky() {
    let mut decoder = SnapshotDecoder::new();
    decoder.decode(&datagram(0, [5000, 0, 0, 0, 0, 0, 0, 0]));
    assert_eq!(decoder.mode, GamepadWireMode::Analog);
    let events = decoder.decode(&datagram(0, [-32768, 32767, 0, 0, 0, 0, 0, 0]));
    assert_eq!(decoder.mode, GamepadWireMode::Analog);
    assert_eq!(events.len(), 22);
    assert_eq!(events[11], abs(0, -32768));
    assert_eq!(events[13], abs(3, 0));
    assert_eq!(events[16], key(0x13d, false));
}

#[test]
fn hat_is_clamped_on_both_paths() {
    for mode in [GamepadWireMode::Arcade, GamepadWireMode::Analog] {
        for (value, sign) in [(-32768i16, -1), (-1, -1), (0, 0), (1, 1), (32767, 1)] {
            let mut latch = mode;
            let mut events = Vec::new();
            process_axes(&mut latch, &[0, 0, 0, 0, 0, 0, value, value], &mut events);
            assert_eq!(events.len(), 10);
            assert_eq!(events[8], abs(16, sign));
            assert_eq!(events[9], abs(17, sign));
        }
    }
}

#[test]
fn batch_ends_with_exactly_one_sync() {
    let mut decoder = SnapshotDecoder::new();
    let events = decoder.decode(&datagram(0x0003, [1, 2, 3, 4, 5, 6, 7, 8]));
    assert_eq!(events.len(), 22);
    assert_eq!(events[21], SemanticEvent::Sync);
    assert_eq!(events.iter().filter(|e| **e == SemanticEvent::Sync).count(), 1);
    let mut expected = buttons_of(3);
    expected.extend([
        abs(0, 1),
        abs(1, 2),
        abs(3, 3),
        abs(4, 4),
        abs(2, 5),
        key(0x13d, false),
        abs(5, 6),
        key(0x13e, false),
        abs(16, 1),
        abs(17, 1),
        SemanticEvent::Sync,
    ]);
    assert_eq!(events, expected);
}

#[test]
fn finish_batch_seals_only_non_empty_batches() {
    assert_eq!(finish_batch(Vec::new()), Vec::<SemanticEvent>::new());
    assert_eq!(finish_batch(vec![key(1, true)]), vec![key(1, true), SemanticEvent::Sync]);
}

use retro_control::clients::{ActiveClients, ConnectionGuard};
use retro_control::discovery::{discovery_payload, discovery_tick};
use retro_control::protocol::{
    read_i16_le, DISCOVERY_INTERVAL_MS, DISCOVERY_PORT, HEADER_DISCOVERY, HEADER_GAMEPAD_AXIS,
    HEADER_GAMEPAD_BUTTON, HEADER_GAMEPAD_SNAPSHOT, HEADER_KEYBOARD, HEADER_MODE_ACK,
    HEADER_MODE_SWITCH, HEADER_MOUSE, MODE_GAMEPAD, MODE_MOUSE_KEYBOARD, MODE_REFUSED,
};

#[test]
fn wire_constants() {
    assert_eq!(HEADER_MOUSE, 0x20);
    assert_eq!(HEADER_KEYBOARD, 0x10);
    assert_eq!(HEADER_MODE_SWITCH, 0x30);
    assert_eq!(HEADER_MODE_ACK, 0x31);
    assert_eq!(HEADER_GAMEPAD_AXIS, 0x40);
    assert_eq!(HEADER_GAMEPAD_BUTTON, 0x41);
    assert_eq!(HEADER_GAMEPAD_SNAPSHOT, 0x42);
    assert_eq!(HEADER_DISCOVERY, 0x50);
    assert_eq!(MODE_MOUSE_KEYBOARD, 0x01);
    assert_eq!(MODE_GAMEPAD, 0x02);
    assert_eq!(MODE_REFUSED, 0xFF);
    assert_eq!(DISCOVERY_PORT, 5557);
    assert_eq!(DISCOVERY_INTERVAL_MS, 2000);
}

#[test]
fn signed_fields_are_little_endian() {
    assert_eq!(read_i16_le(0x00, 0x00), 0);
    assert_eq!(read_i16_le(0x01, 0x00), 1);
    assert_eq!(read_i16_le(0x00, 0x01), 256);
    assert_eq!(read_i16_le(0xFF, 0x7F), 32767);
    assert_eq!(read_i16_le(0x00, 0x80), -32768);
    assert_eq!(read_i16_le(0xFF, 0xFF), -1);
    assert_eq!(read_i16_le(0x34, 0x12), i16::from_le_bytes([0x34, 0x12]));
}

#[test]
fn payload_holds_both_ports_low_byte_first() {
    assert_eq!(discovery_payload(5556, 5555), [0x50, 0xB4, 0x15, 0xB3, 0x15]);
    assert_eq!(discovery_payload(0, 65535), [0x50, 0x00, 0x00, 0xFF, 0xFF]);
    assert_eq!(discovery_payload(0x1234, 1), [0x50, 0x34, 0x12, 0x01, 0x00]);
}

#[test]
fn discovery_is_suppressed_while_clients_are_active() {
    assert_eq!(discovery_tick(0, 5556, 5555), Some([0x50, 0xB4, 0x15, 0xB3, 0x15]));
    assert_eq!(discovery_tick(1, 5556, 5555), None);
    assert_eq!(discovery_tick(usize::MAX, 5556, 5555), None);
}

#[test]
fn discovery_resumes_when_the_last_client_leaves() {
    let mut clients = ActiveClients::new();
    assert!(discovery_tick(clients.active(), 1, 2).is_some());
    let first = ConnectionGuard::new(&mut clients);
    let second = ConnectionGuard::new(&mut clients);
    assert_eq!(clients.active(), 2);
    assert!(clients.any_active());
    assert!(discovery_tick(clients.active(), 1, 2).is_none());
    first.release(&mut clients);
    assert!(discovery_tick(clients.active(), 1, 2).is_none());
    second.release(&mut clients);
    assert_eq!(clients.active(), 0);
    assert!(!clients.any_active());
    assert!(discovery_tick(clients.active(), 1, 2).is_some());
}

#[test]
fn client_count_wraps_like_a_machine_counter() {
    let mut clients = ActiveClients { count: usize::MAX };
    let guard = ConnectionGuard::new(&mut clients);
    assert_eq!(clients.active(), 0);
    guard.release(&mut clients);
    assert_eq!(clients.active(), usize::MAX);
}

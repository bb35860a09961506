use retro_control::logger::{set_verbosity, Logger, Verbosity};
use retro_control::text::{hex_dump, push_decimal};

#[test]
fn verbosity_from_number() {
    assert_eq!(Verbosity::from_u8(0), Verbosity::Low);
    assert_eq!(Verbosity::from_u8(1), Verbosity::Medium);
    assert_eq!(Verbosity::from_u8(2), Verbosity::High);
    assert_eq!(Verbosity::from_u8(3), Verbosity::Low);
    assert_eq!(Verbosity::from_u8(255), Verbosity::Low);
}

#[test]
fn verbosity_to_number() {
    assert_eq!(Verbosity::Low.to_u8(), 0);
    assert_eq!(Verbosity::Medium.to_u8(), 1);
    assert_eq!(Verbosity::High.to_u8(), 2);
}

#[test]
fn messages_up_to_the_level_in_force_are_printed() {
    let mut logger = Logger::new();
    assert!(logger.allows(Verbosity::Low));
    assert!(!logger.allows(Verbosity::Medium));
    assert!(!logger.allows(Verbosity::High));
    set_verbosity(&mut logger, Verbosity::Medium);
    assert!(logger.allows(Verbosity::Low));
    assert!(logger.allows(Verbosity::Medium));
    assert!(!logger.allows(Verbosity::High));
    set_verbosity(&mut logger, Verbosity::High);
    assert!(logger.allows(Verbosity::High));
}

#[test]
fn event_numbers_count_up_and_wrap() {
    let mut logger = Logger::new();
    assert_eq!(logger.next_event_number(), 0);
    assert_eq!(logger.next_event_number(), 1);
    set_verbosity(&mut logger, Verbosity::High);
    assert_eq!(logger.next_event_number(), 2);
    logger.next_event = u64::MAX;
    assert_eq!(logger.next_event_number(), u64::MAX);
    assert_eq!(logger.next_event_number(), 0);
    assert_eq!(logger.verbosity, Verbosity::High);
}

#[test]
fn data_line_is_gated_by_level() {
    let mut logger = Logger::new();
    assert_eq!(logger.data_line(Verbosity::High, &[0x20, 0xFF]), None);
    set_verbosity(&mut logger, Verbosity::High);
    assert_eq!(logger.data_line(Verbosity::High, &[0x20, 0xFF]), Some("20 FF".to_string()));
    assert_eq!(logger.data_line(Verbosity::Low, &[]), Some(String::new()));
}

#[test]
fn bytes_are_dumped_as_upper_case_hex() {
    assert_eq!(hex_dump(&[]), "");
    assert_eq!(hex_dump(&[0x00]), "00");
    assert_eq!(hex_dump(&[0x0A, 0xB0, 0xFF, 0x09]), "0A B0 FF 09");
    let all: Vec<u8> = (0..=255).collect();
    let expected: Vec<String> = all.iter().map(|b| format!("{:02X}", b)).collect();
    assert_eq!(hex_dump(&all), expected.join(" "));
}

#[test]
fn numbers_are_written_in_decimal() {
    for n in [0u16, 1, 9, 10, 11, 99, 100, 255, 1000, 32767, 65535] {
        let mut out = String::from("x ");
        push_decimal(&mut out, n);
        assert_eq!(out, format!("x {}", n));
    }
}

#[test]
fn levels_are_ordered_as_their_numbers() {
    assert!(Verbosity::Low < Verbosity::Medium);
    assert!(Verbosity::Medium < Verbosity::High);
    assert!(Verbosity::Low <= Verbosity::Low);
    assert!(Verbosity::High > Verbosity::Low);
    let levels = [Verbosity::Low, Verbosity::Medium, Verbosity::High];
    for a in levels {
        for b in levels {
            assert_eq!(a <= b, a.to_u8() <= b.to_u8());
            let mut logger = Logger::new();
            set_verbosity(&mut logger, b);
            assert_eq!(logger.allows(a), a <= b);
        }
    }
}

use rs485::update_with;
use rs485::Rs485Flags;
use rs485::SerialRs485;

#[test]
fn empty_config_has_everything_clear() {
    let c = SerialRs485::new();
    assert_eq!(c.flags.bits, 0);
    assert!(!c.is_enabled());
    assert!(!c.is_rts_on_send());
    assert!(!c.is_rts_after_send());
    assert!(!c.is_rx_during_tx());
    assert_eq!(c.delay_rts_before_send, 0);
    assert_eq!(c.delay_rts_after_send, 0);
    assert_eq!(c.padding, [0u32; 5]);
}

#[test]
fn default_config_is_enabled_only() {
    let c = SerialRs485::default();
    assert!(c.is_enabled());
    assert!(!c.is_rts_on_send());
    assert!(!c.is_rts_after_send());
    assert!(!c.is_rx_during_tx());
    assert_eq!(c.flags.bits, Rs485Flags::SER_RS485_ENABLED);
    assert_eq!(c.delay_rts_before_send, 0);
    assert_eq!(c.delay_rts_after_send, 0);
}

#[test]
fn setters_compose_in_call_order() {
    let c = SerialRs485::new()
        .set_enabled(true)
        .set_rts_on_send(true)
        .set_rts_after_send(true)
        .set_rx_during_tx(true);
    assert_eq!(c.flags.bits, 0x01 | 0x02 | 0x04 | 0x10);
    let c = c.set_rts_on_send(false);
    assert_eq!(c.flags.bits, 0x01 | 0x04 | 0x10);
}

#[test]
fn setters_on_distinct_flags_commute() {
    let a = SerialRs485::default().set_rts_on_send(true).set_rx_during_tx(true);
    let b = SerialRs485::default().set_rx_during_tx(true).set_rts_on_send(true);
    assert_eq!(a.flags.bits, b.flags.bits);
    assert_eq!(a.to_bytes(), b.to_bytes());
}

#[test]
fn set_then_clear_restores_prior_bitmask() {
    let before = SerialRs485::default().delay_rts_before_send_ms(7);
    let after = before.set_rx_during_tx(true).set_rx_during_tx(false);
    assert_eq!(after.flags.bits, before.flags.bits);
    assert_eq!(after.delay_rts_before_send, 7);
    assert_eq!(after.delay_rts_after_send, 0);
    assert_eq!(after.to_bytes(), before.to_bytes());
}

#[test]
fn delays_are_independent() {
    let c = SerialRs485::default()
        .delay_rts_before_send_ms(123)
        .delay_rts_after_send_ms(456);
    assert_eq!(c.delay_rts_before_send, 123);
    assert_eq!(c.delay_rts_after_send, 456);
    let c = c.delay_rts_before_send_ms(789);
    assert_eq!(c.delay_rts_before_send, 789);
    assert_eq!(c.delay_rts_after_send, 456);
    assert_eq!(c.flags.bits, Rs485Flags::SER_RS485_ENABLED);
}

#[test]
fn layout_is_eight_little_endian_words() {
    let c = SerialRs485::new()
        .set_enabled(true)
        .set_rts_on_send(true)
        .delay_rts_before_send_ms(0x1234_5678)
        .delay_rts_after_send_ms(0x0000_0a0b);
    let b = c.to_bytes();
    assert_eq!(b.len(), 32);
    assert_eq!(&b[0..4], &[0x03, 0x00, 0x00, 0x00]);
    assert_eq!(&b[4..8], &[0x78, 0x56, 0x34, 0x12]);
    assert_eq!(&b[8..12], &[0x0b, 0x0a, 0x00, 0x00]);
    assert_eq!(&b[12..32], &[0u8; 20]);
}

#[test]
fn default_with_rts_after_send_encodes_five() {
    let c = SerialRs485::default()
        .set_rts_on_send(false)
        .set_rts_after_send(true)
        .delay_rts_before_send_ms(0)
        .delay_rts_after_send_ms(0);
    assert_eq!(c.flags.bits, 5);
    let b = c.to_bytes();
    assert_eq!(&b[0..4], &[0x05, 0x00, 0x00, 0x00]);
    assert_eq!(&b[4..12], &[0u8; 8]);
}

#[test]
fn bytes_round_trip_preserves_every_field() {
    let c = SerialRs485::default()
        .set_rts_after_send(true)
        .set_rx_during_tx(true)
        .delay_rts_before_send_ms(44)
        .delay_rts_after_send_ms(u32::MAX);
    let b = c.to_bytes();
    let d = SerialRs485::from_bytes(&b);
    assert_eq!(d.flags.bits, c.flags.bits);
    assert_eq!(d.delay_rts_before_send, c.delay_rts_before_send);
    assert_eq!(d.delay_rts_after_send, c.delay_rts_after_send);
    assert_eq!(d.padding, c.padding);
    assert_eq!(d.to_bytes(), b);
}

#[test]
fn unrecognized_flag_bits_and_reserved_words_pass_through() {
    let mut image = vec![0u8; 32];
    image[0] = 0x29; // ENABLED plus two bits this crate does not name
    image[12] = 0xde; // first reserved word
    image[31] = 0x7f; // last byte of the last reserved word
    let c = SerialRs485::from_bytes(&image);
    assert!(c.is_enabled());
    assert_eq!(c.flags.bits, 0x29);
    assert_eq!(c.padding[0], 0xde);
    // Touching the recognized flags must not disturb the unrecognized ones.
    let c = c.set_enabled(false).set_enabled(true).set_rts_on_send(true);
    assert_eq!(c.flags.bits, 0x2b);
    let out = c.to_bytes();
    assert_eq!(out[0], 0x2b);
    assert_eq!(out[12], 0xde);
    assert_eq!(out[31], 0x7f);
    assert_eq!(&out[1..4], &image[1..4]);
}

#[test]
fn from_bytes_reads_words_least_significant_byte_first() {
    let image: Vec<u8> = (0u8..32).collect();
    let c = SerialRs485::from_bytes(&image);
    assert_eq!(c.flags.bits, u32::from_le_bytes([0, 1, 2, 3]));
    assert_eq!(c.delay_rts_before_send, u32::from_le_bytes([4, 5, 6, 7]));
    assert_eq!(c.delay_rts_after_send, u32::from_le_bytes([8, 9, 10, 11]));
    assert_eq!(c.padding[4], u32::from_le_bytes([28, 29, 30, 31]));
    assert_eq!(c.to_bytes(), image);
}

#[test]
fn update_passes_a_load_failure_through_untouched() {
    let r: Result<SerialRs485, i32> = update_with(Err(13), |c| c.set_enabled(true));
    assert_eq!(r.unwrap_err(), 13);
}

#[test]
fn update_applies_the_mutation_on_a_loaded_config() {
    let loaded: Result<SerialRs485, i32> = Ok(SerialRs485::default());
    let r = update_with(loaded, |c| c.set_rts_after_send(true).delay_rts_after_send_ms(9));
    let stored = r.unwrap();
    assert_eq!(stored.flags.bits, 5);
    assert_eq!(stored.delay_rts_after_send, 9);
    assert_eq!(stored.delay_rts_before_send, 0);
}

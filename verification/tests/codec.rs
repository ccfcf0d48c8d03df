use driver::common::{
    clamp, decode_u16_from_bytes, encode_u16_as_bytes, RAZER_REPORT_ARGUMENT_SIZE,
    RAZER_REPORT_SIZE,
};
use driver::error::{DriverError, ProtocolDecodeFailure};
use driver::message::{RazerMessage, RazerMessageBuilder};

fn sample_builder() -> RazerMessageBuilder {
    let mut arguments = [0u8; 80];
    arguments[0] = 0x01;
    arguments[1] = 0x03;
    arguments[2] = 0x20;
    arguments[79] = 0x7f;
    RazerMessageBuilder {
        transaction_id: 0x3f,
        data_size: 0x07,
        command_class: 0x04,
        command_id: 0x05,
        arguments,
    }
}

fn xor_of(bytes: &[u8]) -> u8 {
    let mut crc = 0u8;
    for b in bytes {
        crc ^= *b;
    }
    crc
}

#[test]
fn sizes_are_fixed() {
    assert_eq!(RAZER_REPORT_SIZE, 90);
    assert_eq!(RAZER_REPORT_ARGUMENT_SIZE, 80);
    let message = sample_builder().build();
    assert_eq!(message.encode().len(), 90);
    assert_eq!(message.arguments().len(), 80);
}

#[test]
fn clamp_limits_from_both_sides() {
    assert_eq!(clamp(50, 100, 35000), 100);
    assert_eq!(clamp(100, 100, 35000), 100);
    assert_eq!(clamp(800, 100, 35000), 800);
    assert_eq!(clamp(35000, 100, 35000), 35000);
    assert_eq!(clamp(35001, 100, 35000), 35000);
    assert_eq!(clamp(65535, 100, 35000), 35000);
    assert_eq!(clamp(0, 1, 4), 1);
    assert_eq!(clamp(9, 1, 4), 4);
}

#[test]
fn clamp_with_crossed_bounds_gives_the_upper_bound() {
    assert_eq!(clamp(5, 10, 3), 3);
    assert_eq!(clamp(20, 10, 3), 3);
}

#[test]
fn big_endian_encoding_puts_the_high_byte_first() {
    assert_eq!(encode_u16_as_bytes(800), [0x03, 0x20]);
    assert_eq!(encode_u16_as_bytes(1800), [0x07, 0x08]);
    assert_eq!(encode_u16_as_bytes(0), [0x00, 0x00]);
    assert_eq!(encode_u16_as_bytes(0xffff), [0xff, 0xff]);
    assert_eq!(encode_u16_as_bytes(0x1234), [0x12, 0x34]);
}

#[test]
fn big_endian_decoding_reads_the_high_byte_first() {
    assert_eq!(decode_u16_from_bytes(&[0x03, 0x20]), 800);
    assert_eq!(decode_u16_from_bytes(&[0x07, 0x08]), 1800);
    assert_eq!(decode_u16_from_bytes(&[0x12, 0x34, 0x56]), 0x1234);
}

#[test]
fn big_endian_round_trip_for_every_value() {
    for value in 0..=u16::MAX {
        assert_eq!(decode_u16_from_bytes(&encode_u16_as_bytes(value)), value);
    }
}

#[test]
fn build_fills_the_fixed_fields_with_zero() {
    let message = sample_builder().build();
    assert_eq!(message.status, 0);
    assert_eq!(message.transaction_id, 0x3f);
    assert_eq!(message.remaining_packets, 0);
    assert_eq!(message.protocol_type, 0);
    assert_eq!(message.data_size, 0x07);
    assert_eq!(message.command_class, 0x04);
    assert_eq!(message.command_id, 0x05);
    assert_eq!(message.arguments, sample_builder().arguments);
    assert_eq!(message.reserved, 0);
}

#[test]
fn build_writes_the_checksum_of_bytes_2_to_87() {
    let message = sample_builder().build();
    let bytes = message.encode();
    assert_eq!(message.crc, xor_of(&bytes[2..88]));
    // data size, class, id and the four argument bytes that are set
    assert_eq!(message.crc, 0x07 ^ 0x04 ^ 0x05 ^ 0x01 ^ 0x03 ^ 0x20 ^ 0x7f);
    assert_eq!(message.crc, 0x5b);
    assert_eq!(bytes[88], 0x5b);
}

#[test]
fn checksum_is_deterministic() {
    let first = sample_builder().build();
    let second = sample_builder().build();
    assert_eq!(first.crc, second.crc);
    assert_eq!(first, second);
    assert_eq!(first.encode(), second.encode());
}

#[test]
fn checksum_does_not_cover_the_transaction_id() {
    let plain = sample_builder().build();
    let other = sample_builder().with_transaction_id(0x1f).build();
    assert_eq!(other.transaction_id, 0x1f);
    assert_eq!(plain.crc, other.crc);
}

#[test]
fn checksum_changes_with_any_byte_in_its_range() {
    let base = sample_builder().build();
    let reference = RazerMessageBuilder::calculate_crc(&base);
    assert_eq!(reference, base.crc);

    let mut changed = base;
    changed.remaining_packets ^= 0x0100;
    assert_ne!(RazerMessageBuilder::calculate_crc(&changed), reference);
    let mut changed = base;
    changed.remaining_packets ^= 0x0001;
    assert_ne!(RazerMessageBuilder::calculate_crc(&changed), reference);
    let mut changed = base;
    changed.protocol_type ^= 0x80;
    assert_ne!(RazerMessageBuilder::calculate_crc(&changed), reference);
    let mut changed = base;
    changed.data_size = changed.data_size.wrapping_add(1);
    assert_ne!(RazerMessageBuilder::calculate_crc(&changed), reference);
    let mut changed = base;
    changed.command_class ^= 0x01;
    assert_ne!(RazerMessageBuilder::calculate_crc(&changed), reference);
    let mut changed = base;
    changed.command_id ^= 0x01;
    assert_ne!(RazerMessageBuilder::calculate_crc(&changed), reference);
    for i in 0..80 {
        let mut changed = base;
        changed.arguments[i] ^= 0x10;
        assert_ne!(RazerMessageBuilder::calculate_crc(&changed), reference);
    }
}

#[test]
fn checksum_ignores_status_id_checksum_and_reserved() {
    let base = sample_builder().build();
    let reference = RazerMessageBuilder::calculate_crc(&base);

    let mut changed = base;
    changed.reserved = 0xaa;
    assert_eq!(RazerMessageBuilder::calculate_crc(&changed), reference);
    let mut changed = base;
    changed.crc = 0x00;
    assert_eq!(RazerMessageBuilder::calculate_crc(&changed), reference);
    let mut changed = base;
    changed.status = 0x02;
    assert_eq!(RazerMessageBuilder::calculate_crc(&changed), reference);
    let mut changed = base;
    changed.transaction_id = 0xff;
    assert_eq!(RazerMessageBuilder::calculate_crc(&changed), reference);
}

#[test]
fn encode_places_every_field_at_its_offset() {
    let mut arguments = [0u8; 80];
    for i in 0..80 {
        arguments[i] = 100 + i as u8;
    }
    let message = RazerMessage {
        status: 0x02,
        transaction_id: 0x3f,
        remaining_packets: 0x0102,
        protocol_type: 0x05,
        data_size: 0x26,
        command_class: 0x04,
        command_id: 0x86,
        arguments,
        crc: 0xcc,
        reserved: 0xdd,
    };
    let bytes = message.encode();
    assert_eq!(bytes[0], 0x02);
    assert_eq!(bytes[1], 0x3f);
    assert_eq!(bytes[2], 0x01);
    assert_eq!(bytes[3], 0x02);
    assert_eq!(bytes[4], 0x05);
    assert_eq!(bytes[5], 0x26);
    assert_eq!(bytes[6], 0x04);
    assert_eq!(bytes[7], 0x86);
    assert_eq!(&bytes[8..88], &arguments[..]);
    assert_eq!(bytes[88], 0xcc);
    assert_eq!(bytes[89], 0xdd);
}

#[test]
fn decode_reads_back_what_encode_wrote() {
    let message = sample_builder().build();
    let bytes = message.encode();
    assert_eq!(RazerMessage::decode(&bytes), Ok(message));

    let mut odd = message;
    odd.status = 0x02;
    odd.remaining_packets = 0xbeef;
    odd.protocol_type = 0x11;
    odd.reserved = 0x22;
    assert_eq!(RazerMessage::decode(&odd.encode()), Ok(odd));
}

#[test]
fn decode_does_not_verify_the_checksum() {
    let mut message = sample_builder().build();
    message.crc = message.crc.wrapping_add(1);
    let decoded = RazerMessage::decode(&message.encode()).unwrap();
    assert_eq!(decoded.crc, message.crc);
    assert_ne!(decoded.crc, RazerMessageBuilder::calculate_crc(&decoded));
}

#[test]
fn decode_refuses_every_other_size() {
    let size = DriverError::Decode(ProtocolDecodeFailure::ResponseSize);
    assert_eq!(RazerMessage::decode(&[]), Err(size));
    assert_eq!(RazerMessage::decode(&[0u8; 89]), Err(size));
    assert_eq!(RazerMessage::decode(&[0u8; 91]), Err(size));
    assert_eq!(RazerMessage::decode(&[0u8; 180]), Err(size));
    assert!(RazerMessage::decode(&[0u8; 90]).is_ok());
}

#[test]
fn default_builder_is_all_zero() {
    let builder = RazerMessageBuilder::default();
    assert_eq!(builder.transaction_id, 0);
    assert_eq!(builder.data_size, 0);
    assert_eq!(builder.command_class, 0);
    assert_eq!(builder.command_id, 0);
    assert_eq!(builder.arguments, [0u8; 80]);
    let message = builder.build();
    assert_eq!(message.encode(), [0u8; 90]);
}

#[test]
fn with_transaction_id_changes_nothing_else() {
    let before = sample_builder();
    let after = before.with_transaction_id(0x1f);
    assert_eq!(after.transaction_id, 0x1f);
    assert_eq!(after.data_size, before.data_size);
    assert_eq!(after.command_class, before.command_class);
    assert_eq!(after.command_id, before.command_id);
    assert_eq!(after.arguments, before.arguments);
}

use driver::chroma::{BreathingEffect, Color, ExtendedMatrixEffect, LedId};
use driver::common::{
    Dpi, DpiStages, ExtendedPollingRate, NormalPollingRate, VarStoreId,
};
use driver::error::{DriverError, ProtocolDecodeFailure};
use driver::message::{RazerMessage, RazerMessageBuilder};
use driver::responses::{
    decode_battery_level, decode_charging_status, decode_dpi, decode_dpi_stages,
    decode_polling_rate, BatteryLevel,
};

fn padded(prefix: &[u8]) -> [u8; 80] {
    let mut arguments = [0u8; 80];
    arguments[..prefix.len()].copy_from_slice(prefix);
    arguments
}

fn check(builder: RazerMessageBuilder, class: u8, id: u8, size: u8, prefix: &[u8]) {
    assert_eq!(builder.transaction_id, 0);
    assert_eq!(builder.command_class, class);
    assert_eq!(builder.command_id, id);
    assert_eq!(builder.data_size, size);
    assert_eq!(builder.arguments, padded(prefix));
}

fn response(prefix: &[u8]) -> RazerMessage {
    RazerMessage {
        status: 0x02,
        transaction_id: 0x3f,
        remaining_packets: 0,
        protocol_type: 0,
        data_size: 0,
        command_class: 0,
        command_id: 0,
        arguments: padded(prefix),
        crc: 0,
        reserved: 0,
    }
}

const RED: Color = Color { r: 0xff, g: 0x01, b: 0x02 };
const TEAL: Color = Color { r: 0x0c, g: 0xff, b: 0x1d };

#[test]
fn battery_and_charging_queries() {
    check(RazerMessageBuilder::get_battery_level(), 0x07, 0x80, 0x02, &[]);
    check(RazerMessageBuilder::get_charging_status(), 0x07, 0x84, 0x02, &[]);
}

#[test]
fn get_dpi_names_the_bank() {
    check(RazerMessageBuilder::get_dpi(VarStoreId::NoStore), 0x04, 0x85, 0x07, &[0x00]);
    check(RazerMessageBuilder::get_dpi(VarStoreId::VarStore), 0x04, 0x85, 0x07, &[0x01]);
}

#[test]
fn set_dpi_writes_both_axes_big_endian() {
    check(
        RazerMessageBuilder::set_dpi(VarStoreId::NoStore, Dpi { x: 800, y: 1800 }),
        0x04,
        0x05,
        0x07,
        &[0x00, 0x03, 0x20, 0x07, 0x08, 0x00, 0x00],
    );
    check(
        RazerMessageBuilder::set_dpi(VarStoreId::VarStore, Dpi::from(800)),
        0x04,
        0x05,
        0x07,
        &[0x01, 0x03, 0x20, 0x03, 0x20, 0x00, 0x00],
    );
}

#[test]
fn set_dpi_clamps_each_axis() {
    // 100 = 0x0064, 35000 = 0x88b8
    check(
        RazerMessageBuilder::set_dpi(VarStoreId::NoStore, Dpi { x: 0, y: 65535 }),
        0x04,
        0x05,
        0x07,
        &[0x00, 0x00, 0x64, 0x88, 0xb8, 0x00, 0x00],
    );
    check(
        RazerMessageBuilder::set_dpi(VarStoreId::NoStore, Dpi { x: 99, y: 35001 }),
        0x04,
        0x05,
        0x07,
        &[0x00, 0x00, 0x64, 0x88, 0xb8, 0x00, 0x00],
    );
    check(
        RazerMessageBuilder::set_dpi(VarStoreId::NoStore, Dpi { x: 100, y: 35000 }),
        0x04,
        0x05,
        0x07,
        &[0x00, 0x00, 0x64, 0x88, 0xb8, 0x00, 0x00],
    );
}

#[test]
fn dpi_transmitted_is_clamped_for_every_value() {
    for x in (0..=u16::MAX).step_by(7).chain([99, 100, 101, 34999, 35000, 35001, 65535]) {
        let builder = RazerMessageBuilder::set_dpi(VarStoreId::NoStore, Dpi::from(x));
        let sent = decode_dpi(&response(&builder.arguments[..7]));
        let expected = x.max(100).min(35000);
        assert_eq!(sent, Dpi { x: expected, y: expected });
        assert_eq!(sent.clamped(), sent);
        let again = RazerMessageBuilder::set_dpi(VarStoreId::NoStore, sent);
        assert_eq!(again.arguments, builder.arguments);
    }
}

#[test]
fn dpi_clamped_keeps_values_in_range() {
    assert_eq!(Dpi { x: 800, y: 1600 }.clamped(), Dpi { x: 800, y: 1600 });
    assert_eq!(Dpi { x: 1, y: 50000 }.clamped(), Dpi { x: 100, y: 35000 });
}

#[test]
fn get_dpi_stages_names_the_bank() {
    check(RazerMessageBuilder::get_dpi_stages(VarStoreId::VarStore), 0x04, 0x86, 0x26, &[0x01]);
}

#[test]
fn set_dpi_stages_writes_one_chunk_per_stage() {
    let table = DpiStages::new(2, vec![(800, 800), (1800, 1800)]).unwrap();
    check(
        RazerMessageBuilder::set_dpi_stages(VarStoreId::VarStore, &table),
        0x04,
        0x06,
        0x26,
        &[
            0x01, 0x02, 0x02, //
            0x00, 0x03, 0x20, 0x03, 0x20, 0x00, 0x00, //
            0x01, 0x07, 0x08, 0x07, 0x08, 0x00, 0x00,
        ],
    );
}

#[test]
fn set_dpi_stages_with_five_stages_fills_38_bytes() {
    let table = DpiStages::new(
        5,
        vec![(400, 401), (800, 801), (1600, 1601), (3200, 3201), (6400, 6401)],
    )
    .unwrap();
    let builder = RazerMessageBuilder::set_dpi_stages(VarStoreId::NoStore, &table);
    assert_eq!(builder.data_size, 0x26);
    assert_eq!(&builder.arguments[..3], &[0x00, 0x05, 0x05]);
    assert_eq!(&builder.arguments[3..10], &[0x00, 0x01, 0x90, 0x01, 0x91, 0x00, 0x00]);
    assert_eq!(&builder.arguments[31..38], &[0x04, 0x19, 0x00, 0x19, 0x01, 0x00, 0x00]);
    assert_eq!(&builder.arguments[38..], &[0u8; 42][..]);
}

#[test]
fn set_dpi_stages_clamps_each_axis_of_each_stage() {
    // 100 = 0x0064, 35000 = 0x88b8
    let table = DpiStages::new(1, vec![(50, 40000)]).unwrap();
    let builder = RazerMessageBuilder::set_dpi_stages(VarStoreId::VarStore, &table);
    assert_eq!(&builder.arguments[3..10], &[0x00, 0x00, 0x64, 0x88, 0xb8, 0x00, 0x00]);
    assert_eq!(&builder.arguments[4..8], &[0x00, 0x64, 0x88, 0xb8]);

    let table = DpiStages::new(2, vec![(0, 99), (35001, 65535), (100, 35000)]).unwrap();
    let builder = RazerMessageBuilder::set_dpi_stages(VarStoreId::VarStore, &table);
    assert_eq!(&builder.arguments[..3], &[0x01, 0x02, 0x03]);
    assert_eq!(&builder.arguments[3..10], &[0x00, 0x00, 0x64, 0x00, 0x64, 0x00, 0x00]);
    assert_eq!(&builder.arguments[10..17], &[0x01, 0x88, 0xb8, 0x88, 0xb8, 0x00, 0x00]);
    assert_eq!(&builder.arguments[17..24], &[0x02, 0x00, 0x64, 0x88, 0xb8, 0x00, 0x00]);
    // clamping happens on the way out: the table keeps its values
    assert_eq!(table.stages(), &vec![(0, 99), (35001, 65535), (100, 35000)]);
}

#[test]
fn stage_values_transmitted_are_clamped_for_every_value() {
    for value in (0..=u16::MAX).step_by(11).chain([99, 100, 101, 34999, 35000, 35001, 65535]) {
        let table = DpiStages::new(1, vec![(value, 800), (800, value)]).unwrap();
        let sent = RazerMessageBuilder::set_dpi_stages(VarStoreId::VarStore, &table).build();
        let expected = value.max(100).min(35000);
        let decoded = decode_dpi_stages(&sent).unwrap();
        assert_eq!(decoded.stages(), &vec![(expected, 800), (800, expected)]);
        let again = RazerMessageBuilder::set_dpi_stages(VarStoreId::VarStore, &decoded).build();
        assert_eq!(again, sent);
    }
}

#[test]
fn polling_rate_commands() {
    check(RazerMessageBuilder::get_polling_rate(), 0x00, 0x85, 0x01, &[]);
    check(
        RazerMessageBuilder::set_polling_rate(NormalPollingRate::Rate1000),
        0x00,
        0x05,
        0x01,
        &[0x01],
    );
    check(
        RazerMessageBuilder::set_polling_rate(NormalPollingRate::Rate500),
        0x00,
        0x05,
        0x01,
        &[0x02],
    );
    check(
        RazerMessageBuilder::set_polling_rate(NormalPollingRate::Rate125),
        0x00,
        0x05,
        0x01,
        &[0x08],
    );
}

#[test]
fn extended_polling_rate_flags() {
    let cases = [
        (ExtendedPollingRate::Rate8000, 0x01),
        (ExtendedPollingRate::Rate4000, 0x02),
        (ExtendedPollingRate::Rate2000, 0x04),
        (ExtendedPollingRate::Rate1000, 0x08),
        (ExtendedPollingRate::Rate500, 0x10),
        (ExtendedPollingRate::Rate250, 0x20),
        (ExtendedPollingRate::Rate125, 0x40),
    ];
    for (rate, flag) in cases {
        assert_eq!(rate.flag(), flag);
        check(
            RazerMessageBuilder::set_polling_rate_extended(rate),
            0x00,
            0x40,
            0x02,
            &[0x00, flag],
        );
    }
}

#[test]
fn normal_polling_rates_round_trip_through_their_codes() {
    let cases = [
        (NormalPollingRate::Rate1000, 0x01u8, 1000u16),
        (NormalPollingRate::Rate500, 0x02, 500),
        (NormalPollingRate::Rate125, 0x08, 125),
    ];
    for (rate, code, hz) in cases {
        assert_eq!(rate.code(), code);
        assert_eq!(NormalPollingRate::from_code(code), Some(rate));
        assert_eq!(u16::from(rate), hz);
        let sent = RazerMessageBuilder::set_polling_rate(rate);
        assert_eq!(decode_polling_rate(&response(&sent.arguments[..1])), Ok(rate));
    }
}

#[test]
fn unknown_polling_rate_bytes_are_a_decode_failure() {
    let failure = Err(DriverError::Decode(ProtocolDecodeFailure::PollingRate));
    for code in 0..=255u8 {
        let decoded = decode_polling_rate(&response(&[code]));
        if code == 0x01 || code == 0x02 || code == 0x08 {
            assert!(decoded.is_ok());
        } else {
            assert_eq!(decoded, failure);
            assert_eq!(NormalPollingRate::from_code(code), None);
        }
    }
}

#[test]
fn effects_without_payload() {
    let logo = LedId::Logo;
    check(
        RazerMessageBuilder::chroma_extended_matrix_effect(
            VarStoreId::VarStore,
            logo,
            ExtendedMatrixEffect::Off,
        ),
        0x0f,
        0x02,
        0x06,
        &[0x01, 0x04, 0x00],
    );
    check(
        RazerMessageBuilder::chroma_extended_matrix_effect(
            VarStoreId::VarStore,
            logo,
            ExtendedMatrixEffect::Spectrum,
        ),
        0x0f,
        0x02,
        0x06,
        &[0x01, 0x04, 0x03],
    );
    check(
        RazerMessageBuilder::chroma_extended_matrix_effect(
            VarStoreId::NoStore,
            logo,
            ExtendedMatrixEffect::Breathing(BreathingEffect::Random),
        ),
        0x0f,
        0x02,
        0x06,
        &[0x00, 0x04, 0x02],
    );
}

#[test]
fn static_effect_writes_the_colour_at_offset_5() {
    check(
        RazerMessageBuilder::chroma_extended_matrix_effect(
            VarStoreId::VarStore,
            LedId::Logo,
            ExtendedMatrixEffect::Static(TEAL),
        ),
        0x0f,
        0x02,
        0x09,
        &[0x01, 0x04, 0x01, 0x00, 0x00, 0x01, 0x0c, 0xff, 0x1d],
    );
}

#[test]
fn breathing_effects_write_their_colours_at_offset_3() {
    check(
        RazerMessageBuilder::chroma_extended_matrix_effect(
            VarStoreId::VarStore,
            LedId::Logo,
            ExtendedMatrixEffect::Breathing(BreathingEffect::Single(RED)),
        ),
        0x0f,
        0x02,
        0x09,
        &[0x01, 0x04, 0x02, 0x01, 0x00, 0x01, 0xff, 0x01, 0x02],
    );
    check(
        RazerMessageBuilder::chroma_extended_matrix_effect(
            VarStoreId::VarStore,
            LedId::Logo,
            ExtendedMatrixEffect::Breathing(BreathingEffect::Dual(RED, TEAL)),
        ),
        0x0f,
        0x02,
        0x0c,
        &[0x01, 0x04, 0x02, 0x02, 0x00, 0x02, 0xff, 0x01, 0x02, 0x0c, 0xff, 0x1d],
    );
}

#[test]
fn reactive_effect_writes_speed_and_colour_at_offset_4() {
    check(
        RazerMessageBuilder::chroma_extended_matrix_effect(
            VarStoreId::VarStore,
            LedId::Logo,
            ExtendedMatrixEffect::Reactive(RED, 3),
        ),
        0x0f,
        0x02,
        0x09,
        &[0x01, 0x04, 0x05, 0x00, 0x03, 0x01, 0xff, 0x01, 0x02],
    );
}

#[test]
fn reactive_speed_is_clamped_to_1_through_4() {
    let speed_sent = |speed: u8| {
        RazerMessageBuilder::chroma_extended_matrix_effect(
            VarStoreId::VarStore,
            LedId::Logo,
            ExtendedMatrixEffect::Reactive(RED, speed),
        )
        .arguments[4]
    };
    assert_eq!(speed_sent(0), 1);
    assert_eq!(speed_sent(1), 1);
    assert_eq!(speed_sent(2), 2);
    assert_eq!(speed_sent(4), 4);
    assert_eq!(speed_sent(5), 4);
    assert_eq!(speed_sent(9), 4);
    assert_eq!(speed_sent(255), 4);
}

#[test]
fn effect_codes() {
    assert_eq!(u8::from(ExtendedMatrixEffect::Off), 0x00);
    assert_eq!(u8::from(ExtendedMatrixEffect::Static(RED)), 0x01);
    assert_eq!(u8::from(ExtendedMatrixEffect::Breathing(BreathingEffect::Random)), 0x02);
    assert_eq!(u8::from(ExtendedMatrixEffect::Spectrum), 0x03);
    assert_eq!(u8::from(ExtendedMatrixEffect::Reactive(RED, 1)), 0x05);
    assert_eq!(LedId::Logo.code(), 0x04);
    assert_eq!(VarStoreId::NoStore.code(), 0x00);
    assert_eq!(VarStoreId::VarStore.code(), 0x01);
}

#[test]
fn decode_dpi_reads_offsets_1_to_4() {
    let dpi = decode_dpi(&response(&[0x01, 0x03, 0x20, 0x07, 0x08, 0xee, 0xee]));
    assert_eq!(dpi, Dpi { x: 800, y: 1800 });
}

#[test]
fn decode_dpi_stages_reads_count_chunks() {
    let table = decode_dpi_stages(&response(&[
        0x01, 0x02, 0x04, //
        0x01, 0x03, 0x20, 0x03, 0x20, 0x00, 0x00, //
        0x02, 0x07, 0x08, 0x07, 0x08, 0x00, 0x00, //
        0x03, 0x0c, 0x80, 0x0c, 0x81, 0x00, 0x00, //
        0x04, 0x19, 0x00, 0x19, 0x01, 0x00, 0x00, //
        0x05, 0xff, 0xff, 0xff, 0xff, 0x00, 0x00,
    ]))
    .unwrap();
    assert_eq!(table.active(), 2);
    assert_eq!(table.stages(), &vec![(800, 800), (1800, 1800), (3200, 3201), (6400, 6401)]);
}

#[test]
fn decode_dpi_stages_refuses_tables_out_of_bounds() {
    let failure = DriverError::Decode(ProtocolDecodeFailure::StageTable);
    // no stage
    assert_eq!(decode_dpi_stages(&response(&[0x01, 0x01, 0x00])), Err(failure));
    // six stages
    assert_eq!(decode_dpi_stages(&response(&[0x01, 0x01, 0x06])), Err(failure));
    // active stage 0
    assert_eq!(decode_dpi_stages(&response(&[0x01, 0x00, 0x03])), Err(failure));
    // active stage beyond the count
    assert_eq!(decode_dpi_stages(&response(&[0x01, 0x04, 0x03])), Err(failure));
    // an all-zero answer
    assert_eq!(decode_dpi_stages(&response(&[])), Err(failure));
    assert!(decode_dpi_stages(&response(&[0x01, 0x03, 0x03])).is_ok());
    assert!(decode_dpi_stages(&response(&[0x01, 0x05, 0x05])).is_ok());
}

#[test]
fn stage_table_round_trip() {
    let table = DpiStages::new(2, vec![(800, 800), (1800, 1800)]).unwrap();
    let sent = RazerMessageBuilder::set_dpi_stages(VarStoreId::VarStore, &table)
        .with_transaction_id(0x3f)
        .build();
    let wire = sent.encode();
    let received = RazerMessage::decode(&wire).unwrap();
    let decoded = decode_dpi_stages(&received).unwrap();
    assert_eq!(decoded.active(), 2);
    assert_eq!(decoded.stages(), &vec![(800, 800), (1800, 1800)]);
    assert_eq!(decoded, table);
}

#[test]
fn stage_table_round_trip_at_the_bounds() {
    let tables = [
        DpiStages::new(1, vec![(100, 35000)]).unwrap(),
        DpiStages::new(1, vec![(100, 101), (255, 256), (257, 511), (512, 34999), (35000, 100)])
            .unwrap(),
        DpiStages::new(5, vec![(100, 100), (35000, 35000), (256, 255), (1000, 2000), (400, 400)])
            .unwrap(),
    ];
    for table in tables {
        let sent = RazerMessageBuilder::set_dpi_stages(VarStoreId::VarStore, &table).build();
        assert_eq!(decode_dpi_stages(&sent), Ok(table));
    }
}

#[test]
fn stage_table_out_of_range_round_trips_to_its_clamped_values() {
    let cases = [
        (DpiStages::new(1, vec![(0, 65535)]).unwrap(), vec![(100, 35000)]),
        (
            DpiStages::new(3, vec![(1, 2), (3, 40000), (800, 99)]).unwrap(),
            vec![(100, 100), (100, 35000), (800, 100)],
        ),
    ];
    for (table, expected) in cases {
        let sent = RazerMessageBuilder::set_dpi_stages(VarStoreId::VarStore, &table).build();
        let decoded = decode_dpi_stages(&sent).unwrap();
        assert_eq!(decoded.active(), table.active());
        assert_eq!(decoded.stages(), &expected);
    }
}

#[test]
fn battery_level_is_a_fraction_of_255() {
    assert_eq!(decode_battery_level(&response(&[0x00, 0xff])), BatteryLevel { raw: 255 });
    assert_eq!(BatteryLevel { raw: 255 }.percent(), 100);
    assert_eq!(BatteryLevel { raw: 254 }.percent(), 99);
    assert_eq!(BatteryLevel { raw: 128 }.percent(), 50);
    assert_eq!(BatteryLevel { raw: 127 }.percent(), 49);
    assert_eq!(BatteryLevel { raw: 51 }.percent(), 20);
    assert_eq!(BatteryLevel { raw: 3 }.percent(), 1);
    assert_eq!(BatteryLevel { raw: 2 }.percent(), 0);
    assert_eq!(BatteryLevel { raw: 0 }.percent(), 0);
}

#[test]
fn battery_percent_follows_the_fraction() {
    for raw in 0..=255u8 {
        let exact = raw as f32 / 255. * 100.;
        let percent = BatteryLevel { raw }.percent();
        assert!(percent as f32 <= exact + 0.001);
        assert!(exact < percent as f32 + 1.0);
    }
}

#[test]
fn charging_status_is_any_nonzero_byte() {
    assert!(!decode_charging_status(&response(&[0x00, 0x00])));
    assert!(decode_charging_status(&response(&[0x00, 0x01])));
    assert!(decode_charging_status(&response(&[0x00, 0xff])));
    assert!(!decode_charging_status(&response(&[0xff, 0x00, 0xff])));
}

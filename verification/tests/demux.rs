use boat_core::component::bms::demux::{demultiplex, demultiplex_frame, FrameOutcome};
use boat_core::component::bms::error::BmsError;
use boat_core::component::bms::metrics::{
    DecodedMetric, GlobalField, MetricId, MetricValue, PackField,
};
use boat_core::component::bms::structs::BatteryPack;
use socketcan::{CanFrame, EmbeddedFrame, ExtendedId, StandardId};

fn pack_metric(slot: u8, field: PackField, timestamp: u64, value: MetricValue) -> DecodedMetric {
    DecodedMetric { id: MetricId::Pack { slot, field }, timestamp, value }
}

fn global_metric(field: GlobalField, timestamp: u64, value: MetricValue) -> DecodedMetric {
    DecodedMetric { id: MetricId::Global(field), timestamp, value }
}

fn metrics(identifier: u32, payload: &[u8], timestamp: u64) -> Vec<DecodedMetric> {
    demultiplex(identifier, payload, timestamp).unwrap().metrics
}

#[test]
fn charge_block_of_pack_two() {
    let payload = [0x00, 0x0A, 0x00, 0x64, 0x32, 0x46, 0x00, 0x0F];
    let t = 1_700_000_000_000;
    let outcome = demultiplex(0x2007, &payload, t).unwrap();
    assert_eq!(
        outcome.metrics,
        vec![
            pack_metric(2, PackField::AhDischarged, t, MetricValue::Uint32(10)),
            pack_metric(2, PackField::RemainingCapacity, t, MetricValue::Uint32(100)),
            pack_metric(2, PackField::Soh, t, MetricValue::Uint32(50)),
            pack_metric(2, PackField::Soc, t, MetricValue::Uint32(70)),
            pack_metric(
                2,
                PackField::Current,
                t,
                MetricValue::Fraction { numerator: 15, denominator: 10 }
            ),
        ]
    );
    assert_eq!(outcome.discovered, None);
    match outcome.metrics[4].value {
        MetricValue::Fraction { numerator, denominator } => {
            assert_eq!(numerator as f64 / denominator as f64, 1.5);
        }
        _ => panic!("the current is a fraction"),
    }
}

#[test]
fn payload_of_any_length_but_eight_is_malformed() {
    for len in [0usize, 1, 3, 7, 9, 12, 64] {
        let payload = vec![0x55u8; len];
        assert_eq!(demultiplex(0x2007, &payload, 0), Err(BmsError::MalformedFrame));
        assert_eq!(demultiplex(0x0401, &payload, 0), Err(BmsError::MalformedFrame));
        assert_eq!(demultiplex(0x1024, &payload, 0), Err(BmsError::MalformedFrame));
        assert_eq!(demultiplex(0xFFFF_FFFF, &payload, 0), Err(BmsError::MalformedFrame));
    }
}

#[test]
fn serial_number_answer_gives_one_metric_and_the_pack() {
    // serial 1001 = 0x000003E9, part 55 = 0x00000037, under address 3
    let payload = [0x00, 0x00, 0x03, 0xE9, 0x00, 0x00, 0x00, 0x37];
    let outcome = demultiplex(0x3024, &payload, 7).unwrap();
    assert_eq!(
        outcome,
        FrameOutcome {
            metrics: vec![pack_metric(3, PackField::SerialNumber, 7, MetricValue::Uint32(1001))],
            discovered: Some(BatteryPack { address: 0, serial_number: 1001, part_number: 55 }),
        }
    );
}

#[test]
fn serial_number_answer_reads_all_32_bits() {
    let payload = [0xFF, 0xFE, 0xFD, 0xFC, 0x80, 0x00, 0x00, 0x01];
    let outcome = demultiplex(0x9024, &payload, 0).unwrap();
    assert_eq!(
        outcome.discovered,
        Some(BatteryPack { address: 0, serial_number: 0xFFFE_FDFC, part_number: 0x8000_0001 })
    );
}

#[test]
fn voltage_blocks_number_their_cells() {
    let payload = [0x0C, 0xE4, 0x0C, 0xE5, 0x00, 0x00, 0xFF, 0xFF];
    for (function, first) in [(0x002u32, 1u8), (0x003, 5), (0x004, 9), (0x005, 13), (0x006, 17)] {
        let got = metrics(0x1000 + function, &payload, 3);
        assert_eq!(
            got,
            vec![
                pack_metric(1, PackField::CellVoltage { cell: first }, 3, MetricValue::Uint32(3300)),
                pack_metric(1, PackField::CellVoltage { cell: first + 1 }, 3, MetricValue::Uint32(3301)),
                pack_metric(1, PackField::CellVoltage { cell: first + 2 }, 3, MetricValue::Uint32(0)),
                pack_metric(1, PackField::CellVoltage { cell: first + 3 }, 3, MetricValue::Uint32(65535)),
            ]
        );
    }
}

#[test]
fn temperatures_are_offset_by_forty() {
    let payload = [40, 0, 255, 9, 9, 9, 9, 9];
    assert_eq!(
        metrics(0x4009, &payload, 1),
        vec![
            pack_metric(4, PackField::Temperature { sensor: 0 }, 1, MetricValue::Sint32(0)),
            pack_metric(4, PackField::Temperature { sensor: 1 }, 1, MetricValue::Sint32(-40)),
            pack_metric(4, PackField::Temperature { sensor: 2 }, 1, MetricValue::Sint32(215)),
        ]
    );
}

#[test]
fn internal_status_gives_four_alert_codes() {
    let payload = [1, 2, 3, 4, 0, 0, 0, 0];
    assert_eq!(
        metrics(0x9020, &payload, 2),
        vec![
            pack_metric(9, PackField::MajorAlert1, 2, MetricValue::Uint32(1)),
            pack_metric(9, PackField::MajorAlert2, 2, MetricValue::Uint32(2)),
            pack_metric(9, PackField::MajorAlert3, 2, MetricValue::Uint32(3)),
            pack_metric(9, PackField::MinorAlert, 2, MetricValue::Uint32(4)),
        ]
    );
}

#[test]
fn master_control_limits() {
    let payload = [0x01, 0x2C, 0x00, 0x96, 0, 0, 0, 0];
    assert_eq!(
        metrics(0x0401, &payload, 9),
        vec![
            global_metric(GlobalField::MaxBatteryDischargeCurrent, 9, MetricValue::Uint32(300)),
            global_metric(GlobalField::MaxBatteryRechargeCurrent, 9, MetricValue::Uint32(150)),
        ]
    );
}

#[test]
fn global_status_three() {
    let payload = [87, 0x3A, 0xB6, 0x11, 0, 0, 0, 0];
    assert_eq!(
        metrics(0x0404, &payload, 9),
        vec![
            global_metric(GlobalField::GlobalSoc, 9, MetricValue::Uint32(87)),
            global_metric(GlobalField::IdGlobalSoc, 9, MetricValue::Uint32(3)),
            global_metric(GlobalField::GlobalIbmsAlarmState, 9, MetricValue::Uint32(2)),
            global_metric(GlobalField::NumberOfConnectedBms, 9, MetricValue::Uint32(11)),
            global_metric(GlobalField::PowerbusInformation, 9, MetricValue::Uint32(0x11)),
        ]
    );
}

#[test]
fn global_status_four() {
    let payload = [30, 65, 0x21, 0x0C, 0x80, 0x10, 0x04, 0x93];
    assert_eq!(
        metrics(0x0405, &payload, 9),
        vec![
            global_metric(GlobalField::BatTmin, 9, MetricValue::Sint32(-10)),
            global_metric(GlobalField::BatTmax, 9, MetricValue::Sint32(25)),
            global_metric(GlobalField::BatIdTmin, 9, MetricValue::Uint32(1)),
            global_metric(GlobalField::BatIdTmax, 9, MetricValue::Uint32(2)),
            global_metric(GlobalField::BatVmin, 9, MetricValue::Uint32(0x0C80)),
            global_metric(GlobalField::BatVmax, 9, MetricValue::Uint32(0x1004)),
            global_metric(GlobalField::BatIdVmin, 9, MetricValue::Uint32(3)),
            global_metric(GlobalField::BatIdVmax, 9, MetricValue::Uint32(9)),
        ]
    );
}

#[test]
fn global_status_five_reads_signed_fields() {
    // current -12.5 A = -125 tenths = 0xFF83
    let payload = [0xFF, 0x83, 0x0C, 0xE4, 0x80, 0x00, 0x72, 0];
    let got = metrics(0x0406, &payload, 9);
    assert_eq!(
        got,
        vec![
            global_metric(
                GlobalField::GlobalBatCurrent,
                9,
                MetricValue::Fraction { numerator: -125, denominator: 10 }
            ),
            global_metric(GlobalField::GlobalCellVMin, 9, MetricValue::Sint32(3300)),
            global_metric(GlobalField::GlobalCellVMax, 9, MetricValue::Sint32(-32768)),
            global_metric(GlobalField::GlobalCellVMinId, 9, MetricValue::Uint32(2)),
            global_metric(GlobalField::GlobalCellVMaxId, 9, MetricValue::Uint32(7)),
        ]
    );
}

#[test]
fn address_outside_one_to_nine_is_the_master() {
    let payload = [0x01, 0x2C, 0x00, 0x96, 0, 0, 0, 0];
    let expected = metrics(0x0401, &payload, 0);
    // address 10 and address 255 are no packs
    assert_eq!(metrics(0xA401, &payload, 0), expected);
    assert_eq!(metrics(0xF_F401, &payload, 0), expected);
    // a pack's function code means nothing to the master's table
    assert_eq!(
        demultiplex(0xA024, &payload, 0),
        Err(BmsError::UnknownFunctionCode { address: 10, function: 0x024 })
    );
    assert_eq!(
        demultiplex(0x0024, &payload, 0),
        Err(BmsError::UnknownFunctionCode { address: 0, function: 0x024 })
    );
}

#[test]
fn unknown_function_codes_are_named() {
    let payload = [0u8; 8];
    assert_eq!(
        demultiplex(0x1008, &payload, 0),
        Err(BmsError::UnknownFunctionCode { address: 1, function: 0x008 })
    );
    assert_eq!(
        demultiplex(0x1401, &payload, 0),
        Err(BmsError::UnknownFunctionCode { address: 1, function: 0x401 })
    );
    assert_eq!(
        demultiplex(0x0402, &payload, 0),
        Err(BmsError::UnknownFunctionCode { address: 0, function: 0x402 })
    );
}

#[test]
fn address_field_is_the_byte_above_the_function_code() {
    // bits above the address byte are not part of the address
    let payload = [0x00, 0x00, 0x03, 0xE9, 0x00, 0x00, 0x00, 0x37];
    let outcome = demultiplex(0x0010_3024, &payload, 0).unwrap();
    assert_eq!(outcome.metrics[0].id, MetricId::Pack { slot: 3, field: PackField::SerialNumber });
}

#[test]
fn frame_off_the_bus_is_read_through_socketcan() {
    let payload = [0x00, 0x0A, 0x00, 0x64, 0x32, 0x46, 0x00, 0x0F];
    let frame = CanFrame::new(ExtendedId::new(0x2007).unwrap(), &payload).unwrap();
    assert_eq!(demultiplex_frame(&frame, 11), demultiplex(0x2007, &payload, 11));
    assert_eq!(demultiplex_frame(&frame, 11).unwrap().metrics.len(), 5);

    let master = CanFrame::new(StandardId::new(0x401).unwrap(), &[0x01, 0x2C, 0x00, 0x96, 0, 0, 0, 0])
        .unwrap();
    assert_eq!(
        demultiplex_frame(&master, 5).unwrap().metrics,
        vec![
            global_metric(GlobalField::MaxBatteryDischargeCurrent, 5, MetricValue::Uint32(300)),
            global_metric(GlobalField::MaxBatteryRechargeCurrent, 5, MetricValue::Uint32(150)),
        ]
    );
}

#[test]
fn short_and_remote_frames_off_the_bus_are_malformed() {
    let short = CanFrame::new(ExtendedId::new(0x2007).unwrap(), &[1, 2, 3]).unwrap();
    assert_eq!(demultiplex_frame(&short, 0), Err(BmsError::MalformedFrame));
    // a remote frame announces eight bytes and carries none
    let remote = CanFrame::new_remote(ExtendedId::new(0x2007).unwrap(), 8).unwrap();
    assert_eq!(demultiplex_frame(&remote, 0), Err(BmsError::MalformedFrame));
}

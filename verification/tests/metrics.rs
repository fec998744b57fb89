use boat_core::component::bms::codec::{decode, BmsMessage};
use boat_core::component::bms::demux::{discovered, metrics_of};
use boat_core::component::bms::metrics::{GlobalField, MetricId, PackField};
use boat_core::component::bms::registry::DeviceRegistry;
use boat_core::component::bms::structs::BatteryPack;

fn all_pack_fields() -> Vec<PackField> {
    let mut fields = vec![
        PackField::SerialNumber,
        PackField::AhDischarged,
        PackField::RemainingCapacity,
        PackField::Soh,
        PackField::Soc,
        PackField::Current,
        PackField::MajorAlert1,
        PackField::MajorAlert2,
        PackField::MajorAlert3,
        PackField::MinorAlert,
    ];
    for cell in 1u8..=20 {
        fields.push(PackField::CellVoltage { cell });
    }
    for sensor in 0u8..=2 {
        fields.push(PackField::Temperature { sensor });
    }
    fields
}

const GLOBAL_FIELDS: [GlobalField; 20] = [
    GlobalField::MaxBatteryDischargeCurrent,
    GlobalField::MaxBatteryRechargeCurrent,
    GlobalField::GlobalSoc,
    GlobalField::IdGlobalSoc,
    GlobalField::GlobalIbmsAlarmState,
    GlobalField::NumberOfConnectedBms,
    GlobalField::PowerbusInformation,
    GlobalField::BatTmin,
    GlobalField::BatTmax,
    GlobalField::BatIdTmin,
    GlobalField::BatIdTmax,
    GlobalField::BatVmin,
    GlobalField::BatVmax,
    GlobalField::BatIdVmin,
    GlobalField::BatIdVmax,
    GlobalField::GlobalBatCurrent,
    GlobalField::GlobalCellVMin,
    GlobalField::GlobalCellVMax,
    GlobalField::GlobalCellVMinId,
    GlobalField::GlobalCellVMaxId,
];

#[test]
fn keys_of_existing_metrics_do_not_collide() {
    let mut ids = Vec::new();
    for field in GLOBAL_FIELDS {
        ids.push(MetricId::Global(field));
    }
    for slot in 1u8..=9 {
        for field in all_pack_fields() {
            ids.push(MetricId::Pack { slot, field });
        }
    }
    assert_eq!(ids.len(), 20 + 9 * 33);
    let mut keys: Vec<u16> = ids.iter().map(|id| id.key()).collect();
    for id in ids.iter() {
        assert!(id.is_valid());
    }
    keys.sort();
    keys.dedup();
    assert_eq!(keys.len(), ids.len());
}

#[test]
fn keys_are_slot_times_64_plus_position() {
    assert_eq!(MetricId::Global(GlobalField::MaxBatteryDischargeCurrent).key(), 0);
    assert_eq!(MetricId::Global(GlobalField::GlobalCellVMaxId).key(), 19);
    assert_eq!(MetricId::Pack { slot: 1, field: PackField::SerialNumber }.key(), 64);
    assert_eq!(MetricId::Pack { slot: 1, field: PackField::CellVoltage { cell: 1 } }.key(), 65);
    assert_eq!(MetricId::Pack { slot: 2, field: PackField::CellVoltage { cell: 20 } }.key(), 148);
    assert_eq!(MetricId::Pack { slot: 3, field: PackField::Soc }.key(), 3 * 64 + 24);
    assert_eq!(MetricId::Pack { slot: 9, field: PackField::Temperature { sensor: 2 } }.key(), 604);
    assert_eq!(MetricId::Pack { slot: 9, field: PackField::MinorAlert }.key(), 9 * 64 + 32);
    assert_eq!(PackField::Current.ordinal(), 25);
    assert_eq!(GlobalField::BatTmin.ordinal(), 7);
}

#[test]
fn metrics_that_do_not_exist_are_not_valid() {
    assert!(!MetricId::Pack { slot: 0, field: PackField::Soc }.is_valid());
    assert!(!MetricId::Pack { slot: 10, field: PackField::Soc }.is_valid());
    assert!(!MetricId::Pack { slot: 1, field: PackField::CellVoltage { cell: 0 } }.is_valid());
    assert!(!MetricId::Pack { slot: 1, field: PackField::CellVoltage { cell: 21 } }.is_valid());
    assert!(!MetricId::Pack { slot: 1, field: PackField::Temperature { sensor: 3 } }.is_valid());
    assert!(!PackField::CellVoltage { cell: 0 }.is_valid());
    assert!(PackField::CellVoltage { cell: 20 }.is_valid());
    assert_eq!(PackField::CellVoltage { cell: 21 }.ordinal(), 63);
    assert_eq!(PackField::Temperature { sensor: 3 }.ordinal(), 63);
}

#[test]
fn every_decoded_metric_has_a_key_that_exists() {
    let payload = [0x12, 0x34, 0x56, 0x78, 0x9A, 0xBC, 0xDE, 0xF0];
    let mut seen = 0;
    for address in 0u32..=10 {
        for function in 0u32..=0x410 {
            if let Ok(message) = decode(address * 0x1000 + function, &payload) {
                for metric in metrics_of(&message, 99) {
                    assert!(metric.id.is_valid(), "{:?}", metric);
                    assert_eq!(metric.timestamp, 99);
                    seen += 1;
                }
                match message {
                    BmsMessage::SerialNumberAnswer { .. } => assert_eq!(
                        discovered(&message),
                        Some(BatteryPack {
                            address: 0,
                            serial_number: 0x1234_5678,
                            part_number: 0x9ABC_DEF0
                        })
                    ),
                    _ => assert_eq!(discovered(&message), None),
                }
            }
        }
    }
    // nine packs with 1 + 5 * 4 + 5 + 3 + 4 metrics, and the master's
    // 2 + 5 + 8 + 5 under each of the two addresses that are no pack's
    assert_eq!(seen, 9 * 33 + 2 * 20);
}

#[test]
fn packs_are_found_by_their_address() {
    let mut registry = DeviceRegistry::new();
    registry.observe(500, 1);
    registry.observe(400, 2);
    assert_eq!(registry.at_address(0), None);
    assert_eq!(registry.at_address(1), None);
    registry.reassign();
    assert_eq!(
        registry.at_address(1),
        Some(BatteryPack { address: 1, serial_number: 400, part_number: 2 })
    );
    assert_eq!(
        registry.at_address(2),
        Some(BatteryPack { address: 2, serial_number: 500, part_number: 1 })
    );
    assert_eq!(registry.at_address(3), None);
    assert_eq!(registry.at_address(0), None);
    registry.observe(450, 3);
    assert_eq!(registry.at_address(0), None);
    assert_eq!(registry.at_address(2).unwrap().serial_number, 500);
}

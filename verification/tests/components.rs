use boat_core::can::ids::CanIds;
use boat_core::component::motor_status::{motor_temperature, MotorTemperature};
use boat_core::component::pmu::{decode_pmu, PmuError, PmuReading, PmuValue};
use boat_core::component::system_stats::choose_interface;
use boat_core::component::vesc::can_messages::{
    parse, CanMessage, SetDutyMsg, StatusMsg1, StatusMsg2, StatusMsg3, StatusMsg4, StatusMsg5,
    VescMessageIds, VescMetric, VescMetricId, VescValue,
};
use boat_core::component::vesc::decoder::{controller_of, decode_vesc, message_of, VescOutcome};

const ALL_IDS: [(CanIds, u32); 17] = [
    (CanIds::CanIdMostImportant, 0x000),
    (CanIds::CanIdSolarPower, 0x026),
    (CanIds::CanIdSolarTemp, 0x022),
    (CanIds::CanIdMotor1, 0x142),
    (CanIds::CanIdMotor2, 0x143),
    (CanIds::CanIdPowerOff, 0x024),
    (CanIds::CanIdApmuTemp, 0x700),
    (CanIds::CanIdMpmuTemp, 0x702),
    (CanIds::CanIdPCSTemp, 0x724),
    (CanIds::CanIdLPMainPower, 0x726),
    (CanIds::CanIdFan1Rpm, 0x710),
    (CanIds::CanIdFan2Rpm, 0x712),
    (CanIds::CanIdFan3Rpm, 0x714),
    (CanIds::CanIdFan4Rpm, 0x716),
    (CanIds::CanIdMotorCurrent, 0x720),
    (CanIds::CanIdBattVoltage, 0x722),
    (CanIds::CanIdLeastImportant, 0xFFE),
];

fn fraction(id: VescMetricId, numerator: i32, denominator: u32) -> VescMetric {
    VescMetric { id, value: VescValue::Fraction { numerator, denominator } }
}

fn whole(id: VescMetricId, value: i32) -> VescMetric {
    VescMetric { id, value: VescValue::Int32(value) }
}

#[test]
fn can_identifiers_have_their_numbers() {
    for (id, number) in ALL_IDS {
        assert_eq!(id.number(), number);
        assert_eq!(CanIds::from_u32(number), Some(id));
    }
    assert_eq!(CanIds::from_u32(0x001), None);
    assert_eq!(CanIds::from_u32(0x800), None);
    assert_eq!(CanIds::from_u32(0xFFF), None);
    assert_eq!(CanIds::from_u32(u32::MAX), None);
}

#[test]
fn power_unit_frames_with_raw_payload() {
    for id in [
        CanIds::CanIdApmuTemp,
        CanIds::CanIdMpmuTemp,
        CanIds::CanIdMotorCurrent,
        CanIds::CanIdBattVoltage,
        CanIds::CanIdFan1Rpm,
        CanIds::CanIdFan2Rpm,
        CanIds::CanIdFan3Rpm,
        CanIds::CanIdFan4Rpm,
    ] {
        assert_eq!(
            decode_pmu(id.number(), &[1, 2, 3]),
            Ok(Some(PmuReading { id, value: PmuValue::Payload }))
        );
        assert_eq!(decode_pmu(id.number(), &[]), Ok(Some(PmuReading { id, value: PmuValue::Payload })));
    }
}

#[test]
fn power_unit_frames_with_numbers() {
    assert_eq!(
        decode_pmu(0x026, &[0x00, 0x01, 0x02, 0x03, 9, 9, 9, 9]),
        Ok(Some(PmuReading { id: CanIds::CanIdSolarPower, value: PmuValue::Uint32(0x0001_0203) }))
    );
    // 23.45 degrees = 2345 hundredths = 0x0929
    assert_eq!(
        decode_pmu(0x022, &[0x09, 0x29]),
        Ok(Some(PmuReading {
            id: CanIds::CanIdSolarTemp,
            value: PmuValue::Fraction { numerator: 2345, denominator: 100 },
        }))
    );
    // -5.00 degrees = -500 hundredths = 0xFE0C
    assert_eq!(
        decode_pmu(0x724, &[0xFE, 0x0C, 0, 0]),
        Ok(Some(PmuReading {
            id: CanIds::CanIdPCSTemp,
            value: PmuValue::Fraction { numerator: -500, denominator: 100 },
        }))
    );
    assert_eq!(
        decode_pmu(0x726, &[0xFF, 0xFF]),
        Ok(Some(PmuReading { id: CanIds::CanIdLPMainPower, value: PmuValue::Uint32(65535) }))
    );
}

#[test]
fn power_unit_frames_that_are_too_short() {
    assert_eq!(
        decode_pmu(0x026, &[1, 2, 3]),
        Err(PmuError::ShortPayload { needed: 4, found: 3 })
    );
    assert_eq!(decode_pmu(0x022, &[1]), Err(PmuError::ShortPayload { needed: 2, found: 1 }));
    assert_eq!(decode_pmu(0x724, &[]), Err(PmuError::ShortPayload { needed: 2, found: 0 }));
    assert_eq!(decode_pmu(0x726, &[7]), Err(PmuError::ShortPayload { needed: 2, found: 1 }));
}

#[test]
fn frames_of_other_units_give_nothing() {
    for number in [0x000u32, 0x142, 0x143, 0x024, 0xFFE, 0x001, 0x1024, u32::MAX] {
        assert_eq!(decode_pmu(number, &[0; 8]), Ok(None));
        assert_eq!(decode_pmu(number, &[]), Ok(None));
    }
}

#[test]
fn motor_temperature_is_in_hundredths() {
    assert_eq!(
        motor_temperature(&[0x1B, 0x58, 0, 0]),
        Some(MotorTemperature { numerator: 7000, denominator: 100 })
    );
    assert_eq!(
        motor_temperature(&[0xFF, 0x9C]),
        Some(MotorTemperature { numerator: -100, denominator: 100 })
    );
    assert_eq!(motor_temperature(&[0x1B]), None);
    assert_eq!(motor_temperature(&[]), None);
}

#[test]
fn controller_message_numbers() {
    assert_eq!(VescMessageIds::SetDuty.number(), 0);
    assert_eq!(VescMessageIds::Status1.number(), 9);
    assert_eq!(VescMessageIds::Status2.number(), 14);
    assert_eq!(VescMessageIds::Status3.number(), 15);
    assert_eq!(VescMessageIds::Status4.number(), 16);
    assert_eq!(VescMessageIds::Ping.number(), 17);
    assert_eq!(VescMessageIds::Status5.number(), 27);
    for number in 0u32..=27 {
        assert_eq!(VescMessageIds::from_u32(number).unwrap().number(), number);
    }
    assert_eq!(VescMessageIds::from_u32(28), None);
    assert_eq!(VescMessageIds::from_u32(u32::MAX), None);
}

#[test]
fn controller_messages_are_read_from_eight_bytes() {
    let data = [0x00, 0x00, 0x13, 0x88, 0xFF, 0x38, 0x01, 0xF4];
    assert_eq!(SetDutyMsg::from_can_data(&data), SetDutyMsg { duty_cycle: 5000 });
    assert_eq!(
        StatusMsg1::from_can_data(&data),
        StatusMsg1 { rpm: 5000, total_current: -200, duty_cycle: 500 }
    );
    assert_eq!(
        StatusMsg2::from_can_data(&data),
        StatusMsg2 { amp_hours: 5000, amp_hours_charged: -13106700 }
    );
    assert_eq!(
        StatusMsg3::from_can_data(&data),
        StatusMsg3 { watt_hours: 5000, watt_hours_charged: -13106700 }
    );
    assert_eq!(
        StatusMsg4::from_can_data(&data),
        StatusMsg4 { mosfet_temp: 0, motor_temp: 5000, total_in_cur: -200, pid_pos: 500 }
    );
    assert_eq!(StatusMsg5::from_can_data(&data), StatusMsg5 { tachometer: 5000, in_voltage: -200 });
}

#[test]
fn controller_messages_give_their_metrics() {
    assert_eq!(
        SetDutyMsg { duty_cycle: 50_000 }.metrics(),
        vec![fraction(VescMetricId::ThrottlePos, 50_000, 100_000)]
    );
    assert_eq!(
        StatusMsg1 { rpm: -3, total_current: 125, duty_cycle: -7 }.metrics(),
        vec![
            whole(VescMetricId::EscRpm, -3),
            fraction(VescMetricId::EscTotalCurrent, 125, 10),
            fraction(VescMetricId::EscDutyCycle, -7, 10),
        ]
    );
    assert_eq!(
        StatusMsg2 { amp_hours: 1, amp_hours_charged: 2 }.metrics(),
        vec![
            fraction(VescMetricId::EscAmpHours, 1, 10_000),
            fraction(VescMetricId::EscAmpHoursCharged, 2, 10_000),
        ]
    );
    assert_eq!(
        StatusMsg3 { watt_hours: 3, watt_hours_charged: 4 }.metrics(),
        vec![
            fraction(VescMetricId::EscWattHours, 3, 10_000),
            fraction(VescMetricId::EscWattHoursCharged, 4, 10_000),
        ]
    );
    assert_eq!(
        StatusMsg4 { mosfet_temp: 301, motor_temp: 455, total_in_cur: -12, pid_pos: 100 }.metrics(),
        vec![
            fraction(VescMetricId::EscMosfetTemp, 301, 10),
            fraction(VescMetricId::EscMotorTemp, 455, 10),
            fraction(VescMetricId::EscTotalInCurrent, -12, 10),
            fraction(VescMetricId::EscPidPos, 100, 50),
        ]
    );
    assert_eq!(
        StatusMsg5 { tachometer: 77, in_voltage: 482 }.metrics(),
        vec![whole(VescMetricId::EscTachometer, 77), fraction(VescMetricId::EscInVoltage, 482, 10)]
    );
    let data = [0x00, 0x00, 0x13, 0x88, 0xFF, 0x38, 0x01, 0xF4];
    assert_eq!(parse::<StatusMsg5>(&data), StatusMsg5::from_can_data(&data).metrics());
}

#[test]
fn controller_frames_are_told_by_their_identifier() {
    assert_eq!(controller_of(0x0000_0925), 0x25);
    assert_eq!(message_of(0x0000_0925), 9);
    assert_eq!(message_of(0x1FFF_FF25), 0x1F_FFFF);
    let data = [0x00, 0x00, 0x13, 0x88, 0xFF, 0x38, 0x01, 0xF4];
    assert_eq!(
        decode_vesc(0x0925, 0x25, &data),
        VescOutcome::Metrics(vec![
            whole(VescMetricId::EscRpm, 5000),
            fraction(VescMetricId::EscTotalCurrent, -200, 10),
            fraction(VescMetricId::EscDutyCycle, 500, 10),
        ])
    );
    assert_eq!(
        decode_vesc(0x0E25, 0x25, &data),
        VescOutcome::Metrics(StatusMsg2::from_can_data(&data).metrics())
    );
    assert_eq!(
        decode_vesc(0x0F25, 0x25, &data),
        VescOutcome::Metrics(StatusMsg3::from_can_data(&data).metrics())
    );
    assert_eq!(
        decode_vesc(0x1025, 0x25, &data),
        VescOutcome::Metrics(StatusMsg4::from_can_data(&data).metrics())
    );
    assert_eq!(
        decode_vesc(0x1B25, 0x25, &data),
        VescOutcome::Metrics(StatusMsg5::from_can_data(&data).metrics())
    );
    // another controller's frame, and frames that are not eight bytes long
    assert_eq!(decode_vesc(0x0926, 0x25, &data), VescOutcome::Skipped);
    assert_eq!(decode_vesc(0x0925, 0x125, &data), VescOutcome::Skipped);
    assert_eq!(decode_vesc(0x0925, 0x25, &data[..7]), VescOutcome::Skipped);
    assert_eq!(decode_vesc(0x0925, 0x25, &[0; 9]), VescOutcome::Skipped);
    // the controller's own frames that are no status message
    assert_eq!(decode_vesc(0x0025, 0x25, &data), VescOutcome::Unknown { message: 0 });
    assert_eq!(decode_vesc(0x1125, 0x25, &data), VescOutcome::Unknown { message: 17 });
    assert_eq!(decode_vesc(0x1C25, 0x25, &data), VescOutcome::Unknown { message: 28 });
}

#[test]
fn the_network_interface_is_chosen() {
    let names = |list: &[&str]| -> Vec<String> { list.iter().map(|s| s.to_string()).collect() };
    let auto = "auto".to_string();
    assert_eq!(choose_interface(&"eth1".to_string(), &names(&["eth0", "usb0"])), "eth1");
    assert_eq!(choose_interface(&auto, &names(&["eth0", "usb0", "wlan0"])), "usb0");
    assert_eq!(choose_interface(&auto, &names(&["eth0", "wlan0"])), "eth0");
    assert_eq!(choose_interface(&auto, &names(&["usb0"])), "usb0");
    assert_eq!(choose_interface(&auto, &names(&[])), "auto");
    assert_eq!(choose_interface(&"Auto".to_string(), &names(&["usb0"])), "Auto");
    assert_eq!(choose_interface(&"".to_string(), &names(&["usb0"])), "");
}

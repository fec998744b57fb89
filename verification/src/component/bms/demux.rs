//! The frame demultiplexer: every inbound frame to the metrics it carries.

use crate::can::{frame_id_number, frame_parts, frame_payload};
use crate::bytes::be_u32_at;
use crate::component::bms::codec::{
    decode, spec_address_of, spec_decode, spec_function_of, spec_is_pack_address, BmsMessage,
};
use crate::component::bms::error::BmsError;
use crate::component::bms::metrics::{DecodedMetric, GlobalField, MetricId, MetricValue, PackField};
use crate::component::bms::structs::{BatteryPack, UNASSIGNED_ADDRESS};
use socketcan::CanFrame;
use vstd::prelude::*;

verus! {

/// What the currents of the protocol are divided by.
pub const CURRENT_DENOMINATOR: u32 = 10;

/// What one frame gives: its metrics and, for a serial-number answer, the
/// pack that answered.
#[derive(Clone, Debug, PartialEq, Eq)]
pub struct FrameOutcome {
    /// The metrics of the frame, in the order of its fields.
    pub metrics: Vec<DecodedMetric>,
    /// The pack to hand to the registry. It has no address yet.
    pub discovered: Option<BatteryPack>,
}

/// A metric of the pack at `slot`.
pub open spec fn pack_metric(slot: u8, field: PackField, timestamp: u64, value: MetricValue) -> DecodedMetric {
    DecodedMetric { id: MetricId::Pack { slot, field }, timestamp, value }
}

/// A metric of the cluster.
pub open spec fn global_metric(field: GlobalField, timestamp: u64, value: MetricValue) -> DecodedMetric {
    DecodedMetric { id: MetricId::Global(field), timestamp, value }
}

/// A current that the protocol sends in tenths.
pub open spec fn tenths(raw: int) -> MetricValue {
    MetricValue::Fraction { numerator: raw as i32, denominator: CURRENT_DENOMINATOR }
}

/// The metrics of a message, each stamped with `timestamp`.
///
/// A serial-number answer gives one metric, a voltage block four, the charge
/// block five, the temperature block three and the alert block four. The
/// master's frames give two, five, eight and five. An unknown frame gives
/// none.
pub open spec fn spec_metrics_of(message: BmsMessage, timestamp: u64) -> Seq<DecodedMetric> {
    match message {
        BmsMessage::SerialNumberAnswer { address, serial_number, .. } => seq![
            pack_metric(address, PackField::SerialNumber, timestamp, MetricValue::Uint32(serial_number)),
        ],
        BmsMessage::VoltageBlock { address, offset, cells } => Seq::new(
            4,
            |k: int|
                pack_metric(
                    address,
                    PackField::CellVoltage { cell: (offset + k + 1) as u8 },
                    timestamp,
                    MetricValue::Uint32(cells@[k]),
                ),
        ),
        BmsMessage::AhAndStatusBlock {
            address,
            ah_discharged,
            remaining_capacity,
            soh,
            soc,
            current_tenths,
        } => seq![
            pack_metric(address, PackField::AhDischarged, timestamp, MetricValue::Uint32(ah_discharged as u32)),
            pack_metric(
                address,
                PackField::RemainingCapacity,
                timestamp,
                MetricValue::Uint32(remaining_capacity as u32),
            ),
            pack_metric(address, PackField::Soh, timestamp, MetricValue::Uint32(soh as u32)),
            pack_metric(address, PackField::Soc, timestamp, MetricValue::Uint32(soc as u32)),
            pack_metric(address, PackField::Current, timestamp, tenths(current_tenths as int)),
        ],
        BmsMessage::TemperatureBlock { address, temperatures } => Seq::new(
            3,
            |k: int|
                pack_metric(
                    address,
                    PackField::Temperature { sensor: k as u8 },
                    timestamp,
                    MetricValue::Sint32(temperatures@[k] as i32),
                ),
        ),
        BmsMessage::InternalStatusBlock { address, alerts } => seq![
            pack_metric(address, PackField::MajorAlert1, timestamp, MetricValue::Uint32(alerts@[0] as u32)),
            pack_metric(address, PackField::MajorAlert2, timestamp, MetricValue::Uint32(alerts@[1] as u32)),
            pack_metric(address, PackField::MajorAlert3, timestamp, MetricValue::Uint32(alerts@[2] as u32)),
            pack_metric(address, PackField::MinorAlert, timestamp, MetricValue::Uint32(alerts@[3] as u32)),
        ],
        BmsMessage::MasterControl { max_discharge_current, max_recharge_current } => seq![
            global_metric(
                GlobalField::MaxBatteryDischargeCurrent,
                timestamp,
                MetricValue::Uint32(max_discharge_current as u32),
            ),
            global_metric(
                GlobalField::MaxBatteryRechargeCurrent,
                timestamp,
                MetricValue::Uint32(max_recharge_current as u32),
            ),
        ],
        BmsMessage::MasterStatus3 { soc, soc_id, alarm_state, connected, powerbus } => seq![
            global_metric(GlobalField::GlobalSoc, timestamp, MetricValue::Uint32(soc as u32)),
            global_metric(GlobalField::IdGlobalSoc, timestamp, MetricValue::Uint32(soc_id as u32)),
            global_metric(GlobalField::GlobalIbmsAlarmState, timestamp, MetricValue::Uint32(alarm_state as u32)),
            global_metric(GlobalField::NumberOfConnectedBms, timestamp, MetricValue::Uint32(connected as u32)),
            global_metric(GlobalField::PowerbusInformation, timestamp, MetricValue::Uint32(powerbus as u32)),
        ],
        BmsMessage::MasterStatus4 {
            t_min,
            t_max,
            t_min_id,
            t_max_id,
            v_min,
            v_max,
            v_min_id,
            v_max_id,
        } => seq![
            global_metric(GlobalField::BatTmin, timestamp, MetricValue::Sint32(t_min as i32)),
            global_metric(GlobalField::BatTmax, timestamp, MetricValue::Sint32(t_max as i32)),
            global_metric(GlobalField::BatIdTmin, timestamp, MetricValue::Uint32(t_min_id as u32)),
            global_metric(GlobalField::BatIdTmax, timestamp, MetricValue::Uint32(t_max_id as u32)),
            global_metric(GlobalField::BatVmin, timestamp, MetricValue::Uint32(v_min as u32)),
            global_metric(GlobalField::BatVmax, timestamp, MetricValue::Uint32(v_max as u32)),
            global_metric(GlobalField::BatIdVmin, timestamp, MetricValue::Uint32(v_min_id as u32)),
            global_metric(GlobalField::BatIdVmax, timestamp, MetricValue::Uint32(v_max_id as u32)),
        ],
        BmsMessage::MasterStatus5 {
            bat_current_tenths,
            cell_v_min,
            cell_v_max,
            cell_v_min_id,
            cell_v_max_id,
        } => seq![
            global_metric(GlobalField::GlobalBatCurrent, timestamp, tenths(bat_current_tenths as int)),
            global_metric(GlobalField::GlobalCellVMin, timestamp, MetricValue::Sint32(cell_v_min as i32)),
            global_metric(GlobalField::GlobalCellVMax, timestamp, MetricValue::Sint32(cell_v_max as i32)),
            global_metric(GlobalField::GlobalCellVMinId, timestamp, MetricValue::Uint32(cell_v_min_id as u32)),
            global_metric(GlobalField::GlobalCellVMaxId, timestamp, MetricValue::Uint32(cell_v_max_id as u32)),
        ],
        BmsMessage::Unknown { .. } => Seq::empty(),
    }
}

/// The pack that a message makes known: the sender of a serial-number
/// answer, without the address that the frame came under.
pub open spec fn spec_discovered(message: BmsMessage) -> Option<BatteryPack> {
    match message {
        BmsMessage::SerialNumberAnswer { serial_number, part_number, .. } => Some(
            BatteryPack { address: UNASSIGNED_ADDRESS, serial_number, part_number },
        ),
        _ => None,
    }
}

/// What a decoded frame gives: the decoder's error, or an error for a frame
/// that the protocol does not know, or else the metrics and the discovered
/// pack of the message.
pub open spec fn spec_outcome(
    decoded: Result<BmsMessage, BmsError>,
    timestamp: u64,
) -> Result<(Seq<DecodedMetric>, Option<BatteryPack>), BmsError> {
    match decoded {
        Err(error) => Err(error),
        Ok(BmsMessage::Unknown { address, function }) => Err(
            BmsError::UnknownFunctionCode { address, function },
        ),
        Ok(message) => Ok((spec_metrics_of(message, timestamp), spec_discovered(message))),
    }
}

/// What the frame with this identifier and payload gives when it is received
/// at `timestamp`.
pub open spec fn spec_demultiplex(
    identifier: u32,
    payload: Seq<u8>,
    timestamp: u64,
) -> Result<(Seq<DecodedMetric>, Option<BatteryPack>), BmsError> {
    spec_outcome(spec_decode(identifier, payload), timestamp)
}

/// What an outcome holds, by the views of its parts.
pub open spec fn outcome_view(
    outcome: Result<FrameOutcome, BmsError>,
) -> Result<(Seq<DecodedMetric>, Option<BatteryPack>), BmsError> {
    match outcome {
        Ok(o) => Ok((o.metrics@, o.discovered)),
        Err(e) => Err(e),
    }
}

/// The metrics that an outcome puts on the metric bus: none for an error.
pub open spec fn emitted(
    outcome: Result<(Seq<DecodedMetric>, Option<BatteryPack>), BmsError>,
) -> Seq<DecodedMetric> {
    match outcome {
        Ok(o) => o.0,
        Err(_) => Seq::empty(),
    }
}

/// The metrics of a message.
pub fn metrics_of(message: &BmsMessage, timestamp: u64) -> (metrics: Vec<DecodedMetric>)
    requires
        message.spec_wf(),
    ensures
        metrics@ == spec_metrics_of(*message, timestamp),
{
    let mut metrics: Vec<DecodedMetric> = Vec::new();
    match *message {
        BmsMessage::SerialNumberAnswer { address, serial_number, .. } => {
            metrics.push(pack(address, PackField::SerialNumber, timestamp, MetricValue::Uint32(serial_number)));
        },
        BmsMessage::VoltageBlock { address, offset, cells } => {
            let mut k: usize = 0;
            while k < 4
                invariant
                    k <= 4,
                    offset <= 16,
                    metrics@.len() == k,
                    forall|j: int|
                        0 <= j < k ==> metrics@[j] == #[trigger] spec_metrics_of(*message, timestamp)[j],
                    *message == (BmsMessage::VoltageBlock { address, offset, cells }),
                decreases 4 - k,
            {
                let cell: u8 = offset + k as u8 + 1;
                metrics.push(
                    pack(address, PackField::CellVoltage { cell }, timestamp, MetricValue::Uint32(cells[k])),
                );
                k += 1;
            }
        },
        BmsMessage::AhAndStatusBlock {
            address,
            ah_discharged,
            remaining_capacity,
            soh,
            soc,
            current_tenths,
        } => {
            metrics.push(
                pack(address, PackField::AhDischarged, timestamp, MetricValue::Uint32(ah_discharged as u32)),
            );
            metrics.push(
                pack(
                    address,
                    PackField::RemainingCapacity,
                    timestamp,
                    MetricValue::Uint32(remaining_capacity as u32),
                ),
            );
            metrics.push(pack(address, PackField::Soh, timestamp, MetricValue::Uint32(soh as u32)));
            metrics.push(pack(address, PackField::Soc, timestamp, MetricValue::Uint32(soc as u32)));
            metrics.push(
                pack(
                    address,
                    PackField::Current,
                    timestamp,
                    MetricValue::Fraction {
                        numerator: current_tenths as i32,
                        denominator: CURRENT_DENOMINATOR,
                    },
                ),
            );
        },
        BmsMessage::TemperatureBlock { address, temperatures } => {
            let mut k: usize = 0;
            while k < 3
                invariant
                    k <= 3,
                    metrics@.len() == k,
                    forall|j: int|
                        0 <= j < k ==> metrics@[j] == #[trigger] spec_metrics_of(*message, timestamp)[j],
                    *message == (BmsMessage::TemperatureBlock { address, temperatures }),
                decreases 3 - k,
            {
                metrics.push(
                    pack(
                        address,
                        PackField::Temperature { sensor: k as u8 },
                        timestamp,
                        MetricValue::Sint32(temperatures[k] as i32),
                    ),
                );
                k += 1;
            }
        },
        BmsMessage::InternalStatusBlock { address, alerts } => {
            metrics.push(pack(address, PackField::MajorAlert1, timestamp, MetricValue::Uint32(alerts[0] as u32)));
            metrics.push(pack(address, PackField::MajorAlert2, timestamp, MetricValue::Uint32(alerts[1] as u32)));
            metrics.push(pack(address, PackField::MajorAlert3, timestamp, MetricValue::Uint32(alerts[2] as u32)));
            metrics.push(pack(address, PackField::MinorAlert, timestamp, MetricValue::Uint32(alerts[3] as u32)));
        },
        BmsMessage::MasterControl { max_discharge_current, max_recharge_current } => {
            metrics.push(
                global(
                    GlobalField::MaxBatteryDischargeCurrent,
                    timestamp,
                    MetricValue::Uint32(max_discharge_current as u32),
                ),
            );
            metrics.push(
                global(
                    GlobalField::MaxBatteryRechargeCurrent,
                    timestamp,
                    MetricValue::Uint32(max_recharge_current as u32),
                ),
            );
        },
        BmsMessage::MasterStatus3 { soc, soc_id, alarm_state, connected, powerbus } => {
            metrics.push(global(GlobalField::GlobalSoc, timestamp, MetricValue::Uint32(soc as u32)));
            metrics.push(global(GlobalField::IdGlobalSoc, timestamp, MetricValue::Uint32(soc_id as u32)));
            metrics.push(
                global(GlobalField::GlobalIbmsAlarmState, timestamp, MetricValue::Uint32(alarm_state as u32)),
            );
            metrics.push(
                global(GlobalField::NumberOfConnectedBms, timestamp, MetricValue::Uint32(connected as u32)),
            );
            metrics.push(
                global(GlobalField::PowerbusInformation, timestamp, MetricValue::Uint32(powerbus as u32)),
            );
        },
        BmsMessage::MasterStatus4 {
            t_min,
            t_max,
            t_min_id,
            t_max_id,
            v_min,
            v_max,
            v_min_id,
            v_max_id,
        } => {
            metrics.push(global(GlobalField::BatTmin, timestamp, MetricValue::Sint32(t_min as i32)));
            metrics.push(global(GlobalField::BatTmax, timestamp, MetricValue::Sint32(t_max as i32)));
            metrics.push(global(GlobalField::BatIdTmin, timestamp, MetricValue::Uint32(t_min_id as u32)));
            metrics.push(global(GlobalField::BatIdTmax, timestamp, MetricValue::Uint32(t_max_id as u32)));
            metrics.push(global(GlobalField::BatVmin, timestamp, MetricValue::Uint32(v_min as u32)));
            metrics.push(global(GlobalField::BatVmax, timestamp, MetricValue::Uint32(v_max as u32)));
            metrics.push(global(GlobalField::BatIdVmin, timestamp, MetricValue::Uint32(v_min_id as u32)));
            metrics.push(global(GlobalField::BatIdVmax, timestamp, MetricValue::Uint32(v_max_id as u32)));
        },
        BmsMessage::MasterStatus5 {
            bat_current_tenths,
            cell_v_min,
            cell_v_max,
            cell_v_min_id,
            cell_v_max_id,
        } => {
            metrics.push(
                global(
                    GlobalField::GlobalBatCurrent,
                    timestamp,
                    MetricValue::Fraction {
                        numerator: bat_current_tenths as i32,
                        denominator: CURRENT_DENOMINATOR,
                    },
                ),
            );
            metrics.push(global(GlobalField::GlobalCellVMin, timestamp, MetricValue::Sint32(cell_v_min as i32)));
            metrics.push(global(GlobalField::GlobalCellVMax, timestamp, MetricValue::Sint32(cell_v_max as i32)));
            metrics.push(
                global(GlobalField::GlobalCellVMinId, timestamp, MetricValue::Uint32(cell_v_min_id as u32)),
            );
            metrics.push(
                global(GlobalField::GlobalCellVMaxId, timestamp, MetricValue::Uint32(cell_v_max_id as u32)),
            );
        },
        BmsMessage::Unknown { .. } => {},
    }
    metrics
}

/// A metric of the pack at `slot`.
fn pack(slot: u8, field: PackField, timestamp: u64, value: MetricValue) -> (metric: DecodedMetric)
    ensures
        metric == pack_metric(slot, field, timestamp, value),
{
    DecodedMetric { id: MetricId::Pack { slot, field }, timestamp, value }
}

/// A metric of the cluster.
fn global(field: GlobalField, timestamp: u64, value: MetricValue) -> (metric: DecodedMetric)
    ensures
        metric == global_metric(field, timestamp, value),
{
    DecodedMetric { id: MetricId::Global(field), timestamp, value }
}

/// The pack that a message makes known.
pub fn discovered(message: &BmsMessage) -> (pack: Option<BatteryPack>)
    ensures
        pack == spec_discovered(*message),
{
    match *message {
        BmsMessage::SerialNumberAnswer { serial_number, part_number, .. } => Some(
            BatteryPack::discovered(serial_number, part_number),
        ),
        _ => None,
    }
}

/// Turns one inbound frame, received at `timestamp`, into its metrics.
///
/// A frame whose payload is not eight bytes long is malformed and gives
/// nothing. A frame under an unknown function code gives nothing but the
/// error that names the code. Every other frame gives its metrics, and a
/// serial-number answer also the pack for the registry.
pub fn demultiplex(identifier: u32, payload: &[u8], timestamp: u64) -> (outcome: Result<
    FrameOutcome,
    BmsError,
>)
    ensures
        outcome_view(outcome) == spec_demultiplex(identifier, payload@, timestamp),
{
    match decode(identifier, payload) {
        Err(error) => Err(error),
        Ok(BmsMessage::Unknown { address, function }) => Err(
            BmsError::UnknownFunctionCode { address, function },
        ),
        Ok(message) => Ok(
            FrameOutcome {
                metrics: metrics_of(&message, timestamp),
                discovered: discovered(&message),
            },
        ),
    }
}

/// Turns one frame off the bus, received at `timestamp`, into its metrics.
///
/// The frame's identifier number and data bytes are read through the
/// `socketcan` crate; what they give is what [`demultiplex`] gives for them.
pub fn demultiplex_frame(frame: &CanFrame, timestamp: u64) -> (outcome: Result<FrameOutcome, BmsError>)
    ensures
        outcome_view(outcome) == spec_demultiplex(
            frame_id_number(*frame),
            frame_payload(*frame),
            timestamp,
        ),
{
    let parts = frame_parts(frame);
    demultiplex(parts.0, parts.1.as_slice(), timestamp)
}

/// A frame whose payload is not eight bytes long is malformed, whatever its
/// identifier, and puts no metric on the bus.
pub proof fn lemma_malformed_frame_gives_nothing(identifier: u32, payload: Seq<u8>, timestamp: u64)
    requires
        payload.len() != 8,
    ensures
        spec_decode(identifier, payload) == Err::<BmsMessage, BmsError>(BmsError::MalformedFrame),
        spec_demultiplex(identifier, payload, timestamp) == Err::<
            (Seq<DecodedMetric>, Option<BatteryPack>),
            BmsError,
        >(BmsError::MalformedFrame),
        emitted(spec_demultiplex(identifier, payload, timestamp)).len() == 0,
{
}

/// Every metric of a message that a frame can hold has a key that exists,
/// carries the time at which the frame was received, and, where it is a
/// fraction, has a denominator that is not zero.
pub proof fn lemma_metrics_are_well_keyed(message: BmsMessage, timestamp: u64, k: int)
    requires
        message.spec_wf(),
        0 <= k < spec_metrics_of(message, timestamp).len(),
    ensures
        spec_metrics_of(message, timestamp)[k].id.spec_is_valid(),
        spec_metrics_of(message, timestamp)[k].timestamp == timestamp,
        spec_metrics_of(message, timestamp)[k].value matches MetricValue::Fraction {
            denominator,
            ..
        } ==> denominator != 0,
{
}

/// A serial-number answer from a pack, and no other frame, makes a pack
/// known; the pack has the serial number and the part number of the answer
/// and no address.
pub proof fn lemma_only_answers_discover(identifier: u32, payload: Seq<u8>, timestamp: u64)
    ensures
        (spec_demultiplex(identifier, payload, timestamp) matches Ok(outcome) && outcome.1 is Some)
            <==> payload.len() == 8 && spec_is_pack_address(spec_address_of(identifier))
            && spec_function_of(identifier) == 0x024,
        spec_demultiplex(identifier, payload, timestamp) matches Ok(outcome) ==> (
        outcome.1 matches Some(pack) ==> pack.address == UNASSIGNED_ADDRESS && pack.serial_number
            == be_u32_at(payload, 0) && pack.part_number == be_u32_at(payload, 4)),
{
}

/// A frame of eight bytes puts between one and eight metrics on the bus,
/// unless its function code is unknown.
pub proof fn lemma_metric_counts(message: BmsMessage, timestamp: u64)
    ensures
        spec_metrics_of(message, timestamp).len() == match message {
            BmsMessage::SerialNumberAnswer { .. } => 1nat,
            BmsMessage::VoltageBlock { .. } => 4nat,
            BmsMessage::AhAndStatusBlock { .. } => 5nat,
            BmsMessage::TemperatureBlock { .. } => 3nat,
            BmsMessage::InternalStatusBlock { .. } => 4nat,
            BmsMessage::MasterControl { .. } => 2nat,
            BmsMessage::MasterStatus3 { .. } => 5nat,
            BmsMessage::MasterStatus4 { .. } => 8nat,
            BmsMessage::MasterStatus5 { .. } => 5nat,
            BmsMessage::Unknown { .. } => 0nat,
        },
{
}

} // verus!

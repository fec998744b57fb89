//! The metrics that the engine publishes.
//!
//! A metric is named by a key out of a fixed set: a field of one pack, by
//! the pack's short address, or a field of the whole cluster. No name is
//! built at run time.

use vstd::prelude::*;

verus! {

/// A measured field of one battery pack.
#[derive(Clone, Copy, Debug, PartialEq, Eq, Structural)]
pub enum PackField {
    /// The serial number that the pack answered a query with.
    SerialNumber,
    /// The voltage of one cell; cells are numbered from 1 to 20.
    CellVoltage { cell: u8 },
    /// Ampere hours discharged over the pack's life.
    AhDischarged,
    /// Remaining capacity.
    RemainingCapacity,
    /// State of health.
    Soh,
    /// State of charge.
    Soc,
    /// Battery current.
    Current,
    /// The reading of one temperature sensor; sensors are numbered from 0
    /// to 2.
    Temperature { sensor: u8 },
    /// First major alert code.
    MajorAlert1,
    /// Second major alert code.
    MajorAlert2,
    /// Third major alert code.
    MajorAlert3,
    /// Minor alert code.
    MinorAlert,
}

/// A field that the master reports for the whole cluster.
#[derive(Clone, Copy, Debug, PartialEq, Eq, Structural)]
pub enum GlobalField {
    MaxBatteryDischargeCurrent,
    MaxBatteryRechargeCurrent,
    GlobalSoc,
    IdGlobalSoc,
    GlobalIbmsAlarmState,
    NumberOfConnectedBms,
    PowerbusInformation,
    BatTmin,
    BatTmax,
    BatIdTmin,
    BatIdTmax,
    BatVmin,
    BatVmax,
    BatIdVmin,
    BatIdVmax,
    GlobalBatCurrent,
    GlobalCellVMin,
    GlobalCellVMax,
    GlobalCellVMinId,
    GlobalCellVMaxId,
}

/// The key of a metric.
#[derive(Clone, Copy, Debug, PartialEq, Eq, Structural)]
pub enum MetricId {
    /// A field of the pack with short address `slot`.
    Pack { slot: u8, field: PackField },
    /// A field of the whole cluster.
    Global(GlobalField),
}

/// The value of a metric.
#[derive(Clone, Copy, Debug, PartialEq, Eq, Structural)]
pub enum MetricValue {
    /// An unsigned count or raw reading.
    Uint32(u32),
    /// A signed reading.
    Sint32(i32),
    /// The number `numerator / denominator`, for a reading that the protocol
    /// scales by a fixed factor. The denominator is never zero.
    Fraction { numerator: i32, denominator: u32 },
}

/// One value of one metric, as observed at `timestamp`.
#[derive(Clone, Copy, Debug, PartialEq, Eq, Structural)]
pub struct DecodedMetric {
    pub id: MetricId,
    /// When the frame was received, in milliseconds since the Unix epoch.
    pub timestamp: u64,
    pub value: MetricValue,
}

impl PackField {
    /// The position of this field among the fields of a pack: a number
    /// below 64, different for different fields.
    pub open spec fn spec_ordinal(self) -> u16 {
        match self {
            PackField::SerialNumber => 0,
            PackField::CellVoltage { cell } => if 1 <= cell <= 20 {
                cell as u16
            } else {
                63
            },
            PackField::AhDischarged => 21,
            PackField::RemainingCapacity => 22,
            PackField::Soh => 23,
            PackField::Soc => 24,
            PackField::Current => 25,
            PackField::Temperature { sensor } => if sensor <= 2 {
                (26 + sensor) as u16
            } else {
                63
            },
            PackField::MajorAlert1 => 29,
            PackField::MajorAlert2 => 30,
            PackField::MajorAlert3 => 31,
            PackField::MinorAlert => 32,
        }
    }

    /// Whether the field exists: a cell from 1 to 20, a sensor from 0 to 2.
    pub open spec fn spec_is_valid(self) -> bool {
        match self {
            PackField::CellVoltage { cell } => 1 <= cell <= 20,
            PackField::Temperature { sensor } => sensor <= 2,
            _ => true,
        }
    }

    /// Whether the field exists.
    #[verifier::when_used_as_spec(spec_is_valid)]
    pub fn is_valid(self) -> (valid: bool)
        ensures
            valid == self.spec_is_valid(),
    {
        match self {
            PackField::CellVoltage { cell } => 1 <= cell && cell <= 20,
            PackField::Temperature { sensor } => sensor <= 2,
            _ => true,
        }
    }

    /// The position of this field among the fields of a pack.
    #[verifier::when_used_as_spec(spec_ordinal)]
    pub fn ordinal(self) -> (ordinal: u16)
        ensures
            ordinal == self.spec_ordinal(),
            ordinal < 64,
    {
        match self {
            PackField::SerialNumber => 0,
            PackField::CellVoltage { cell } => if 1 <= cell && cell <= 20 {
                cell as u16
            } else {
                63
            },
            PackField::AhDischarged => 21,
            PackField::RemainingCapacity => 22,
            PackField::Soh => 23,
            PackField::Soc => 24,
            PackField::Current => 25,
            PackField::Temperature { sensor } => if sensor <= 2 {
                26 + sensor as u16
            } else {
                63
            },
            PackField::MajorAlert1 => 29,
            PackField::MajorAlert2 => 30,
            PackField::MajorAlert3 => 31,
            PackField::MinorAlert => 32,
        }
    }
}

impl GlobalField {
    /// The position of this field among the cluster's fields: a number
    /// below 64, different for different fields.
    pub open spec fn spec_ordinal(self) -> u16 {
        match self {
            GlobalField::MaxBatteryDischargeCurrent => 0,
            GlobalField::MaxBatteryRechargeCurrent => 1,
            GlobalField::GlobalSoc => 2,
            GlobalField::IdGlobalSoc => 3,
            GlobalField::GlobalIbmsAlarmState => 4,
            GlobalField::NumberOfConnectedBms => 5,
            GlobalField::PowerbusInformation => 6,
            GlobalField::BatTmin => 7,
            GlobalField::BatTmax => 8,
            GlobalField::BatIdTmin => 9,
            GlobalField::BatIdTmax => 10,
            GlobalField::BatVmin => 11,
            GlobalField::BatVmax => 12,
            GlobalField::BatIdVmin => 13,
            GlobalField::BatIdVmax => 14,
            GlobalField::GlobalBatCurrent => 15,
            GlobalField::GlobalCellVMin => 16,
            GlobalField::GlobalCellVMax => 17,
            GlobalField::GlobalCellVMinId => 18,
            GlobalField::GlobalCellVMaxId => 19,
        }
    }

    /// The position of this field among the cluster's fields.
    #[verifier::when_used_as_spec(spec_ordinal)]
    pub fn ordinal(self) -> (ordinal: u16)
        ensures
            ordinal == self.spec_ordinal(),
            ordinal < 64,
    {
        match self {
            GlobalField::MaxBatteryDischargeCurrent => 0,
            GlobalField::MaxBatteryRechargeCurrent => 1,
            GlobalField::GlobalSoc => 2,
            GlobalField::IdGlobalSoc => 3,
            GlobalField::GlobalIbmsAlarmState => 4,
            GlobalField::NumberOfConnectedBms => 5,
            GlobalField::PowerbusInformation => 6,
            GlobalField::BatTmin => 7,
            GlobalField::BatTmax => 8,
            GlobalField::BatIdTmin => 9,
            GlobalField::BatIdTmax => 10,
            GlobalField::BatVmin => 11,
            GlobalField::BatVmax => 12,
            GlobalField::BatIdVmin => 13,
            GlobalField::BatIdVmax => 14,
            GlobalField::GlobalBatCurrent => 15,
            GlobalField::GlobalCellVMin => 16,
            GlobalField::GlobalCellVMax => 17,
            GlobalField::GlobalCellVMinId => 18,
            GlobalField::GlobalCellVMaxId => 19,
        }
    }
}

impl MetricId {
    /// Whether the key names a metric that exists: a pack slot from 1 to 9
    /// with a field that exists, or a field of the cluster.
    pub open spec fn spec_is_valid(self) -> bool {
        match self {
            MetricId::Pack { slot, field } => 1 <= slot <= 9 && field.spec_is_valid(),
            MetricId::Global(_) => true,
        }
    }

    /// The key as one number: the slot times 64 plus the field's position,
    /// with slot 0 for the cluster's fields.
    pub open spec fn spec_key(self) -> u16 {
        match self {
            MetricId::Pack { slot, field } => (slot * 64 + field.spec_ordinal()) as u16,
            MetricId::Global(field) => field.spec_ordinal(),
        }
    }

    /// Whether the key names a metric that exists.
    #[verifier::when_used_as_spec(spec_is_valid)]
    pub fn is_valid(self) -> (valid: bool)
        ensures
            valid == self.spec_is_valid(),
    {
        match self {
            MetricId::Pack { slot, field } => 1 <= slot && slot <= 9 && field.is_valid(),
            MetricId::Global(_) => true,
        }
    }

    /// The key as one number.
    #[verifier::when_used_as_spec(spec_key)]
    pub fn key(self) -> (key: u16)
        ensures
            key == self.spec_key(),
    {
        match self {
            MetricId::Pack { slot, field } => slot as u16 * 64 + field.ordinal(),
            MetricId::Global(field) => field.ordinal(),
        }
    }
}

/// Two keys of existing metrics with the same number are the same key: the
/// key space is enumerated without a collision.
pub proof fn lemma_key_is_injective(a: MetricId, b: MetricId)
    requires
        a.spec_is_valid(),
        b.spec_is_valid(),
        a.spec_key() == b.spec_key(),
    ensures
        a == b,
{
}

} // verus!

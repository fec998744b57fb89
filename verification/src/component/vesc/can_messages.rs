//! The controller's messages.

use crate::bytes::{be_i16_at, be_i32_at, read_be_i16, read_be_i32};
use vstd::prelude::*;

verus! {

/// The length of every message of the controller.
pub const MESSAGE_LEN: usize = 8;

/// The kinds of message that the controller knows, each with its number.
#[derive(Clone, Copy, Debug, PartialEq, Eq, Structural)]
pub enum VescMessageIds {
    SetDuty,
    SetCurrent,
    SetCurrentBrake,
    SetRpm,
    SetPos,
    FillRxBuffer,
    FillRxBufferLong,
    ProcessRxBuffer,
    ProcessShortBuffer,
    Status1,
    SetCurrentRel,
    SetCurrentBrakeRel,
    SetCurrentHandbrake,
    SetCurrentHandbrakeRel,
    Status2,
    Status3,
    Status4,
    Ping,
    Pong,
    DetectApplyAllFoc,
    DetectApplyAllFocRes,
    ConfCurrentLimits,
    ConfStoreCurrentLimits,
    ConfCurrentLimitsIn,
    ConfStoreCurrentLimitsIn,
    ConfFocRems,
    ConfStoreFocErpms,
    Status5,
}

impl VescMessageIds {
    /// The number of this kind of message.
    pub open spec fn spec_number(self) -> u32 {
        match self {
            VescMessageIds::SetDuty => 0,
            VescMessageIds::SetCurrent => 1,
            VescMessageIds::SetCurrentBrake => 2,
            VescMessageIds::SetRpm => 3,
            VescMessageIds::SetPos => 4,
            VescMessageIds::FillRxBuffer => 5,
            VescMessageIds::FillRxBufferLong => 6,
            VescMessageIds::ProcessRxBuffer => 7,
            VescMessageIds::ProcessShortBuffer => 8,
            VescMessageIds::Status1 => 9,
            VescMessageIds::SetCurrentRel => 10,
            VescMessageIds::SetCurrentBrakeRel => 11,
            VescMessageIds::SetCurrentHandbrake => 12,
            VescMessageIds::SetCurrentHandbrakeRel => 13,
            VescMessageIds::Status2 => 14,
            VescMessageIds::Status3 => 15,
            VescMessageIds::Status4 => 16,
            VescMessageIds::Ping => 17,
            VescMessageIds::Pong => 18,
            VescMessageIds::DetectApplyAllFoc => 19,
            VescMessageIds::DetectApplyAllFocRes => 20,
            VescMessageIds::ConfCurrentLimits => 21,
            VescMessageIds::ConfStoreCurrentLimits => 22,
            VescMessageIds::ConfCurrentLimitsIn => 23,
            VescMessageIds::ConfStoreCurrentLimitsIn => 24,
            VescMessageIds::ConfFocRems => 25,
            VescMessageIds::ConfStoreFocErpms => 26,
            VescMessageIds::Status5 => 27,
        }
    }

    /// The kind of message with this number, if there is one.
    pub open spec fn spec_from_u32(number: u32) -> Option<VescMessageIds> {
        if number == 0 {
            Some(VescMessageIds::SetDuty)
        } else if number == 1 {
            Some(VescMessageIds::SetCurrent)
        } else if number == 2 {
            Some(VescMessageIds::SetCurrentBrake)
        } else if number == 3 {
            Some(VescMessageIds::SetRpm)
        } else if number == 4 {
            Some(VescMessageIds::SetPos)
        } else if number == 5 {
            Some(VescMessageIds::FillRxBuffer)
        } else if number == 6 {
            Some(VescMessageIds::FillRxBufferLong)
        } else if number == 7 {
            Some(VescMessageIds::ProcessRxBuffer)
        } else if number == 8 {
            Some(VescMessageIds::ProcessShortBuffer)
        } else if number == 9 {
            Some(VescMessageIds::Status1)
        } else if number == 10 {
            Some(VescMessageIds::SetCurrentRel)
        } else if number == 11 {
            Some(VescMessageIds::SetCurrentBrakeRel)
        } else if number == 12 {
            Some(VescMessageIds::SetCurrentHandbrake)
        } else if number == 13 {
            Some(VescMessageIds::SetCurrentHandbrakeRel)
        } else if number == 14 {
            Some(VescMessageIds::Status2)
        } else if number == 15 {
            Some(VescMessageIds::Status3)
        } else if number == 16 {
            Some(VescMessageIds::Status4)
        } else if number == 17 {
            Some(VescMessageIds::Ping)
        } else if number == 18 {
            Some(VescMessageIds::Pong)
        } else if number == 19 {
            Some(VescMessageIds::DetectApplyAllFoc)
        } else if number == 20 {
            Some(VescMessageIds::DetectApplyAllFocRes)
        } else if number == 21 {
            Some(VescMessageIds::ConfCurrentLimits)
        } else if number == 22 {
            Some(VescMessageIds::ConfStoreCurrentLimits)
        } else if number == 23 {
            Some(VescMessageIds::ConfCurrentLimitsIn)
        } else if number == 24 {
            Some(VescMessageIds::ConfStoreCurrentLimitsIn)
        } else if number == 25 {
            Some(VescMessageIds::ConfFocRems)
        } else if number == 26 {
            Some(VescMessageIds::ConfStoreFocErpms)
        } else if number == 27 {
            Some(VescMessageIds::Status5)
        } else {
            None
        }
    }

    /// The number of this kind of message.
    #[verifier::when_used_as_spec(spec_number)]
    pub fn number(self) -> (number: u32)
        ensures
            number == self.spec_number(),
            number <= 27,
    {
        match self {
            VescMessageIds::SetDuty => 0,
            VescMessageIds::SetCurrent => 1,
            VescMessageIds::SetCurrentBrake => 2,
            VescMessageIds::SetRpm => 3,
            VescMessageIds::SetPos => 4,
            VescMessageIds::FillRxBuffer => 5,
            VescMessageIds::FillRxBufferLong => 6,
            VescMessageIds::ProcessRxBuffer => 7,
            VescMessageIds::ProcessShortBuffer => 8,
            VescMessageIds::Status1 => 9,
            VescMessageIds::SetCurrentRel => 10,
            VescMessageIds::SetCurrentBrakeRel => 11,
            VescMessageIds::SetCurrentHandbrake => 12,
            VescMessageIds::SetCurrentHandbrakeRel => 13,
            VescMessageIds::Status2 => 14,
            VescMessageIds::Status3 => 15,
            VescMessageIds::Status4 => 16,
            VescMessageIds::Ping => 17,
            VescMessageIds::Pong => 18,
            VescMessageIds::DetectApplyAllFoc => 19,
            VescMessageIds::DetectApplyAllFocRes => 20,
            VescMessageIds::ConfCurrentLimits => 21,
            VescMessageIds::ConfStoreCurrentLimits => 22,
            VescMessageIds::ConfCurrentLimitsIn => 23,
            VescMessageIds::ConfStoreCurrentLimitsIn => 24,
            VescMessageIds::ConfFocRems => 25,
            VescMessageIds::ConfStoreFocErpms => 26,
            VescMessageIds::Status5 => 27,
        }
    }

    /// The kind of message with this number, if there is one.
    pub fn from_u32(number: u32) -> (id: Option<VescMessageIds>)
        ensures
            id == Self::spec_from_u32(number),
            id is Some <==> number <= 27,
            id matches Some(found) ==> found.spec_number() == number,
    {
        match number {
            0 => Some(VescMessageIds::SetDuty),
            1 => Some(VescMessageIds::SetCurrent),
            2 => Some(VescMessageIds::SetCurrentBrake),
            3 => Some(VescMessageIds::SetRpm),
            4 => Some(VescMessageIds::SetPos),
            5 => Some(VescMessageIds::FillRxBuffer),
            6 => Some(VescMessageIds::FillRxBufferLong),
            7 => Some(VescMessageIds::ProcessRxBuffer),
            8 => Some(VescMessageIds::ProcessShortBuffer),
            9 => Some(VescMessageIds::Status1),
            10 => Some(VescMessageIds::SetCurrentRel),
            11 => Some(VescMessageIds::SetCurrentBrakeRel),
            12 => Some(VescMessageIds::SetCurrentHandbrake),
            13 => Some(VescMessageIds::SetCurrentHandbrakeRel),
            14 => Some(VescMessageIds::Status2),
            15 => Some(VescMessageIds::Status3),
            16 => Some(VescMessageIds::Status4),
            17 => Some(VescMessageIds::Ping),
            18 => Some(VescMessageIds::Pong),
            19 => Some(VescMessageIds::DetectApplyAllFoc),
            20 => Some(VescMessageIds::DetectApplyAllFocRes),
            21 => Some(VescMessageIds::ConfCurrentLimits),
            22 => Some(VescMessageIds::ConfStoreCurrentLimits),
            23 => Some(VescMessageIds::ConfCurrentLimitsIn),
            24 => Some(VescMessageIds::ConfStoreCurrentLimitsIn),
            25 => Some(VescMessageIds::ConfFocRems),
            26 => Some(VescMessageIds::ConfStoreFocErpms),
            27 => Some(VescMessageIds::Status5),
            _ => None,
        }
    }
}

/// The metrics of the controller.
#[derive(Clone, Copy, Debug, PartialEq, Eq, Structural)]
pub enum VescMetricId {
    ThrottlePos,
    EscRpm,
    EscTotalCurrent,
    EscDutyCycle,
    EscAmpHours,
    EscAmpHoursCharged,
    EscWattHours,
    EscWattHoursCharged,
    EscMosfetTemp,
    EscMotorTemp,
    EscTotalInCurrent,
    EscPidPos,
    EscTachometer,
    EscInVoltage,
}

/// The value of a metric of the controller.
#[derive(Clone, Copy, Debug, PartialEq, Eq, Structural)]
pub enum VescValue {
    /// A whole number.
    Int32(i32),
    /// The number `numerator / denominator`. The denominator is never zero.
    Fraction { numerator: i32, denominator: u32 },
}

/// One value of one metric of the controller.
#[derive(Clone, Copy, Debug, PartialEq, Eq, Structural)]
pub struct VescMetric {
    pub id: VescMetricId,
    pub value: VescValue,
}

/// A metric with the value `numerator / denominator`.
pub open spec fn fraction(id: VescMetricId, numerator: int, denominator: u32) -> VescMetric {
    VescMetric { id, value: VescValue::Fraction { numerator: numerator as i32, denominator } }
}

/// A metric with a whole number for its value.
pub open spec fn whole(id: VescMetricId, value: i32) -> VescMetric {
    VescMetric { id, value: VescValue::Int32(value) }
}

/// A message of the controller: how it is read from eight bytes and which
/// metrics it gives.
pub trait CanMessage: Sized {
    /// The message that `data` holds.
    spec fn spec_from_can_data(data: Seq<u8>) -> Self;

    /// The metrics of the message, in the order of its fields.
    spec fn spec_metrics(&self) -> Seq<VescMetric>;

    /// Reads the message from the payload of its frame.
    fn from_can_data(data: &[u8]) -> (message: Self)
        requires
            data@.len() >= MESSAGE_LEN,
        ensures
            message == Self::spec_from_can_data(data@),
    ;

    /// The metrics of the message.
    fn metrics(&self) -> (metrics: Vec<VescMetric>)
        ensures
            metrics@ == self.spec_metrics(),
    ;
}

/// Reads a message of kind `M` from `data` and gives its metrics.
pub fn parse<M: CanMessage>(data: &[u8]) -> (metrics: Vec<VescMetric>)
    requires
        data@.len() >= MESSAGE_LEN,
    ensures
        metrics@ == M::spec_from_can_data(data@).spec_metrics(),
{
    let message = M::from_can_data(data);
    message.metrics()
}

fn fraction_metric(id: VescMetricId, numerator: i32, denominator: u32) -> (metric: VescMetric)
    ensures
        metric == fraction(id, numerator as int, denominator),
{
    VescMetric { id, value: VescValue::Fraction { numerator, denominator } }
}

fn whole_metric(id: VescMetricId, value: i32) -> (metric: VescMetric)
    ensures
        metric == whole(id, value),
{
    VescMetric { id, value: VescValue::Int32(value) }
}

/// The command that sets the duty cycle, in hundred-thousandths.
#[derive(Clone, Copy, Debug, PartialEq, Eq, Structural)]
pub struct SetDutyMsg {
    pub duty_cycle: i32,
}

impl CanMessage for SetDutyMsg {
    open spec fn spec_from_can_data(data: Seq<u8>) -> Self {
        SetDutyMsg { duty_cycle: be_i32_at(data, 0) as i32 }
    }

    open spec fn spec_metrics(&self) -> Seq<VescMetric> {
        seq![fraction(VescMetricId::ThrottlePos, self.duty_cycle as int, 100_000)]
    }

    fn from_can_data(data: &[u8]) -> (message: Self) {
        SetDutyMsg { duty_cycle: read_be_i32(data, 0) }
    }

    fn metrics(&self) -> (metrics: Vec<VescMetric>) {
        let mut metrics: Vec<VescMetric> = Vec::new();
        metrics.push(fraction_metric(VescMetricId::ThrottlePos, self.duty_cycle, 100_000));
        assert(metrics@ =~= self.spec_metrics());
        metrics
    }
}

/// The first status message: the speed, and the current and the duty cycle
/// in tenths.
#[derive(Clone, Copy, Debug, PartialEq, Eq, Structural)]
pub struct StatusMsg1 {
    pub rpm: i32,
    pub total_current: i16,
    pub duty_cycle: i16,
}

impl CanMessage for StatusMsg1 {
    open spec fn spec_from_can_data(data: Seq<u8>) -> Self {
        StatusMsg1 {
            rpm: be_i32_at(data, 0) as i32,
            total_current: be_i16_at(data, 4) as i16,
            duty_cycle: be_i16_at(data, 6) as i16,
        }
    }

    open spec fn spec_metrics(&self) -> Seq<VescMetric> {
        seq![
            whole(VescMetricId::EscRpm, self.rpm),
            fraction(VescMetricId::EscTotalCurrent, self.total_current as int, 10),
            fraction(VescMetricId::EscDutyCycle, self.duty_cycle as int, 10),
        ]
    }

    fn from_can_data(data: &[u8]) -> (message: Self) {
        StatusMsg1 {
            rpm: read_be_i32(data, 0),
            total_current: read_be_i16(data, 4),
            duty_cycle: read_be_i16(data, 6),
        }
    }

    fn metrics(&self) -> (metrics: Vec<VescMetric>) {
        let mut metrics: Vec<VescMetric> = Vec::new();
        metrics.push(whole_metric(VescMetricId::EscRpm, self.rpm));
        metrics.push(fraction_metric(VescMetricId::EscTotalCurrent, self.total_current as i32, 10));
        metrics.push(fraction_metric(VescMetricId::EscDutyCycle, self.duty_cycle as i32, 10));
        assert(metrics@ =~= self.spec_metrics());
        metrics
    }
}

/// The second status message: ampere hours drawn and charged, in
/// ten-thousandths.
#[derive(Clone, Copy, Debug, PartialEq, Eq, Structural)]
pub struct StatusMsg2 {
    pub amp_hours: i32,
    pub amp_hours_charged: i32,
}

impl CanMessage for StatusMsg2 {
    open spec fn spec_from_can_data(data: Seq<u8>) -> Self {
        StatusMsg2 {
            amp_hours: be_i32_at(data, 0) as i32,
            amp_hours_charged: be_i32_at(data, 4) as i32,
        }
    }

    open spec fn spec_metrics(&self) -> Seq<VescMetric> {
        seq![
            fraction(VescMetricId::EscAmpHours, self.amp_hours as int, 10_000),
            fraction(VescMetricId::EscAmpHoursCharged, self.amp_hours_charged as int, 10_000),
        ]
    }

    fn from_can_data(data: &[u8]) -> (message: Self) {
        StatusMsg2 { amp_hours: read_be_i32(data, 0), amp_hours_charged: read_be_i32(data, 4) }
    }

    fn metrics(&self) -> (metrics: Vec<VescMetric>) {
        let mut metrics: Vec<VescMetric> = Vec::new();
        metrics.push(fraction_metric(VescMetricId::EscAmpHours, self.amp_hours, 10_000));
        metrics.push(fraction_metric(VescMetricId::EscAmpHoursCharged, self.amp_hours_charged, 10_000));
        assert(metrics@ =~= self.spec_metrics());
        metrics
    }
}

/// The third status message: watt hours drawn and charged, in
/// ten-thousandths.
#[derive(Clone, Copy, Debug, PartialEq, Eq, Structural)]
pub struct StatusMsg3 {
    pub watt_hours: i32,
    pub watt_hours_charged: i32,
}

impl CanMessage for StatusMsg3 {
    open spec fn spec_from_can_data(data: Seq<u8>) -> Self {
        StatusMsg3 {
            watt_hours: be_i32_at(data, 0) as i32,
            watt_hours_charged: be_i32_at(data, 4) as i32,
        }
    }

    open spec fn spec_metrics(&self) -> Seq<VescMetric> {
        seq![
            fraction(VescMetricId::EscWattHours, self.watt_hours as int, 10_000),
            fraction(VescMetricId::EscWattHoursCharged, self.watt_hours_charged as int, 10_000),
        ]
    }

    fn from_can_data(data: &[u8]) -> (message: Self) {
        StatusMsg3 { watt_hours: read_be_i32(data, 0), watt_hours_charged: read_be_i32(data, 4) }
    }

    fn metrics(&self) -> (metrics: Vec<VescMetric>) {
        let mut metrics: Vec<VescMetric> = Vec::new();
        metrics.push(fraction_metric(VescMetricId::EscWattHours, self.watt_hours, 10_000));
        metrics.push(fraction_metric(VescMetricId::EscWattHoursCharged, self.watt_hours_charged, 10_000));
        assert(metrics@ =~= self.spec_metrics());
        metrics
    }
}

/// The fourth status message: two temperatures and the input current in
/// tenths, and the position in fiftieths.
#[derive(Clone, Copy, Debug, PartialEq, Eq, Structural)]
pub struct StatusMsg4 {
    pub mosfet_temp: i16,
    pub motor_temp: i16,
    pub total_in_cur: i16,
    pub pid_pos: i16,
}

impl CanMessage for StatusMsg4 {
    open spec fn spec_from_can_data(data: Seq<u8>) -> Self {
        StatusMsg4 {
            mosfet_temp: be_i16_at(data, 0) as i16,
            motor_temp: be_i16_at(data, 2) as i16,
            total_in_cur: be_i16_at(data, 4) as i16,
            pid_pos: be_i16_at(data, 6) as i16,
        }
    }

    open spec fn spec_metrics(&self) -> Seq<VescMetric> {
        seq![
            fraction(VescMetricId::EscMosfetTemp, self.mosfet_temp as int, 10),
            fraction(VescMetricId::EscMotorTemp, self.motor_temp as int, 10),
            fraction(VescMetricId::EscTotalInCurrent, self.total_in_cur as int, 10),
            fraction(VescMetricId::EscPidPos, self.pid_pos as int, 50),
        ]
    }

    fn from_can_data(data: &[u8]) -> (message: Self) {
        StatusMsg4 {
            mosfet_temp: read_be_i16(data, 0),
            motor_temp: read_be_i16(data, 2),
            total_in_cur: read_be_i16(data, 4),
            pid_pos: read_be_i16(data, 6),
        }
    }

    fn metrics(&self) -> (metrics: Vec<VescMetric>) {
        let mut metrics: Vec<VescMetric> = Vec::new();
        metrics.push(fraction_metric(VescMetricId::EscMosfetTemp, self.mosfet_temp as i32, 10));
        metrics.push(fraction_metric(VescMetricId::EscMotorTemp, self.motor_temp as i32, 10));
        metrics.push(fraction_metric(VescMetricId::EscTotalInCurrent, self.total_in_cur as i32, 10));
        metrics.push(fraction_metric(VescMetricId::EscPidPos, self.pid_pos as i32, 50));
        assert(metrics@ =~= self.spec_metrics());
        metrics
    }
}

/// The fifth status message: the tachometer, and the input voltage in
/// tenths.
#[derive(Clone, Copy, Debug, PartialEq, Eq, Structural)]
pub struct StatusMsg5 {
    pub tachometer: i32,
    pub in_voltage: i16,
}

impl CanMessage for StatusMsg5 {
    open spec fn spec_from_can_data(data: Seq<u8>) -> Self {
        StatusMsg5 {
            tachometer: be_i32_at(data, 0) as i32,
            in_voltage: be_i16_at(data, 4) as i16,
        }
    }

    open spec fn spec_metrics(&self) -> Seq<VescMetric> {
        seq![
            whole(VescMetricId::EscTachometer, self.tachometer),
            fraction(VescMetricId::EscInVoltage, self.in_voltage as int, 10),
        ]
    }

    fn from_can_data(data: &[u8]) -> (message: Self) {
        StatusMsg5 { tachometer: read_be_i32(data, 0), in_voltage: read_be_i16(data, 4) }
    }

    fn metrics(&self) -> (metrics: Vec<VescMetric>) {
        let mut metrics: Vec<VescMetric> = Vec::new();
        metrics.push(whole_metric(VescMetricId::EscTachometer, self.tachometer));
        metrics.push(fraction_metric(VescMetricId::EscInVoltage, self.in_voltage as i32, 10));
        assert(metrics@ =~= self.spec_metrics());
        metrics
    }
}

} // verus!

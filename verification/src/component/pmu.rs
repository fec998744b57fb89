//! The power management unit: one frame, one metric.

use crate::bytes::{be_i16_at, be_u16_at, be_u32_at, read_be_i16, read_be_u16, read_be_u32};
use crate::can::ids::CanIds;
use vstd::prelude::*;

verus! {

/// What the temperatures of the unit are divided by.
pub const TEMPERATURE_DENOMINATOR: u32 = 100;

/// The value of one reading of the unit.
#[derive(Clone, Copy, Debug, PartialEq, Eq, Structural)]
pub enum PmuValue {
    /// The payload of the frame, as it is.
    Payload,
    /// An unsigned reading.
    Uint32(u32),
    /// The number `numerator / denominator`.
    Fraction { numerator: i32, denominator: u32 },
}

/// One reading: the identifier that it came under and its value.
#[derive(Clone, Copy, Debug, PartialEq, Eq, Structural)]
pub struct PmuReading {
    pub id: CanIds,
    pub value: PmuValue,
}

/// Why a frame of the unit could not be read.
#[derive(Clone, Copy, Debug, PartialEq, Eq, Structural)]
pub enum PmuError {
    /// The payload is shorter than the field that the identifier promises.
    ShortPayload { needed: usize, found: usize },
}

/// How many bytes of payload a frame under `id` must have.
pub open spec fn spec_needed(id: CanIds) -> usize {
    match id {
        CanIds::CanIdSolarPower => 4,
        CanIds::CanIdSolarTemp => 2,
        CanIds::CanIdPCSTemp => 2,
        CanIds::CanIdLPMainPower => 2,
        _ => 0,
    }
}

/// Whether the unit sends frames under `id`.
pub open spec fn spec_is_pmu(id: CanIds) -> bool {
    match id {
        CanIds::CanIdApmuTemp => true,
        CanIds::CanIdMpmuTemp => true,
        CanIds::CanIdMotorCurrent => true,
        CanIds::CanIdBattVoltage => true,
        CanIds::CanIdFan1Rpm => true,
        CanIds::CanIdFan2Rpm => true,
        CanIds::CanIdFan3Rpm => true,
        CanIds::CanIdFan4Rpm => true,
        CanIds::CanIdSolarPower => true,
        CanIds::CanIdSolarTemp => true,
        CanIds::CanIdPCSTemp => true,
        CanIds::CanIdLPMainPower => true,
        _ => false,
    }
}

/// The value that a payload of enough bytes holds under `id`: the first four
/// bytes as the solar power, the first two as a temperature in hundredths or
/// as the main power, and for every other frame the payload itself.
pub open spec fn spec_value(id: CanIds, payload: Seq<u8>) -> PmuValue {
    match id {
        CanIds::CanIdSolarPower => PmuValue::Uint32(be_u32_at(payload, 0) as u32),
        CanIds::CanIdSolarTemp => PmuValue::Fraction {
            numerator: be_i16_at(payload, 0) as i32,
            denominator: TEMPERATURE_DENOMINATOR,
        },
        CanIds::CanIdPCSTemp => PmuValue::Fraction {
            numerator: be_i16_at(payload, 0) as i32,
            denominator: TEMPERATURE_DENOMINATOR,
        },
        CanIds::CanIdLPMainPower => PmuValue::Uint32(be_u16_at(payload, 0) as u32),
        _ => PmuValue::Payload,
    }
}

/// What a frame gives: nothing if the unit does not send under its
/// identifier, an error if its payload is too short, else one reading.
pub open spec fn spec_decode_pmu(identifier: u32, payload: Seq<u8>) -> Result<
    Option<PmuReading>,
    PmuError,
> {
    match CanIds::spec_from_u32(identifier) {
        Some(id) => if !spec_is_pmu(id) {
            Ok(None)
        } else if payload.len() < spec_needed(id) {
            Err(PmuError::ShortPayload { needed: spec_needed(id), found: payload.len() as usize })
        } else {
            Ok(Some(PmuReading { id, value: spec_value(id, payload) }))
        },
        None => Ok(None),
    }
}

/// Reads one frame of the unit.
pub fn decode_pmu(identifier: u32, payload: &[u8]) -> (reading: Result<Option<PmuReading>, PmuError>)
    ensures
        reading == spec_decode_pmu(identifier, payload@),
{
    let id = match CanIds::from_u32(identifier) {
        Some(id) => id,
        None => {
            return Ok(None);
        },
    };
    let needed: usize = match id {
        CanIds::CanIdSolarPower => 4,
        CanIds::CanIdSolarTemp => 2,
        CanIds::CanIdPCSTemp => 2,
        CanIds::CanIdLPMainPower => 2,
        CanIds::CanIdApmuTemp => 0,
        CanIds::CanIdMpmuTemp => 0,
        CanIds::CanIdMotorCurrent => 0,
        CanIds::CanIdBattVoltage => 0,
        CanIds::CanIdFan1Rpm => 0,
        CanIds::CanIdFan2Rpm => 0,
        CanIds::CanIdFan3Rpm => 0,
        CanIds::CanIdFan4Rpm => 0,
        _ => {
            return Ok(None);
        },
    };
    if payload.len() < needed {
        return Err(PmuError::ShortPayload { needed, found: payload.len() });
    }
    let value = match id {
        CanIds::CanIdSolarPower => PmuValue::Uint32(read_be_u32(payload, 0)),
        CanIds::CanIdSolarTemp => PmuValue::Fraction {
            numerator: read_be_i16(payload, 0) as i32,
            denominator: TEMPERATURE_DENOMINATOR,
        },
        CanIds::CanIdPCSTemp => PmuValue::Fraction {
            numerator: read_be_i16(payload, 0) as i32,
            denominator: TEMPERATURE_DENOMINATOR,
        },
        CanIds::CanIdLPMainPower => PmuValue::Uint32(read_be_u16(payload, 0) as u32),
        _ => PmuValue::Payload,
    };
    Ok(Some(PmuReading { id, value }))
}

} // verus!

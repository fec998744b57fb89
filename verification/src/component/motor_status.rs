//! The motor status sensor: the motor's temperature.

use crate::bytes::{be_i16_at, read_be_i16};
use vstd::prelude::*;

verus! {

/// What the motor's temperature is divided by.
pub const MOTOR_TEMPERATURE_DENOMINATOR: u32 = 100;

/// The motor's temperature, as the number `numerator / denominator`.
#[derive(Clone, Copy, Debug, PartialEq, Eq, Structural)]
pub struct MotorTemperature {
    pub numerator: i32,
    pub denominator: u32,
}

/// The temperature that a payload holds: its first two bytes, signed, in
/// hundredths. A payload of fewer than two bytes holds none.
pub open spec fn spec_motor_temperature(payload: Seq<u8>) -> Option<MotorTemperature> {
    if payload.len() < 2 {
        None
    } else {
        Some(
            MotorTemperature {
                numerator: be_i16_at(payload, 0) as i32,
                denominator: MOTOR_TEMPERATURE_DENOMINATOR,
            },
        )
    }
}

/// Reads the motor's temperature from the payload of its frame.
pub fn motor_temperature(payload: &[u8]) -> (temperature: Option<MotorTemperature>)
    ensures
        temperature == spec_motor_temperature(payload@),
{
    if payload.len() < 2 {
        None
    } else {
        Some(
            MotorTemperature {
                numerator: read_be_i16(payload, 0) as i32,
                denominator: MOTOR_TEMPERATURE_DENOMINATOR,
            },
        )
    }
}

} // verus!

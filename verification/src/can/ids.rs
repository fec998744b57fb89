//! The fixed identifiers of the boat's own frames.

use vstd::prelude::*;

verus! {

/// The identifiers of the frames that the boat's own units send, lowest
/// number first in priority. The range `0x8xx` is left to the battery
/// management system.
#[derive(Clone, Copy, Debug, PartialEq, Eq, Structural)]
pub enum CanIds {
    CanIdMostImportant,
    CanIdSolarPower,
    CanIdSolarTemp,
    CanIdMotor1,
    CanIdMotor2,
    /// Powers the relays and the batteries off with 1 and on again with 0.
    CanIdPowerOff,
    CanIdApmuTemp,
    CanIdMpmuTemp,
    CanIdPCSTemp,
    CanIdLPMainPower,
    CanIdFan1Rpm,
    CanIdFan2Rpm,
    CanIdFan3Rpm,
    CanIdFan4Rpm,
    CanIdMotorCurrent,
    CanIdBattVoltage,
    CanIdLeastImportant,
}

impl CanIds {
    /// The number of the identifier.
    pub open spec fn spec_number(self) -> u32 {
        match self {
            CanIds::CanIdMostImportant => 0x000,
            CanIds::CanIdSolarPower => 0x026,
            CanIds::CanIdSolarTemp => 0x022,
            CanIds::CanIdMotor1 => 0x142,
            CanIds::CanIdMotor2 => 0x143,
            CanIds::CanIdPowerOff => 0x024,
            CanIds::CanIdApmuTemp => 0x700,
            CanIds::CanIdMpmuTemp => 0x702,
            CanIds::CanIdPCSTemp => 0x724,
            CanIds::CanIdLPMainPower => 0x726,
            CanIds::CanIdFan1Rpm => 0x710,
            CanIds::CanIdFan2Rpm => 0x712,
            CanIds::CanIdFan3Rpm => 0x714,
            CanIds::CanIdFan4Rpm => 0x716,
            CanIds::CanIdMotorCurrent => 0x720,
            CanIds::CanIdBattVoltage => 0x722,
            CanIds::CanIdLeastImportant => 0xFFE,
        }
    }

    /// The identifier with this number, if there is one.
    pub open spec fn spec_from_u32(number: u32) -> Option<CanIds> {
        if number == 0x000 {
            Some(CanIds::CanIdMostImportant)
        } else if number == 0x026 {
            Some(CanIds::CanIdSolarPower)
        } else if number == 0x022 {
            Some(CanIds::CanIdSolarTemp)
        } else if number == 0x142 {
            Some(CanIds::CanIdMotor1)
        } else if number == 0x143 {
            Some(CanIds::CanIdMotor2)
        } else if number == 0x024 {
            Some(CanIds::CanIdPowerOff)
        } else if number == 0x700 {
            Some(CanIds::CanIdApmuTemp)
        } else if number == 0x702 {
            Some(CanIds::CanIdMpmuTemp)
        } else if number == 0x724 {
            Some(CanIds::CanIdPCSTemp)
        } else if number == 0x726 {
            Some(CanIds::CanIdLPMainPower)
        } else if number == 0x710 {
            Some(CanIds::CanIdFan1Rpm)
        } else if number == 0x712 {
            Some(CanIds::CanIdFan2Rpm)
        } else if number == 0x714 {
            Some(CanIds::CanIdFan3Rpm)
        } else if number == 0x716 {
            Some(CanIds::CanIdFan4Rpm)
        } else if number == 0x720 {
            Some(CanIds::CanIdMotorCurrent)
        } else if number == 0x722 {
            Some(CanIds::CanIdBattVoltage)
        } else if number == 0xFFE {
            Some(CanIds::CanIdLeastImportant)
        } else {
            None
        }
    }

    /// The number of the identifier.
    #[verifier::when_used_as_spec(spec_number)]
    pub fn number(self) -> (number: u32)
        ensures
            number == self.spec_number(),
    {
        match self {
            CanIds::CanIdMostImportant => 0x000,
            CanIds::CanIdSolarPower => 0x026,
            CanIds::CanIdSolarTemp => 0x022,
            CanIds::CanIdMotor1 => 0x142,
            CanIds::CanIdMotor2 => 0x143,
            CanIds::CanIdPowerOff => 0x024,
            CanIds::CanIdApmuTemp => 0x700,
            CanIds::CanIdMpmuTemp => 0x702,
            CanIds::CanIdPCSTemp => 0x724,
            CanIds::CanIdLPMainPower => 0x726,
            CanIds::CanIdFan1Rpm => 0x710,
            CanIds::CanIdFan2Rpm => 0x712,
            CanIds::CanIdFan3Rpm => 0x714,
            CanIds::CanIdFan4Rpm => 0x716,
            CanIds::CanIdMotorCurrent => 0x720,
            CanIds::CanIdBattVoltage => 0x722,
            CanIds::CanIdLeastImportant => 0xFFE,
        }
    }

    /// The identifier with this number, if there is one.
    pub fn from_u32(number: u32) -> (id: Option<CanIds>)
        ensures
            id == Self::spec_from_u32(number),
            id matches Some(found) ==> found.spec_number() == number,
            id is None ==> forall|other: CanIds| other.spec_number() != number,
    {
        match number {
            0x000 => Some(CanIds::CanIdMostImportant),
            0x026 => Some(CanIds::CanIdSolarPower),
            0x022 => Some(CanIds::CanIdSolarTemp),
            0x142 => Some(CanIds::CanIdMotor1),
            0x143 => Some(CanIds::CanIdMotor2),
            0x024 => Some(CanIds::CanIdPowerOff),
            0x700 => Some(CanIds::CanIdApmuTemp),
            0x702 => Some(CanIds::CanIdMpmuTemp),
            0x724 => Some(CanIds::CanIdPCSTemp),
            0x726 => Some(CanIds::CanIdLPMainPower),
            0x710 => Some(CanIds::CanIdFan1Rpm),
            0x712 => Some(CanIds::CanIdFan2Rpm),
            0x714 => Some(CanIds::CanIdFan3Rpm),
            0x716 => Some(CanIds::CanIdFan4Rpm),
            0x720 => Some(CanIds::CanIdMotorCurrent),
            0x722 => Some(CanIds::CanIdBattVoltage),
            0xFFE => Some(CanIds::CanIdLeastImportant),
            _ => None,
        }
    }
}

/// Looking the number of an identifier up gives the identifier back.
pub proof fn lemma_number_round_trips(id: CanIds)
    ensures
        CanIds::spec_from_u32(id.spec_number()) == Some(id),
{
}

} // verus!

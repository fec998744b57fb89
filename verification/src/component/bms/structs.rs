//! The protocol's function codes and the record of a battery pack.

use vstd::prelude::*;

verus! {

/// The smallest short address a pack can have.
pub const MIN_ADDRESS: u8 = 1;

/// The largest short address a pack can have, and so the largest number of
/// packs on one bus.
pub const MAX_ADDRESS: u8 = 9;

/// The address of a pack that has not been given one yet.
pub const UNASSIGNED_ADDRESS: u8 = 0;

/// What a frame from the pack cluster carries, by the function code in the
/// low twelve bits of its identifier.
#[allow(non_camel_case_types)]
#[derive(Clone, Copy, Debug, PartialEq, Eq, Structural)]
pub enum BmsFunction {
    /// Cell voltages 1 to 4.
    BmsIdV01_04,
    /// Cell voltages 5 to 8.
    BmsIdV05_08,
    /// Cell voltages 9 to 12.
    BmsIdV09_12,
    /// Cell voltages 13 to 16.
    BmsIdV13_16,
    /// Cell voltages 17 to 20.
    BmsIdV17_20,
    /// Discharged ampere hours, remaining capacity, state of health, state
    /// of charge and battery current.
    BmsIdV21_24,
    /// Temperatures.
    BmsIdT01_06,
    /// Alert codes.
    BmsIdInternalStatus1,
    /// The answer to a serial-number query.
    BmsIdSerialNumberAnswer,
    /// Current limits, sent by the master without a pack address.
    EmsControl,
    /// Cluster-wide state of charge and alarm state, sent by the master.
    GlobalStatus3,
    /// Cluster-wide temperature and voltage extremes, sent by the master.
    GlobalStatus4,
    /// Cluster-wide current and cell-voltage extremes, sent by the master.
    GlobalStatus5,
}

impl BmsFunction {
    /// The function code of this kind of frame.
    pub open spec fn spec_code(self) -> u32 {
        match self {
            BmsFunction::BmsIdV01_04 => 0x002,
            BmsFunction::BmsIdV05_08 => 0x003,
            BmsFunction::BmsIdV09_12 => 0x004,
            BmsFunction::BmsIdV13_16 => 0x005,
            BmsFunction::BmsIdV17_20 => 0x006,
            BmsFunction::BmsIdV21_24 => 0x007,
            BmsFunction::BmsIdT01_06 => 0x009,
            BmsFunction::BmsIdInternalStatus1 => 0x020,
            BmsFunction::BmsIdSerialNumberAnswer => 0x024,
            BmsFunction::EmsControl => 0x401,
            BmsFunction::GlobalStatus3 => 0x404,
            BmsFunction::GlobalStatus4 => 0x405,
            BmsFunction::GlobalStatus5 => 0x406,
        }
    }

    /// Whether frames of this kind come from the master, without a pack
    /// address.
    pub open spec fn spec_is_master(self) -> bool {
        self.spec_code() >= 0x400
    }

    /// The kind of frame that a pack sends under `code`, if there is one.
    pub open spec fn spec_from_pack_code(code: u32) -> Option<BmsFunction> {
        if code == 0x002 {
            Some(BmsFunction::BmsIdV01_04)
        } else if code == 0x003 {
            Some(BmsFunction::BmsIdV05_08)
        } else if code == 0x004 {
            Some(BmsFunction::BmsIdV09_12)
        } else if code == 0x005 {
            Some(BmsFunction::BmsIdV13_16)
        } else if code == 0x006 {
            Some(BmsFunction::BmsIdV17_20)
        } else if code == 0x007 {
            Some(BmsFunction::BmsIdV21_24)
        } else if code == 0x009 {
            Some(BmsFunction::BmsIdT01_06)
        } else if code == 0x020 {
            Some(BmsFunction::BmsIdInternalStatus1)
        } else if code == 0x024 {
            Some(BmsFunction::BmsIdSerialNumberAnswer)
        } else {
            None
        }
    }

    /// The kind of frame that the master sends under `code`, if there is one.
    pub open spec fn spec_from_master_code(code: u32) -> Option<BmsFunction> {
        if code == 0x401 {
            Some(BmsFunction::EmsControl)
        } else if code == 0x404 {
            Some(BmsFunction::GlobalStatus3)
        } else if code == 0x405 {
            Some(BmsFunction::GlobalStatus4)
        } else if code == 0x406 {
            Some(BmsFunction::GlobalStatus5)
        } else {
            None
        }
    }

    /// The function code of this kind of frame.
    #[verifier::when_used_as_spec(spec_code)]
    pub fn code(self) -> (code: u32)
        ensures
            code == self.spec_code(),
            code <= 0xFFF,
    {
        match self {
            BmsFunction::BmsIdV01_04 => 0x002,
            BmsFunction::BmsIdV05_08 => 0x003,
            BmsFunction::BmsIdV09_12 => 0x004,
            BmsFunction::BmsIdV13_16 => 0x005,
            BmsFunction::BmsIdV17_20 => 0x006,
            BmsFunction::BmsIdV21_24 => 0x007,
            BmsFunction::BmsIdT01_06 => 0x009,
            BmsFunction::BmsIdInternalStatus1 => 0x020,
            BmsFunction::BmsIdSerialNumberAnswer => 0x024,
            BmsFunction::EmsControl => 0x401,
            BmsFunction::GlobalStatus3 => 0x404,
            BmsFunction::GlobalStatus4 => 0x405,
            BmsFunction::GlobalStatus5 => 0x406,
        }
    }

    /// Whether frames of this kind come from the master.
    #[verifier::when_used_as_spec(spec_is_master)]
    pub fn is_master(self) -> (master: bool)
        ensures
            master == self.spec_is_master(),
    {
        self.code() >= 0x400
    }

    /// Looks `code` up among the frames that packs send.
    pub fn from_pack_code(code: u32) -> (function: Option<BmsFunction>)
        ensures
            function == Self::spec_from_pack_code(code),
            function matches Some(f) ==> f.spec_code() == code && !f.spec_is_master(),
    {
        match code {
            0x002 => Some(BmsFunction::BmsIdV01_04),
            0x003 => Some(BmsFunction::BmsIdV05_08),
            0x004 => Some(BmsFunction::BmsIdV09_12),
            0x005 => Some(BmsFunction::BmsIdV13_16),
            0x006 => Some(BmsFunction::BmsIdV17_20),
            0x007 => Some(BmsFunction::BmsIdV21_24),
            0x009 => Some(BmsFunction::BmsIdT01_06),
            0x020 => Some(BmsFunction::BmsIdInternalStatus1),
            0x024 => Some(BmsFunction::BmsIdSerialNumberAnswer),
            _ => None,
        }
    }

    /// Looks `code` up among the frames that the master sends.
    pub fn from_master_code(code: u32) -> (function: Option<BmsFunction>)
        ensures
            function == Self::spec_from_master_code(code),
            function matches Some(f) ==> f.spec_code() == code && f.spec_is_master(),
    {
        match code {
            0x401 => Some(BmsFunction::EmsControl),
            0x404 => Some(BmsFunction::GlobalStatus3),
            0x405 => Some(BmsFunction::GlobalStatus4),
            0x406 => Some(BmsFunction::GlobalStatus5),
            _ => None,
        }
    }
}

/// What an individual request asks of one pack. The selector is the last
/// byte of the request's payload.
#[derive(Clone, Copy, Debug, PartialEq, Eq, Structural)]
pub enum BmsIndividualRequestFunction {
    /// All measurements: voltages, temperatures, charge and current.
    AllMeasurements,
    /// The first block of the pack's internal status: its alert codes.
    InternalStatus1,
}

impl BmsIndividualRequestFunction {
    /// The selector byte that asks for this function.
    pub open spec fn spec_selector(self) -> u8 {
        match self {
            BmsIndividualRequestFunction::AllMeasurements => 3,
            BmsIndividualRequestFunction::InternalStatus1 => 101,
        }
    }

    /// The selector byte that asks for this function.
    #[verifier::when_used_as_spec(spec_selector)]
    pub fn selector(self) -> (selector: u8)
        ensures
            selector == self.spec_selector(),
    {
        match self {
            BmsIndividualRequestFunction::AllMeasurements => 3,
            BmsIndividualRequestFunction::InternalStatus1 => 101,
        }
    }

    /// The function's name, as it is written in logs.
    pub fn name(self) -> (name: &'static str)
        ensures
            name@ == match self {
                BmsIndividualRequestFunction::AllMeasurements => "AllMeasurements"@,
                BmsIndividualRequestFunction::InternalStatus1 => "InternalStatus1"@,
            },
    {
        match self {
            BmsIndividualRequestFunction::AllMeasurements => "AllMeasurements",
            BmsIndividualRequestFunction::InternalStatus1 => "InternalStatus1",
        }
    }
}

/// The two identifiers on which the engine sends.
#[derive(Clone, Copy, Debug, PartialEq, Eq, Structural)]
pub enum EmsRequest {
    /// A request to every pack on the bus.
    BmsGeneralRequest,
    /// A request to the one pack whose serial number the payload starts with.
    BmsIndividualRequest,
}

impl EmsRequest {
    /// The identifier of this kind of request. It is a standard identifier.
    pub open spec fn spec_identifier(self) -> u32 {
        match self {
            EmsRequest::BmsGeneralRequest => 0x100,
            EmsRequest::BmsIndividualRequest => 0x200,
        }
    }

    /// The identifier of this kind of request.
    #[verifier::when_used_as_spec(spec_identifier)]
    pub fn identifier(self) -> (identifier: u32)
        ensures
            identifier == self.spec_identifier(),
            identifier <= 0x7FF,
    {
        match self {
            EmsRequest::BmsGeneralRequest => 0x100,
            EmsRequest::BmsIndividualRequest => 0x200,
        }
    }
}

/// One battery pack that has answered a serial-number query.
///
/// The serial number is what the pack is known by; it never changes. The
/// address is the short bus address that the engine has given the pack, or
/// [`UNASSIGNED_ADDRESS`] before the first assignment.
#[derive(Clone, Copy, Debug, PartialEq, Eq, Structural)]
pub struct BatteryPack {
    pub address: u8,
    pub serial_number: u32,
    pub part_number: u32,
}

impl BatteryPack {
    /// Whether the pack has a short address in the valid range.
    pub open spec fn spec_is_assigned(self) -> bool {
        MIN_ADDRESS <= self.address <= MAX_ADDRESS
    }

    /// A pack that has just answered and has no address yet.
    pub fn discovered(serial_number: u32, part_number: u32) -> (pack: BatteryPack)
        ensures
            pack == (BatteryPack { address: UNASSIGNED_ADDRESS, serial_number, part_number }),
    {
        BatteryPack { address: UNASSIGNED_ADDRESS, serial_number, part_number }
    }

    /// Whether the pack has a short address in the valid range.
    #[verifier::when_used_as_spec(spec_is_assigned)]
    pub fn is_assigned(self) -> (assigned: bool)
        ensures
            assigned == self.spec_is_assigned(),
    {
        MIN_ADDRESS <= self.address && self.address <= MAX_ADDRESS
    }
}

} // verus!

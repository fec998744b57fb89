//! The requests that the engine writes to the bus.

use crate::component::bms::structs::{BmsIndividualRequestFunction, EmsRequest};
use vstd::prelude::*;

verus! {

/// How often a request is sent.
#[derive(Clone, Copy, Debug, PartialEq, Eq, Structural)]
pub enum Cadence {
    /// With every polling cycle, in the measurement phase.
    FastMeasurement,
    /// With every polling cycle, in the status phase.
    Status,
    /// Once per search interval, or when the addresses change.
    SlowDiscovery,
}

/// One write to the bus.
///
/// A request is sent and forgotten: nothing ties an answer to it. Answers
/// are matched to packs by the address in their identifier when they
/// arrive.
#[derive(Clone, Copy, Debug, PartialEq, Eq, Structural)]
pub enum PollRequest {
    /// Asks every pack on the bus for its serial number.
    SerialNumberQuery,
    /// Asks the pack with this serial number for one function.
    Individual { serial_number: u32, function: BmsIndividualRequestFunction },
    /// Tells the pack with this serial number its short address and how
    /// many packs there are.
    SetAddress { serial_number: u32, address: u8, pack_count: u8 },
}

impl PollRequest {
    /// How often this request is sent.
    pub open spec fn spec_cadence(self) -> Cadence {
        match self {
            PollRequest::SerialNumberQuery => Cadence::SlowDiscovery,
            PollRequest::Individual { function, .. } => match function {
                BmsIndividualRequestFunction::AllMeasurements => Cadence::FastMeasurement,
                BmsIndividualRequestFunction::InternalStatus1 => Cadence::Status,
            },
            PollRequest::SetAddress { .. } => Cadence::SlowDiscovery,
        }
    }

    /// The serial number of the one pack that the request is for, or nothing
    /// for a request to the whole bus.
    pub open spec fn spec_target(self) -> Option<u32> {
        match self {
            PollRequest::SerialNumberQuery => None,
            PollRequest::Individual { serial_number, .. } => Some(serial_number),
            PollRequest::SetAddress { serial_number, .. } => Some(serial_number),
        }
    }

    /// The identifier that the request goes out on.
    pub open spec fn spec_channel(self) -> EmsRequest {
        match self {
            PollRequest::SerialNumberQuery => EmsRequest::BmsGeneralRequest,
            _ => EmsRequest::BmsIndividualRequest,
        }
    }

    /// How often this request is sent.
    #[verifier::when_used_as_spec(spec_cadence)]
    pub fn cadence(self) -> (cadence: Cadence)
        ensures
            cadence == self.spec_cadence(),
    {
        match self {
            PollRequest::SerialNumberQuery => Cadence::SlowDiscovery,
            PollRequest::Individual { function, .. } => match function {
                BmsIndividualRequestFunction::AllMeasurements => Cadence::FastMeasurement,
                BmsIndividualRequestFunction::InternalStatus1 => Cadence::Status,
            },
            PollRequest::SetAddress { .. } => Cadence::SlowDiscovery,
        }
    }

    /// The serial number of the one pack that the request is for.
    #[verifier::when_used_as_spec(spec_target)]
    pub fn target(self) -> (target: Option<u32>)
        ensures
            target == self.spec_target(),
    {
        match self {
            PollRequest::SerialNumberQuery => None,
            PollRequest::Individual { serial_number, .. } => Some(serial_number),
            PollRequest::SetAddress { serial_number, .. } => Some(serial_number),
        }
    }

    /// The identifier that the request goes out on.
    #[verifier::when_used_as_spec(spec_channel)]
    pub fn channel(self) -> (channel: EmsRequest)
        ensures
            channel == self.spec_channel(),
    {
        match self {
            PollRequest::SerialNumberQuery => EmsRequest::BmsGeneralRequest,
            _ => EmsRequest::BmsIndividualRequest,
        }
    }
}

} // verus!

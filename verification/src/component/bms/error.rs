//! What can go wrong in the engine. None of it stops the engine.

use vstd::prelude::*;

verus! {

/// The engine's errors.
///
/// Every one is absorbed where it happens and handed out as a value for the
/// caller to log; the engine goes on with the next frame or the next phase.
#[derive(Clone, Copy, Debug, PartialEq, Eq, Structural)]
pub enum BmsError {
    /// A frame whose payload is not eight bytes long. The frame is dropped.
    MalformedFrame,
    /// A well-formed frame whose function code the protocol does not know.
    /// The frame is dropped.
    UnknownFunctionCode { address: u8, function: u32 },
    /// The bus did not take a request. The request is skipped and comes
    /// again with the next cycle.
    BusSendFailure,
    /// The addresses were reassigned for the second time: packs are flapping,
    /// or the wiring or the power is at fault.
    RegistryReconfigurationStorm,
}

/// How loudly an error is reported.
#[derive(Clone, Copy, Debug, PartialEq, Eq, Structural)]
pub enum Severity {
    /// For the debug log.
    Low,
    /// For the log.
    Normal,
    /// For the operator.
    Warning,
}

impl BmsError {
    /// How loudly this error is reported.
    pub open spec fn spec_severity(self) -> Severity {
        match self {
            BmsError::MalformedFrame => Severity::Normal,
            BmsError::UnknownFunctionCode { .. } => Severity::Low,
            BmsError::BusSendFailure => Severity::Normal,
            BmsError::RegistryReconfigurationStorm => Severity::Warning,
        }
    }

    /// How loudly this error is reported.
    #[verifier::when_used_as_spec(spec_severity)]
    pub fn severity(self) -> (severity: Severity)
        ensures
            severity == self.spec_severity(),
    {
        match self {
            BmsError::MalformedFrame => Severity::Normal,
            BmsError::UnknownFunctionCode { .. } => Severity::Low,
            BmsError::BusSendFailure => Severity::Normal,
            BmsError::RegistryReconfigurationStorm => Severity::Warning,
        }
    }

    /// A line for the log.
    pub fn describe(self) -> (text: &'static str)
        ensures
            text@ == match self {
                BmsError::MalformedFrame => "frame payload is not eight bytes long"@,
                BmsError::UnknownFunctionCode { .. } => "unknown function code"@,
                BmsError::BusSendFailure => "bus did not take the request"@,
                BmsError::RegistryReconfigurationStorm => "pack addresses were reassigned repeatedly"@,
            },
    {
        match self {
            BmsError::MalformedFrame => "frame payload is not eight bytes long",
            BmsError::UnknownFunctionCode { .. } => "unknown function code",
            BmsError::BusSendFailure => "bus did not take the request",
            BmsError::RegistryReconfigurationStorm => "pack addresses were reassigned repeatedly",
        }
    }
}

} // verus!

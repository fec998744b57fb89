//! Which frames are the controller's, and what they give.

use crate::component::vesc::can_messages::{
    parse, CanMessage, StatusMsg1, StatusMsg2, StatusMsg3, StatusMsg4, StatusMsg5, VescMessageIds,
    VescMetric, MESSAGE_LEN,
};
use vstd::prelude::*;

verus! {

/// What one frame gives.
#[derive(Clone, Debug, PartialEq, Eq)]
pub enum VescOutcome {
    /// The frame is not one of the controller's: it has not eight bytes, or
    /// it carries another controller's number.
    Skipped,
    /// The frame is the controller's, but no status message.
    Unknown { message: u32 },
    /// The metrics of a status message.
    Metrics(Vec<VescMetric>),
}

/// What one frame gives, with the metrics as a sequence.
pub enum OutcomeView {
    Skipped,
    Unknown { message: u32 },
    Metrics(Seq<VescMetric>),
}

impl View for VescOutcome {
    type V = OutcomeView;

    open spec fn view(&self) -> OutcomeView {
        match *self {
            VescOutcome::Skipped => OutcomeView::Skipped,
            VescOutcome::Unknown { message } => OutcomeView::Unknown { message },
            VescOutcome::Metrics(metrics) => OutcomeView::Metrics(metrics@),
        }
    }
}

/// The controller's number in an identifier: the low eight bits.
pub open spec fn spec_controller_of(identifier: u32) -> u32 {
    identifier % 0x100
}

/// The kind of message in an identifier: the bits above the low eight.
pub open spec fn spec_message_of(identifier: u32) -> u32 {
    identifier / 0x100
}

/// What the frame with this identifier and payload gives to the controller
/// with the number `vesc_id`.
pub open spec fn spec_decode_vesc(identifier: u32, vesc_id: u32, payload: Seq<u8>) -> OutcomeView {
    if payload.len() != MESSAGE_LEN || spec_controller_of(identifier) != vesc_id {
        OutcomeView::Skipped
    } else {
        match VescMessageIds::spec_from_u32(spec_message_of(identifier)) {
            Some(VescMessageIds::Status1) => OutcomeView::Metrics(
                StatusMsg1::spec_from_can_data(payload).spec_metrics(),
            ),
            Some(VescMessageIds::Status2) => OutcomeView::Metrics(
                StatusMsg2::spec_from_can_data(payload).spec_metrics(),
            ),
            Some(VescMessageIds::Status3) => OutcomeView::Metrics(
                StatusMsg3::spec_from_can_data(payload).spec_metrics(),
            ),
            Some(VescMessageIds::Status4) => OutcomeView::Metrics(
                StatusMsg4::spec_from_can_data(payload).spec_metrics(),
            ),
            Some(VescMessageIds::Status5) => OutcomeView::Metrics(
                StatusMsg5::spec_from_can_data(payload).spec_metrics(),
            ),
            _ => OutcomeView::Unknown { message: spec_message_of(identifier) },
        }
    }
}

/// The controller's number in an identifier.
#[verifier::when_used_as_spec(spec_controller_of)]
pub fn controller_of(identifier: u32) -> (controller: u32)
    ensures
        controller == spec_controller_of(identifier),
{
    assert(identifier & 0xFF == identifier % 0x100) by (bit_vector);
    identifier & 0xFF
}

/// The kind of message in an identifier.
#[verifier::when_used_as_spec(spec_message_of)]
pub fn message_of(identifier: u32) -> (message: u32)
    ensures
        message == spec_message_of(identifier),
{
    assert(identifier >> 8 == identifier / 0x100) by (bit_vector);
    identifier >> 8
}

/// Reads one frame for the controller with the number `vesc_id`.
///
/// A frame that has not eight bytes or that carries another number is
/// skipped. Of the controller's own frames the five status messages give
/// their metrics; any other is handed back as unknown, with its number.
pub fn decode_vesc(identifier: u32, vesc_id: u32, payload: &[u8]) -> (outcome: VescOutcome)
    ensures
        outcome@ == spec_decode_vesc(identifier, vesc_id, payload@),
{
    if payload.len() != MESSAGE_LEN {
        return VescOutcome::Skipped;
    }
    if controller_of(identifier) != vesc_id {
        return VescOutcome::Skipped;
    }
    let message = message_of(identifier);
    match VescMessageIds::from_u32(message) {
        Some(VescMessageIds::Status1) => VescOutcome::Metrics(parse::<StatusMsg1>(payload)),
        Some(VescMessageIds::Status2) => VescOutcome::Metrics(parse::<StatusMsg2>(payload)),
        Some(VescMessageIds::Status3) => VescOutcome::Metrics(parse::<StatusMsg3>(payload)),
        Some(VescMessageIds::Status4) => VescOutcome::Metrics(parse::<StatusMsg4>(payload)),
        Some(VescMessageIds::Status5) => VescOutcome::Metrics(parse::<StatusMsg5>(payload)),
        _ => VescOutcome::Unknown { message },
    }
}

} // verus!

//! The CAN frames that the decoders read and the engine sends.

pub mod ids;

use socketcan::{CanFrame, EmbeddedFrame, Frame, Id};
use vstd::prelude::*;

verus! {

/// A classic CAN frame of the `socketcan` crate. Verus sees nothing inside it.
#[verifier::external_type_specification]
#[verifier::external_body]
pub struct ExCanFrame(socketcan::CanFrame);

/// A standard or an extended identifier. Verus sees nothing inside it.
#[verifier::external_type_specification]
#[verifier::external_body]
pub struct ExId(socketcan::Id);

/// The number that an identifier holds: what `as_raw` gives for it.
pub uninterp spec fn id_number(id: Id) -> u32;

/// The identifier number that a frame holds, without the flags of the
/// identifier word: what `Frame::raw_id` gives for it.
pub uninterp spec fn frame_id_number(frame: CanFrame) -> u32;

/// The data bytes that a frame holds: what `EmbeddedFrame::data` gives for
/// it. A remote frame holds none, whatever length it announces.
pub uninterp spec fn frame_payload(frame: CanFrame) -> Seq<u8>;

/// The number of a CAN identifier.
///
/// Calls `as_raw` on the standard or on the extended identifier. The contract
/// gives what comes back a name and says nothing else of it.
#[verifier::external_body]
pub fn get_can_id(id: Id) -> (number: u32)
    ensures
        number == id_number(id),
{
    match id {
        Id::Standard(id) => id.as_raw() as u32,
        Id::Extended(id) => id.as_raw(),
    }
}

/// The identifier of a frame, from `EmbeddedFrame::id`.
///
/// The crate builds the identifier from the frame's identifier word with the
/// flags masked away, as it does for `Frame::raw_id`; the contract says that
/// the number of the identifier is the frame's identifier number.
#[verifier::external_body]
pub(crate) fn frame_id(frame: &CanFrame) -> (id: Id)
    ensures
        id_number(id) == frame_id_number(*frame),
{
    frame.id()
}

/// The data bytes of a frame, copied from the slice that
/// `EmbeddedFrame::data` hands out. The contract gives them their name.
#[verifier::external_body]
pub(crate) fn frame_data(frame: &CanFrame) -> (data: Vec<u8>)
    ensures
        data@ == frame_payload(*frame),
{
    frame.data().to_vec()
}

/// A data frame from an identifier number and its bytes, from
/// `Frame::from_raw_id`.
///
/// The call gives no frame for a number of more than 29 bits or for more
/// than eight bytes. A number up to `0x7FF` becomes a standard identifier,
/// a larger one an extended identifier. The frame that comes back holds the
/// number and the bytes that went in.
#[verifier::external_body]
pub(crate) fn data_frame(id: u32, data: &[u8]) -> (frame: Option<CanFrame>)
    ensures
        match frame {
            Some(f) => {
                &&& id <= 0x1FFF_FFFF
                &&& data@.len() <= 8
                &&& frame_id_number(f) == id
                &&& frame_payload(f) == data@
            },
            None => id > 0x1FFF_FFFF || data@.len() > 8,
        },
{
    CanFrame::from_raw_id(id, data)
}

/// What the decoders read of a frame: its identifier number and its bytes.
pub fn frame_parts(frame: &CanFrame) -> (parts: (u32, Vec<u8>))
    ensures
        parts.0 == frame_id_number(*frame),
        parts.1@ == frame_payload(*frame),
{
    let id = get_can_id(frame_id(frame));
    (id, frame_data(frame))
}

} // verus!

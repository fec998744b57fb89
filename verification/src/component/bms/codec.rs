//! The frame codec: identifiers and eight-byte payloads to typed messages
//! and back.

use crate::bytes::{
    be_bytes_of_u16, be_bytes_of_u32, be_i16_at, be_u16_at, be_u32_at,
    lemma_be_bytes_of_u16_read, read_be_i16, read_be_u16, read_be_u32, write_be_u16, write_be_u32,
};
use crate::component::bms::error::BmsError;
use crate::component::bms::request::PollRequest;
use crate::component::bms::structs::{BmsFunction, MAX_ADDRESS, MIN_ADDRESS};
use vstd::prelude::*;

verus! {

/// The length of every payload of this protocol.
pub const PAYLOAD_LEN: usize = 8;

/// What temperature bytes are offset by: a byte `v` stands for `v - 40`.
pub const TEMPERATURE_OFFSET: i16 = 40;

/// The first byte of the serial-number query.
pub const SERIAL_NUMBER_QUERY_MARKER: u8 = 0x81;

/// The last byte of the command that gives a pack its address.
pub const SET_ADDRESS_COMMAND: u8 = 0x82;

/// What one frame from the pack cluster says.
#[derive(Clone, Copy, Debug, PartialEq, Eq)]
pub enum BmsMessage {
    /// A pack's answer to the serial-number query.
    SerialNumberAnswer { address: u8, serial_number: u32, part_number: u32 },
    /// Four cell readings. `offset` is the number of cells before the first
    /// of them: 0, 4, 8, 12 or 16.
    VoltageBlock { address: u8, offset: u8, cells: [u32; 4] },
    /// Charge figures and the battery current in tenths.
    AhAndStatusBlock {
        address: u8,
        ah_discharged: u16,
        remaining_capacity: u16,
        soh: u8,
        soc: u8,
        current_tenths: u16,
    },
    /// Three temperatures, offset removed.
    TemperatureBlock { address: u8, temperatures: [i16; 3] },
    /// Three major alert codes and the minor alert code.
    InternalStatusBlock { address: u8, alerts: [u8; 4] },
    /// The master's current limits.
    MasterControl { max_discharge_current: u16, max_recharge_current: u16 },
    /// The master's third status frame.
    MasterStatus3 { soc: u8, soc_id: u8, alarm_state: u8, connected: u8, powerbus: u8 },
    /// The master's fourth status frame: temperature and voltage extremes,
    /// each with the pack it was seen on.
    MasterStatus4 {
        t_min: i16,
        t_max: i16,
        t_min_id: u8,
        t_max_id: u8,
        v_min: u16,
        v_max: u16,
        v_min_id: u8,
        v_max_id: u8,
    },
    /// The master's fifth status frame: the cluster's current in tenths and
    /// the cell-voltage extremes, each with the pack it was seen on.
    MasterStatus5 {
        bat_current_tenths: i16,
        cell_v_min: i16,
        cell_v_max: i16,
        cell_v_min_id: u8,
        cell_v_max_id: u8,
    },
    /// A frame of eight bytes under a function code that the protocol does
    /// not know.
    Unknown { address: u8, function: u32 },
}

impl BmsMessage {
    /// Whether the message is one that a frame can hold: a pack's message
    /// has a pack's address, a voltage block starts at a multiple of four
    /// below twenty and holds readings of at most sixteen bits, and a
    /// temperature is that of some byte.
    pub open spec fn spec_wf(self) -> bool {
        match self {
            BmsMessage::SerialNumberAnswer { address, .. } => spec_is_pack_address(address),
            BmsMessage::VoltageBlock { address, offset, cells } => {
                &&& spec_is_pack_address(address)
                &&& offset % 4 == 0
                &&& offset <= 16
                &&& forall|k: int| 0 <= k < 4 ==> #[trigger] cells@[k] <= 0xFFFF
            },
            BmsMessage::AhAndStatusBlock { address, .. } => spec_is_pack_address(address),
            BmsMessage::TemperatureBlock { address, temperatures } => {
                &&& spec_is_pack_address(address)
                &&& forall|k: int| 0 <= k < 3 ==> -40 <= #[trigger] temperatures@[k] <= 215
            },
            BmsMessage::InternalStatusBlock { address, .. } => spec_is_pack_address(address),
            BmsMessage::MasterStatus4 { t_min, t_max, .. } => {
                &&& -40 <= t_min <= 215
                &&& -40 <= t_max <= 215
            },
            _ => true,
        }
    }
}

/// The address field of an identifier: the eight bits above the function
/// code.
pub open spec fn spec_address_of(identifier: u32) -> u8 {
    (identifier / 0x1000 % 0x100) as u8
}

/// The function code of an identifier: its low twelve bits.
pub open spec fn spec_function_of(identifier: u32) -> u32 {
    identifier % 0x1000
}

/// Whether an address field names a pack.
pub open spec fn spec_is_pack_address(address: u8) -> bool {
    MIN_ADDRESS <= address <= MAX_ADDRESS
}

/// The temperature that a byte stands for.
pub open spec fn spec_celsius(raw: u8) -> i16 {
    (raw - TEMPERATURE_OFFSET) as i16
}

/// What a pack says with `payload` under `function`. The payload has eight
/// bytes.
pub open spec fn spec_decode_pack(address: u8, function: u32, payload: Seq<u8>) -> BmsMessage {
    match BmsFunction::spec_from_pack_code(function) {
        Some(BmsFunction::BmsIdSerialNumberAnswer) => BmsMessage::SerialNumberAnswer {
            address,
            serial_number: be_u32_at(payload, 0) as u32,
            part_number: be_u32_at(payload, 4) as u32,
        },
        Some(BmsFunction::BmsIdV21_24) => BmsMessage::AhAndStatusBlock {
            address,
            ah_discharged: be_u16_at(payload, 0) as u16,
            remaining_capacity: be_u16_at(payload, 2) as u16,
            soh: payload[4],
            soc: payload[5],
            current_tenths: be_u16_at(payload, 6) as u16,
        },
        Some(BmsFunction::BmsIdT01_06) => BmsMessage::TemperatureBlock {
            address,
            temperatures: [
                spec_celsius(payload[0]),
                spec_celsius(payload[1]),
                spec_celsius(payload[2]),
            ],
        },
        Some(BmsFunction::BmsIdInternalStatus1) => BmsMessage::InternalStatusBlock {
            address,
            alerts: [payload[0], payload[1], payload[2], payload[3]],
        },
        Some(_) => BmsMessage::VoltageBlock {
            address,
            offset: ((function - 2) * 4) as u8,
            cells: [
                be_u16_at(payload, 0) as u32,
                be_u16_at(payload, 2) as u32,
                be_u16_at(payload, 4) as u32,
                be_u16_at(payload, 6) as u32,
            ],
        },
        None => BmsMessage::Unknown { address, function },
    }
}

/// What the master says with `payload` under `function`. The payload has
/// eight bytes.
pub open spec fn spec_decode_master(address: u8, function: u32, payload: Seq<u8>) -> BmsMessage {
    match BmsFunction::spec_from_master_code(function) {
        Some(BmsFunction::EmsControl) => BmsMessage::MasterControl {
            max_discharge_current: be_u16_at(payload, 0) as u16,
            max_recharge_current: be_u16_at(payload, 2) as u16,
        },
        Some(BmsFunction::GlobalStatus3) => BmsMessage::MasterStatus3 {
            soc: payload[0],
            soc_id: payload[1] / 16,
            alarm_state: payload[2] % 4,
            connected: payload[2] / 16,
            powerbus: payload[3],
        },
        Some(BmsFunction::GlobalStatus4) => BmsMessage::MasterStatus4 {
            t_min: spec_celsius(payload[0]),
            t_max: spec_celsius(payload[1]),
            t_min_id: payload[2] % 16,
            t_max_id: payload[2] / 16,
            v_min: be_u16_at(payload, 3) as u16,
            v_max: be_u16_at(payload, 5) as u16,
            v_min_id: payload[7] % 16,
            v_max_id: payload[7] / 16,
        },
        Some(BmsFunction::GlobalStatus5) => BmsMessage::MasterStatus5 {
            bat_current_tenths: be_i16_at(payload, 0) as i16,
            cell_v_min: be_i16_at(payload, 2) as i16,
            cell_v_max: be_i16_at(payload, 4) as i16,
            cell_v_min_id: payload[6] % 16,
            cell_v_max_id: payload[6] / 16,
        },
        _ => BmsMessage::Unknown { address, function },
    }
}

/// What a frame says: nothing if its payload is not eight bytes long, else
/// the pack's message if its address field is one of 1 to 9, else the
/// master's.
pub open spec fn spec_decode(identifier: u32, payload: Seq<u8>) -> Result<BmsMessage, BmsError> {
    if payload.len() != PAYLOAD_LEN {
        Err(BmsError::MalformedFrame)
    } else if spec_is_pack_address(spec_address_of(identifier)) {
        Ok(spec_decode_pack(spec_address_of(identifier), spec_function_of(identifier), payload))
    } else {
        Ok(spec_decode_master(spec_address_of(identifier), spec_function_of(identifier), payload))
    }
}

/// The address field of an identifier.
#[verifier::when_used_as_spec(spec_address_of)]
pub fn address_of(identifier: u32) -> (address: u8)
    ensures
        address == spec_address_of(identifier),
{
    assert((identifier >> 12) & 0xFF == identifier / 0x1000 % 0x100) by (bit_vector);
    assert((identifier >> 12) & 0xFF < 0x100) by (bit_vector);
    ((identifier >> 12) & 0xFF) as u8
}

/// The function code of an identifier.
#[verifier::when_used_as_spec(spec_function_of)]
pub fn function_of(identifier: u32) -> (function: u32)
    ensures
        function == spec_function_of(identifier),
        function <= 0xFFF,
{
    assert(identifier & 0x0FFF == identifier % 0x1000) by (bit_vector);
    identifier & 0x0FFF
}

/// Whether an address field names a pack.
#[verifier::when_used_as_spec(spec_is_pack_address)]
pub fn is_pack_address(address: u8) -> (pack: bool)
    ensures
        pack == spec_is_pack_address(address),
{
    MIN_ADDRESS <= address && address <= MAX_ADDRESS
}

/// The temperature that a byte stands for: the byte less 40, so 40 is zero
/// degrees and 0 is forty below.
#[verifier::when_used_as_spec(spec_celsius)]
pub fn celsius(raw: u8) -> (temperature: i16)
    ensures
        temperature == spec_celsius(raw),
        temperature == raw - 40,
{
    raw as i16 - TEMPERATURE_OFFSET
}

/// The upper four bits of a byte.
fn high_nibble(byte: u8) -> (nibble: u8)
    ensures
        nibble == byte / 16,
{
    assert(byte >> 4 == byte / 16) by (bit_vector);
    byte >> 4
}

/// The lower four bits of a byte.
fn low_nibble(byte: u8) -> (nibble: u8)
    ensures
        nibble == byte % 16,
{
    assert(byte & 0x0F == byte % 16) by (bit_vector);
    byte & 0x0F
}

/// The lower two bits of a byte.
fn low_two_bits(byte: u8) -> (bits: u8)
    ensures
        bits == byte % 4,
{
    assert(byte & 0x03 == byte % 4) by (bit_vector);
    byte & 0x03
}

/// Decodes the payload of a frame that a pack sent under `function`.
pub fn decode_pack(address: u8, function: u32, payload: &[u8]) -> (message: BmsMessage)
    requires
        payload@.len() == PAYLOAD_LEN,
    ensures
        message == spec_decode_pack(address, function, payload@),
        spec_is_pack_address(address) ==> message.spec_wf(),
{
    match BmsFunction::from_pack_code(function) {
        Some(BmsFunction::BmsIdSerialNumberAnswer) => BmsMessage::SerialNumberAnswer {
            address,
            serial_number: read_be_u32(payload, 0),
            part_number: read_be_u32(payload, 4),
        },
        Some(BmsFunction::BmsIdV21_24) => BmsMessage::AhAndStatusBlock {
            address,
            ah_discharged: read_be_u16(payload, 0),
            remaining_capacity: read_be_u16(payload, 2),
            soh: payload[4],
            soc: payload[5],
            current_tenths: read_be_u16(payload, 6),
        },
        Some(BmsFunction::BmsIdT01_06) => BmsMessage::TemperatureBlock {
            address,
            temperatures: [celsius(payload[0]), celsius(payload[1]), celsius(payload[2])],
        },
        Some(BmsFunction::BmsIdInternalStatus1) => BmsMessage::InternalStatusBlock {
            address,
            alerts: [payload[0], payload[1], payload[2], payload[3]],
        },
        Some(_) => BmsMessage::VoltageBlock {
            address,
            offset: ((function - 2) * 4) as u8,
            cells: [
                read_be_u16(payload, 0) as u32,
                read_be_u16(payload, 2) as u32,
                read_be_u16(payload, 4) as u32,
                read_be_u16(payload, 6) as u32,
            ],
        },
        None => BmsMessage::Unknown { address, function },
    }
}

/// Decodes the payload of a frame that the master sent under `function`.
pub fn decode_master(address: u8, function: u32, payload: &[u8]) -> (message: BmsMessage)
    requires
        payload@.len() == PAYLOAD_LEN,
    ensures
        message == spec_decode_master(address, function, payload@),
        message.spec_wf(),
{
    match BmsFunction::from_master_code(function) {
        Some(BmsFunction::EmsControl) => BmsMessage::MasterControl {
            max_discharge_current: read_be_u16(payload, 0),
            max_recharge_current: read_be_u16(payload, 2),
        },
        Some(BmsFunction::GlobalStatus3) => BmsMessage::MasterStatus3 {
            soc: payload[0],
            soc_id: high_nibble(payload[1]),
            alarm_state: low_two_bits(payload[2]),
            connected: high_nibble(payload[2]),
            powerbus: payload[3],
        },
        Some(BmsFunction::GlobalStatus4) => BmsMessage::MasterStatus4 {
            t_min: celsius(payload[0]),
            t_max: celsius(payload[1]),
            t_min_id: low_nibble(payload[2]),
            t_max_id: high_nibble(payload[2]),
            v_min: read_be_u16(payload, 3),
            v_max: read_be_u16(payload, 5),
            v_min_id: low_nibble(payload[7]),
            v_max_id: high_nibble(payload[7]),
        },
        Some(BmsFunction::GlobalStatus5) => BmsMessage::MasterStatus5 {
            bat_current_tenths: read_be_i16(payload, 0),
            cell_v_min: read_be_i16(payload, 2),
            cell_v_max: read_be_i16(payload, 4),
            cell_v_min_id: low_nibble(payload[6]),
            cell_v_max_id: high_nibble(payload[6]),
        },
        _ => BmsMessage::Unknown { address, function },
    }
}

/// Decodes one frame.
///
/// A payload of any length but eight is rejected as malformed. The address
/// field of the identifier decides between the table of the packs and the
/// table of the master; a function code that the table does not hold gives
/// [`BmsMessage::Unknown`].
pub fn decode(identifier: u32, payload: &[u8]) -> (message: Result<BmsMessage, BmsError>)
    ensures
        message == spec_decode(identifier, payload@),
        payload@.len() != PAYLOAD_LEN <==> message == Err::<BmsMessage, BmsError>(
            BmsError::MalformedFrame,
        ),
        message matches Ok(m) ==> m.spec_wf(),
{
    if payload.len() != PAYLOAD_LEN {
        return Err(BmsError::MalformedFrame);
    }
    let address = address_of(identifier);
    let function = function_of(identifier);
    if is_pack_address(address) {
        Ok(decode_pack(address, function, payload))
    } else {
        Ok(decode_master(address, function, payload))
    }
}

/// A frame that is ready for the bus: an identifier and eight bytes.
#[derive(Clone, Copy, Debug, PartialEq, Eq)]
pub struct EncodedFrame {
    pub identifier: u32,
    pub payload: [u8; 8],
}

/// The eight bytes of a request.
///
/// The serial-number query is its marker and seven zero bytes. A request to
/// one pack starts with the pack's serial number, big-endian, and ends with
/// the byte that says what is asked; the command that sets an address holds
/// the new address and the number of packs in between.
pub open spec fn spec_request_payload(request: PollRequest) -> Seq<u8> {
    match request {
        PollRequest::SerialNumberQuery => seq![SERIAL_NUMBER_QUERY_MARKER, 0, 0, 0, 0, 0, 0, 0],
        PollRequest::Individual { serial_number, function } => be_bytes_of_u32(serial_number)
            + seq![0u8, 0u8, 0u8, function.spec_selector()],
        PollRequest::SetAddress { serial_number, address, pack_count } => be_bytes_of_u32(
            serial_number,
        ) + seq![address, pack_count, 0u8, SET_ADDRESS_COMMAND],
    }
}

/// The identifier that a request goes out on.
pub open spec fn spec_request_identifier(request: PollRequest) -> u32 {
    request.spec_channel().spec_identifier()
}

/// Encodes a request.
pub fn encode(request: PollRequest) -> (frame: EncodedFrame)
    ensures
        frame.identifier == spec_request_identifier(request),
        frame.payload@ == spec_request_payload(request),
        frame.identifier <= 0x7FF,
{
    let identifier = request.channel().identifier();
    let payload: [u8; 8] = match request {
        PollRequest::SerialNumberQuery => [SERIAL_NUMBER_QUERY_MARKER, 0, 0, 0, 0, 0, 0, 0],
        PollRequest::Individual { serial_number, function } => {
            let serial = write_be_u32(serial_number);
            [serial[0], serial[1], serial[2], serial[3], 0, 0, 0, function.selector()]
        },
        PollRequest::SetAddress { serial_number, address, pack_count } => {
            let serial = write_be_u32(serial_number);
            [
                serial[0],
                serial[1],
                serial[2],
                serial[3],
                address,
                pack_count,
                0,
                SET_ADDRESS_COMMAND,
            ]
        },
    };
    assert(payload@ =~= spec_request_payload(request));
    EncodedFrame { identifier, payload }
}

/// The payload of a voltage block with these four readings, if each of them
/// fits in sixteen bits.
pub open spec fn spec_voltage_payload(cells: Seq<u32>) -> Option<Seq<u8>> {
    if cells[0] <= 0xFFFF && cells[1] <= 0xFFFF && cells[2] <= 0xFFFF && cells[3] <= 0xFFFF {
        Some(
            be_bytes_of_u16(cells[0] as u16) + be_bytes_of_u16(cells[1] as u16) + be_bytes_of_u16(
                cells[2] as u16,
            ) + be_bytes_of_u16(cells[3] as u16),
        )
    } else {
        None
    }
}

/// The identifier of the voltage block of the pack at `address` whose first
/// cell comes after `offset` cells.
pub open spec fn spec_voltage_identifier(address: u8, offset: u8) -> u32 {
    (address * 0x1000 + 2 + offset / 4) as u32
}

/// Encodes four cell readings as the payload of a voltage block.
///
/// A reading is sent in sixteen bits: there is no payload for a reading
/// above `0xFFFF`.
pub fn encode_voltage_payload(cells: &[u32; 4]) -> (payload: Option<[u8; 8]>)
    ensures
        payload is Some <==> spec_voltage_payload(cells@) is Some,
        payload matches Some(p) ==> Some(p@) == spec_voltage_payload(cells@),
{
    if cells[0] > 0xFFFF || cells[1] > 0xFFFF || cells[2] > 0xFFFF || cells[3] > 0xFFFF {
        return None;
    }
    let first = write_be_u16(cells[0] as u16);
    let second = write_be_u16(cells[1] as u16);
    let third = write_be_u16(cells[2] as u16);
    let fourth = write_be_u16(cells[3] as u16);
    let payload: [u8; 8] = [
        first[0],
        first[1],
        second[0],
        second[1],
        third[0],
        third[1],
        fourth[0],
        fourth[1],
    ];
    assert(payload@ =~= spec_voltage_payload(cells@).unwrap());
    Some(payload)
}

/// Whether a pack at `address` has a voltage block that starts after
/// `offset` cells.
pub open spec fn spec_is_voltage_block(address: u8, offset: u8) -> bool {
    spec_is_pack_address(address) && offset % 4 == 0 && offset <= 16
}

/// Encodes a voltage block as the frame that a pack sends it in.
///
/// There is no frame for an address that is no pack's, for an offset that is
/// not 0, 4, 8, 12 or 16, or for a reading above `0xFFFF`.
pub fn encode_voltage_block(address: u8, offset: u8, cells: &[u32; 4]) -> (frame: Option<EncodedFrame>)
    ensures
        frame is Some <==> spec_is_voltage_block(address, offset) && spec_voltage_payload(cells@)
            is Some,
        frame matches Some(f) ==> f.identifier == spec_voltage_identifier(address, offset) && Some(
            f.payload@,
        ) == spec_voltage_payload(cells@),
{
    if !is_pack_address(address) || offset % 4 != 0 || offset > 16 {
        return None;
    }
    match encode_voltage_payload(cells) {
        Some(payload) => Some(
            EncodedFrame {
                identifier: address as u32 * 0x1000 + 2 + (offset / 4) as u32,
                payload,
            },
        ),
        None => None,
    }
}

/// A frame with a voltage block decodes to four readings whose payload is
/// the frame's payload, byte for byte. Where the identifier holds nothing
/// above the address, the address and the offset give the identifier back
/// too.
pub proof fn lemma_voltage_block_round_trip(identifier: u32, payload: Seq<u8>)
    requires
        payload.len() == PAYLOAD_LEN,
        spec_is_pack_address(spec_address_of(identifier)),
        0x002 <= spec_function_of(identifier) <= 0x006,
    ensures
        spec_decode(identifier, payload) matches Ok(
            BmsMessage::VoltageBlock { address, offset, cells },
        ) && spec_is_voltage_block(address, offset) && spec_voltage_payload(cells@) == Some(payload)
            && (identifier < 0x10_0000 ==> spec_voltage_identifier(address, offset) == identifier),
{
    lemma_be_bytes_of_u16_read(payload, 0);
    lemma_be_bytes_of_u16_read(payload, 2);
    lemma_be_bytes_of_u16_read(payload, 4);
    lemma_be_bytes_of_u16_read(payload, 6);
    match spec_decode(identifier, payload) {
        Ok(BmsMessage::VoltageBlock { cells, .. }) => {
            assert(spec_voltage_payload(cells@).unwrap() =~= payload);
        },
        _ => {},
    }
}

/// Four readings of at most sixteen bits each come back unchanged from the
/// payload that they were encoded to.
pub proof fn lemma_voltage_payload_decodes(address: u8, function: u32, cells: Seq<u32>)
    requires
        cells.len() == 4,
        0x002 <= function <= 0x006,
        spec_voltage_payload(cells) is Some,
    ensures
        spec_decode_pack(address, function, spec_voltage_payload(cells).unwrap()) matches BmsMessage::VoltageBlock {
            cells: decoded,
            ..
        } && decoded@ == cells,
{
    match spec_decode_pack(address, function, spec_voltage_payload(cells).unwrap()) {
        BmsMessage::VoltageBlock { cells: decoded, .. } => {
            assert(decoded@ =~= cells);
        },
        _ => {},
    }
}

} // verus!

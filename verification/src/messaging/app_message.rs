//! One metric as a string of bytes.

use vstd::prelude::*;

verus! {

/// How many bytes the time stamp of a message takes.
pub const TIMESTAMP_LEN: usize = 16;

/// One value of one metric.
#[derive(Clone, Debug, PartialEq, Eq)]
pub struct MetricMessage {
    /// The number of the metric.
    pub id: u8,
    /// When the value was taken, in milliseconds since the Unix epoch.
    pub ts: u128,
    /// The value, as bytes.
    pub value: Vec<u8>,
}

/// The bytes of a 128-bit number in the order of the machine, from
/// `u128::to_ne_bytes`. Which order that is depends on the machine, so
/// nothing is said of the bytes but that there are sixteen.
#[verifier::external_body]
fn native_bytes(value: u128) -> [u8; 16] {
    value.to_ne_bytes()
}

/// The bytes of a message: the number of the metric, the sixteen bytes of
/// the time stamp, and the value.
pub open spec fn spec_frame(id: u8, ts_bytes: Seq<u8>, value: Seq<u8>) -> Seq<u8> {
    seq![id] + ts_bytes + value
}

/// Puts a message together from its parts.
pub fn frame(id: u8, ts_bytes: &[u8; 16], value: &[u8]) -> (bytes: Vec<u8>)
    ensures
        bytes@ == spec_frame(id, ts_bytes@, value@),
        bytes@.len() == 1 + TIMESTAMP_LEN + value@.len(),
{
    let mut bytes: Vec<u8> = Vec::new();
    bytes.push(id);
    let mut i: usize = 0;
    while i < TIMESTAMP_LEN
        invariant
            i <= TIMESTAMP_LEN,
            bytes@ == seq![id] + ts_bytes@.take(i as int),
        decreases TIMESTAMP_LEN - i,
    {
        bytes.push(ts_bytes[i]);
        assert(ts_bytes@.take(i + 1) =~= ts_bytes@.take(i as int).push(ts_bytes@[i as int]));
        i += 1;
    }
    assert(ts_bytes@.take(TIMESTAMP_LEN as int) =~= ts_bytes@);
    let mut j: usize = 0;
    while j < value.len()
        invariant
            j <= value@.len(),
            bytes@ == seq![id] + ts_bytes@ + value@.take(j as int),
        decreases value@.len() - j,
    {
        bytes.push(value[j]);
        assert(value@.take(j + 1) =~= value@.take(j as int).push(value@[j as int]));
        j += 1;
    }
    assert(value@.take(value@.len() as int) =~= value@);
    bytes
}

impl MetricMessage {
    /// The value `value` of the metric `id`, taken at `ts`.
    pub fn at(id: u8, value: Vec<u8>, ts: u128) -> (message: MetricMessage)
        ensures
            message.id == id,
            message.ts == ts,
            message.value@ == value@,
    {
        MetricMessage { id, value, ts }
    }

    /// The message as bytes: the number of the metric first, then the time
    /// stamp in sixteen bytes in the order of the machine, then the value.
    pub fn get_u8(&self) -> (bytes: Vec<u8>)
        ensures
            bytes@.len() == 1 + TIMESTAMP_LEN + self.value@.len(),
            bytes@[0] == self.id,
            bytes@.subrange(1 + TIMESTAMP_LEN as int, bytes@.len() as int) == self.value@,
    {
        let ts_bytes = native_bytes(self.ts);
        let bytes = frame(self.id, &ts_bytes, self.value.as_slice());
        assert(bytes@.subrange(1 + TIMESTAMP_LEN as int, bytes@.len() as int) =~= self.value@);
        bytes
    }
}

} // verus!

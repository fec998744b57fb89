//! Big-endian integers in a byte string.
//!
//! Every multi-byte field on the bus is big-endian. The spec functions give
//! the value of a field as arithmetic on its bytes; the executable functions
//! read and write the fields and are proved against them.

use vstd::prelude::*;

verus! {

/// The unsigned 16-bit field that starts at byte `at` of `bytes`.
pub open spec fn be_u16_at(bytes: Seq<u8>, at: int) -> int {
    bytes[at] as int * 256 + bytes[at + 1] as int
}

/// The unsigned 32-bit field that starts at byte `at` of `bytes`.
pub open spec fn be_u32_at(bytes: Seq<u8>, at: int) -> int {
    bytes[at] as int * 0x100_0000 + bytes[at + 1] as int * 0x1_0000 + bytes[at + 2] as int * 0x100
        + bytes[at + 3] as int
}

/// The two's-complement reading of an unsigned value of `bits` bits.
pub open spec fn as_signed(unsigned: int, modulus: int) -> int {
    if 2 * unsigned >= modulus {
        unsigned - modulus
    } else {
        unsigned
    }
}

/// The signed 16-bit field that starts at byte `at` of `bytes`.
pub open spec fn be_i16_at(bytes: Seq<u8>, at: int) -> int {
    as_signed(be_u16_at(bytes, at), 0x1_0000)
}

/// The signed 32-bit field that starts at byte `at` of `bytes`.
pub open spec fn be_i32_at(bytes: Seq<u8>, at: int) -> int {
    as_signed(be_u32_at(bytes, at), 0x1_0000_0000)
}

/// The two bytes of an unsigned 16-bit value, most significant first.
pub open spec fn be_bytes_of_u16(value: u16) -> Seq<u8> {
    seq![(value / 256) as u8, (value % 256) as u8]
}

/// The four bytes of an unsigned 32-bit value, most significant first.
pub open spec fn be_bytes_of_u32(value: u32) -> Seq<u8> {
    seq![
        (value / 0x100_0000) as u8,
        (value / 0x1_0000 % 256) as u8,
        (value / 0x100 % 256) as u8,
        (value % 256) as u8,
    ]
}

/// Reads the unsigned 16-bit field at `at`.
pub fn read_be_u16(bytes: &[u8], at: usize) -> (value: u16)
    requires
        at + 2 <= bytes@.len(),
    ensures
        value as int == be_u16_at(bytes@, at as int),
{
    let hi: u16 = bytes[at] as u16;
    let lo: u16 = bytes[at + 1] as u16;
    hi * 256 + lo
}

/// Reads the unsigned 32-bit field at `at`.
pub fn read_be_u32(bytes: &[u8], at: usize) -> (value: u32)
    requires
        at + 4 <= bytes@.len(),
    ensures
        value as int == be_u32_at(bytes@, at as int),
{
    let b0: u32 = bytes[at] as u32;
    let b1: u32 = bytes[at + 1] as u32;
    let b2: u32 = bytes[at + 2] as u32;
    let b3: u32 = bytes[at + 3] as u32;
    b0 * 0x100_0000 + b1 * 0x1_0000 + b2 * 0x100 + b3
}

/// Reads the signed 16-bit field at `at`.
pub fn read_be_i16(bytes: &[u8], at: usize) -> (value: i16)
    requires
        at + 2 <= bytes@.len(),
    ensures
        value as int == be_i16_at(bytes@, at as int),
{
    let unsigned: i32 = read_be_u16(bytes, at) as i32;
    if unsigned >= 0x8000 {
        (unsigned - 0x1_0000) as i16
    } else {
        unsigned as i16
    }
}

/// Reads the signed 32-bit field at `at`.
pub fn read_be_i32(bytes: &[u8], at: usize) -> (value: i32)
    requires
        at + 4 <= bytes@.len(),
    ensures
        value as int == be_i32_at(bytes@, at as int),
{
    let unsigned: i64 = read_be_u32(bytes, at) as i64;
    if unsigned >= 0x8000_0000 {
        (unsigned - 0x1_0000_0000) as i32
    } else {
        unsigned as i32
    }
}

/// The two bytes of an unsigned 16-bit value, most significant first.
pub fn write_be_u16(value: u16) -> (bytes: [u8; 2])
    ensures
        bytes@ == be_bytes_of_u16(value),
{
    [(value / 256) as u8, (value % 256) as u8]
}

/// The four bytes of an unsigned 32-bit value, most significant first.
pub fn write_be_u32(value: u32) -> (bytes: [u8; 4])
    ensures
        bytes@ == be_bytes_of_u32(value),
{
    [
        (value / 0x100_0000) as u8,
        (value / 0x1_0000 % 256) as u8,
        (value / 0x100 % 256) as u8,
        (value % 256) as u8,
    ]
}

/// Reading the bytes of a 16-bit value gives the value back.
pub proof fn lemma_be_u16_of_bytes(value: u16)
    ensures
        be_bytes_of_u16(value).len() == 2,
        be_u16_at(be_bytes_of_u16(value), 0) == value,
{
}

/// Writing the 16-bit field read from two bytes gives the two bytes back.
pub proof fn lemma_be_bytes_of_u16_read(bytes: Seq<u8>, at: int)
    requires
        0 <= at,
        at + 2 <= bytes.len(),
    ensures
        be_bytes_of_u16(be_u16_at(bytes, at) as u16) == bytes.subrange(at, at + 2),
{
    assert(be_u16_at(bytes, at) / 256 == bytes[at] as int);
}

/// Reading the bytes of a 32-bit value gives the value back.
pub proof fn lemma_be_u32_of_bytes(value: u32)
    ensures
        be_bytes_of_u32(value).len() == 4,
        be_u32_at(be_bytes_of_u32(value), 0) == value,
{
}

} // verus!

//! Little-endian integers as they stand on the wire.
//!
//! Every multi-byte field of the protocol is little-endian whatever the host's
//! byte order, so the fields are read and written byte by byte.

use vstd::prelude::*;

verus! {

/// The unsigned 16-bit value of two little-endian bytes.
pub open spec fn le_u16(bytes: Seq<u8>) -> int
    recommends
        bytes.len() == 2,
{
    bytes[0] + 0x100 * bytes[1]
}

/// The unsigned 32-bit value of four little-endian bytes.
pub open spec fn le_u32(bytes: Seq<u8>) -> int
    recommends
        bytes.len() == 4,
{
    bytes[0] + 0x100 * bytes[1] + 0x1_0000 * bytes[2] + 0x100_0000 * bytes[3]
}

/// The two's-complement 32-bit value of four little-endian bytes.
pub open spec fn le_i32(bytes: Seq<u8>) -> int
    recommends
        bytes.len() == 4,
{
    if le_u32(bytes) >= 0x8000_0000 {
        le_u32(bytes) - 0x1_0000_0000
    } else {
        le_u32(bytes)
    }
}

/// The two little-endian bytes of an unsigned 16-bit value.
pub open spec fn u16_le_bytes(value: u16) -> Seq<u8> {
    seq![(value % 0x100) as u8, (value / 0x100) as u8]
}

/// The four little-endian bytes of a 32-bit value in two's complement.
pub open spec fn i32_le_bytes(value: i32) -> Seq<u8> {
    let unsigned = if value < 0 {
        value + 0x1_0000_0000
    } else {
        value as int
    };
    seq![
        (unsigned % 0x100) as u8,
        (unsigned / 0x100 % 0x100) as u8,
        (unsigned / 0x1_0000 % 0x100) as u8,
        (unsigned / 0x100_0000) as u8,
    ]
}

/// Writing a 16-bit value and reading it back gives the value.
pub proof fn lemma_u16_round_trip(value: u16)
    ensures
        u16_le_bytes(value).len() == 2,
        le_u16(u16_le_bytes(value)) == value,
{
}

/// Writing a 32-bit value and reading it back gives the value.
pub proof fn lemma_i32_round_trip(value: i32)
    ensures
        i32_le_bytes(value).len() == 4,
        le_i32(i32_le_bytes(value)) == value,
{
}

/// Reads the unsigned 16-bit field that starts at `at`.
pub fn read_u16_le(buf: &[u8], at: usize) -> (value: u16)
    requires
        at + 2 <= buf@.len(),
    ensures
        value == le_u16(buf@.subrange(at as int, at + 2)),
{
    let low: u16 = buf[at] as u16;
    let high: u16 = buf[at + 1] as u16;
    low + 0x100 * high
}

/// Reads the signed 32-bit field that starts at `at`.
pub fn read_i32_le(buf: &[u8], at: usize) -> (value: i32)
    requires
        at + 4 <= buf@.len(),
    ensures
        value == le_i32(buf@.subrange(at as int, at + 4)),
{
    let unsigned: i64 = buf[at] as i64 + 0x100 * (buf[at + 1] as i64) + 0x1_0000 * (buf[at + 2] as i64)
        + 0x100_0000 * (buf[at + 3] as i64);
    if unsigned >= 0x8000_0000 {
        (unsigned - 0x1_0000_0000) as i32
    } else {
        unsigned as i32
    }
}

/// The two little-endian bytes of `value`.
pub fn write_u16_le(value: u16) -> (bytes: [u8; 2])
    ensures
        bytes@ == u16_le_bytes(value),
{
    [(value % 0x100) as u8, (value / 0x100) as u8]
}

/// The four little-endian bytes of `value`.
pub fn write_i32_le(value: i32) -> (bytes: [u8; 4])
    ensures
        bytes@ == i32_le_bytes(value),
{
    let unsigned: i64 = if value < 0 {
        value as i64 + 0x1_0000_0000
    } else {
        value as i64
    };
    [
        (unsigned % 0x100) as u8,
        (unsigned / 0x100 % 0x100) as u8,
        (unsigned / 0x1_0000 % 0x100) as u8,
        (unsigned / 0x100_0000) as u8,
    ]
}

} // verus!

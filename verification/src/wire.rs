//! Big-endian integer fields, as they appear on the wire.

use byteorder::{BigEndian, ByteOrder};
use vstd::prelude::*;

verus! {

/// The value of a two-byte big-endian field: the first two bytes of `bytes`.
pub open spec fn be_u16(bytes: Seq<u8>) -> u16
    recommends
        bytes.len() >= 2,
{
    (bytes[0] as int * 0x100 + bytes[1] as int) as u16
}

/// The value of a four-byte big-endian field: the first four bytes of `bytes`.
pub open spec fn be_u32(bytes: Seq<u8>) -> u32
    recommends
        bytes.len() >= 4,
{
    (bytes[0] as int * 0x100_0000 + bytes[1] as int * 0x1_0000 + bytes[2] as int * 0x100
        + bytes[3] as int) as u32
}

/// The two bytes that encode `value` in big-endian order.
pub open spec fn u16_be_bytes(value: u16) -> Seq<u8> {
    seq![(value / 0x100) as u8, (value % 0x100) as u8]
}

/// The four bytes that encode `value` in big-endian order.
pub open spec fn u32_be_bytes(value: u32) -> Seq<u8> {
    seq![
        (value / 0x100_0000) as u8,
        (value / 0x1_0000 % 0x100) as u8,
        (value / 0x100 % 0x100) as u8,
        (value % 0x100) as u8,
    ]
}

/// Decoding the big-endian encoding of a 16-bit value gives the value back,
/// whatever bytes follow the field.
pub proof fn lemma_be_u16_round_trip(value: u16, rest: Seq<u8>)
    ensures
        u16_be_bytes(value).len() == 2,
        be_u16(u16_be_bytes(value) + rest) == value,
{
    let bytes = u16_be_bytes(value) + rest;
    assert(bytes[0] == (value / 0x100) as u8);
    assert(bytes[1] == (value % 0x100) as u8);
}

/// Decoding the big-endian encoding of a 32-bit value gives the value back,
/// whatever bytes follow the field.
pub proof fn lemma_be_u32_round_trip(value: u32, rest: Seq<u8>)
    ensures
        u32_be_bytes(value).len() == 4,
        be_u32(u32_be_bytes(value) + rest) == value,
{
    let bytes = u32_be_bytes(value) + rest;
    assert(bytes[0] == (value / 0x100_0000) as u8);
    assert(bytes[1] == (value / 0x1_0000 % 0x100) as u8);
    assert(bytes[2] == (value / 0x100 % 0x100) as u8);
    assert(bytes[3] == (value % 0x100) as u8);
}

/// Reads a big-endian `u16` through `byteorder::BigEndian::read_u16`.
///
/// Trusted: the outside function panics on fewer than two bytes, which the
/// precondition rules out, and otherwise returns the first two bytes read as
/// a big-endian integer.
#[verifier::external_body]
pub(crate) fn read_be_u16(bytes: &[u8]) -> (value: u16)
    requires
        bytes@.len() >= 2,
    ensures
        value == be_u16(bytes@),
{
    BigEndian::read_u16(bytes)
}

/// Reads a big-endian `u32` through `byteorder::BigEndian::read_u32`.
///
/// Trusted: the outside function panics on fewer than four bytes, which the
/// precondition rules out, and otherwise returns the first four bytes read as
/// a big-endian integer.
#[verifier::external_body]
pub(crate) fn read_be_u32(bytes: &[u8]) -> (value: u32)
    requires
        bytes@.len() >= 4,
    ensures
        value == be_u32(bytes@),
{
    BigEndian::read_u32(bytes)
}

} // verus!

//! Little-endian encoding of the fixed-width integers of the archive format.

use vstd::prelude::*;

verus! {

/// The two bytes of `value`, least significant first.
pub open spec fn u16_le(value: u16) -> Seq<u8> {
    seq![(value % 256) as u8, (value / 256) as u8]
}

/// The four bytes of `value`, least significant first.
pub open spec fn u32_le(value: u32) -> Seq<u8> {
    seq![
        (value % 256) as u8,
        (value / 256 % 256) as u8,
        (value / 65536 % 256) as u8,
        (value / 16777216) as u8,
    ]
}

/// The number that two little-endian bytes stand for.
pub open spec fn u16_from_le(bytes: Seq<u8>) -> int
    recommends
        bytes.len() == 2,
{
    bytes[0] + 256 * bytes[1]
}

/// The number that four little-endian bytes stand for.
pub open spec fn u32_from_le(bytes: Seq<u8>) -> int
    recommends
        bytes.len() == 4,
{
    bytes[0] + 256 * bytes[1] + 65536 * bytes[2] + 16777216 * bytes[3]
}

/// Decoding undoes encoding: no two 16-bit values share an encoding.
pub proof fn lemma_u16_le_round_trip(value: u16)
    ensures
        u16_le(value).len() == 2,
        u16_from_le(u16_le(value)) == value,
{
}

/// Decoding undoes encoding: no two 32-bit values share an encoding.
pub proof fn lemma_u32_le_round_trip(value: u32)
    ensures
        u32_le(value).len() == 4,
        u32_from_le(u32_le(value)) == value,
{
}

/// Encodes `value` as two little-endian bytes.
pub fn u16_to_le_bytes(value: u16) -> (bytes: Vec<u8>)
    ensures
        bytes@ == u16_le(value),
{
    let low: u8 = (value % 256) as u8;
    let high: u8 = (value / 256) as u8;
    vec![low, high]
}

/// Encodes `value` as four little-endian bytes.
pub fn u32_to_le_bytes(value: u32) -> (bytes: Vec<u8>)
    ensures
        bytes@ == u32_le(value),
{
    let b0: u8 = (value % 256) as u8;
    let b1: u8 = (value / 256 % 256) as u8;
    let b2: u8 = (value / 65536 % 256) as u8;
    let b3: u8 = (value / 16777216) as u8;
    vec![b0, b1, b2, b3]
}

} // verus!

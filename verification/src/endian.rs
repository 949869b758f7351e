//! Little-endian integers as bytes, and back.

use vstd::prelude::*;

verus! {

/// The number that two bytes spell, least significant byte first.
pub open spec fn le_u16(b0: u8, b1: u8) -> u16 {
    (b0 as int + b1 as int * 0x100) as u16
}

/// The number that four bytes spell, least significant byte first.
pub open spec fn le_u32(b0: u8, b1: u8, b2: u8, b3: u8) -> u32 {
    (b0 as int + b1 as int * 0x100 + b2 as int * 0x1_0000 + b3 as int * 0x100_0000) as u32
}

/// The two bytes of `v`, least significant first.
pub open spec fn le_bytes_u16(v: u16) -> Seq<u8> {
    seq![(v as int % 0x100) as u8, (v as int / 0x100) as u8]
}

/// The four bytes of `v`, least significant first.
pub open spec fn le_bytes_u32(v: u32) -> Seq<u8> {
    seq![
        (v as int % 0x100) as u8,
        (v as int / 0x100 % 0x100) as u8,
        (v as int / 0x1_0000 % 0x100) as u8,
        (v as int / 0x100_0000) as u8,
    ]
}

/// The number that the two bytes of `bytes` from `at` on spell.
pub open spec fn read_le_u16(bytes: Seq<u8>, at: int) -> u16
    recommends
        0 <= at,
        at + 2 <= bytes.len(),
{
    le_u16(bytes[at], bytes[at + 1])
}

/// The number that the four bytes of `bytes` from `at` on spell.
pub open spec fn read_le_u32(bytes: Seq<u8>, at: int) -> u32
    recommends
        0 <= at,
        at + 4 <= bytes.len(),
{
    le_u32(bytes[at], bytes[at + 1], bytes[at + 2], bytes[at + 3])
}

/// Reading back the bytes of a 16-bit number gives the number.
pub proof fn lemma_le_u16_round_trip(v: u16)
    ensures
        le_bytes_u16(v).len() == 2,
        read_le_u16(le_bytes_u16(v), 0) == v,
{
}

/// Reading back the bytes of a 32-bit number gives the number.
pub proof fn lemma_le_u32_round_trip(v: u32)
    ensures
        le_bytes_u32(v).len() == 4,
        read_le_u32(le_bytes_u32(v), 0) == v,
{
}

/// The bytes of `v`, least significant first.
pub fn u16_to_le(v: u16) -> (r: [u8; 2])
    ensures
        r@ == le_bytes_u16(v),
{
    let r: [u8; 2] = [(v % 0x100) as u8, (v / 0x100) as u8];
    assert(r@ =~= le_bytes_u16(v));
    r
}

/// The bytes of `v`, least significant first.
pub fn u32_to_le(v: u32) -> (r: [u8; 4])
    ensures
        r@ == le_bytes_u32(v),
{
    let r: [u8; 4] = [
        (v % 0x100) as u8,
        (v / 0x100 % 0x100) as u8,
        (v / 0x1_0000 % 0x100) as u8,
        (v / 0x100_0000) as u8,
    ];
    assert(r@ =~= le_bytes_u32(v));
    r
}

/// The 16-bit number at `at` in `bytes`.
pub fn u16_from_le(bytes: &[u8], at: usize) -> (r: u16)
    requires
        at + 2 <= bytes@.len(),
    ensures
        r == read_le_u16(bytes@, at as int),
{
    bytes[at] as u16 + bytes[at + 1] as u16 * 0x100
}

/// The 32-bit number at `at` in `bytes`.
pub fn u32_from_le(bytes: &[u8], at: usize) -> (r: u32)
    requires
        at + 4 <= bytes@.len(),
    ensures
        r == read_le_u32(bytes@, at as int),
{
    bytes[at] as u32 + bytes[at + 1] as u32 * 0x100 + bytes[at + 2] as u32 * 0x1_0000 + bytes[at
        + 3] as u32 * 0x100_0000
}

} // verus!

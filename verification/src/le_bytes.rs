//! Little-endian encodings of the fixed-width integers that travel on the wire.

use vstd::prelude::*;

verus! {

/// The two bytes of `x`, least significant first.
pub open spec fn u16_le(x: u16) -> Seq<u8> {
    seq![(x % 256) as u8, (x / 256) as u8]
}

/// The four bytes of `x`, least significant first.
pub open spec fn u32_le(x: u32) -> Seq<u8> {
    seq![
        (x % 256) as u8,
        (x / 256 % 256) as u8,
        (x / 65536 % 256) as u8,
        (x / 16777216) as u8,
    ]
}

/// The unsigned number with the same 32 bits as `x` in two's complement.
pub open spec fn i32_bits(x: i32) -> u32 {
    if x < 0 {
        (x + 0x1_0000_0000) as u32
    } else {
        x as u32
    }
}

/// The four bytes of `x` in two's complement, least significant first.
pub open spec fn i32_le(x: i32) -> Seq<u8> {
    u32_le(i32_bits(x))
}

/// The unsigned 16-bit number whose little-endian bytes are `b0`, `b1`.
pub open spec fn u16_from_le(b0: u8, b1: u8) -> u16 {
    (b0 + 256 * b1) as u16
}

/// The signed 16-bit number whose two's complement bytes are `b0`, `b1`.
pub open spec fn i16_from_le(b0: u8, b1: u8) -> i16 {
    if b1 >= 128 {
        (b0 + 256 * b1 - 65536) as i16
    } else {
        (b0 + 256 * b1) as i16
    }
}

/// The unsigned 32-bit number whose little-endian bytes are `b0` .. `b3`.
pub open spec fn u32_from_le(b0: u8, b1: u8, b2: u8, b3: u8) -> u32 {
    (b0 + 256 * b1 + 65536 * b2 + 16777216 * b3) as u32
}

/// The signed 32-bit number whose two's complement bytes are `b0` .. `b3`.
pub open spec fn i32_from_le(b0: u8, b1: u8, b2: u8, b3: u8) -> i32 {
    if b3 >= 128 {
        (b0 + 256 * b1 + 65536 * b2 + 16777216 * b3 - 0x1_0000_0000) as i32
    } else {
        (b0 + 256 * b1 + 65536 * b2 + 16777216 * b3) as i32
    }
}

/// Decoding the encoding of a 16-bit length gives the length back.
pub proof fn lemma_u16_le_round_trip(x: u16)
    ensures
        u16_le(x).len() == 2,
        u16_from_le(u16_le(x)[0], u16_le(x)[1]) == x,
{
}

/// Decoding the encoding of a 32-bit length gives the length back.
pub proof fn lemma_u32_le_round_trip(x: u32)
    ensures
        u32_le(x).len() == 4,
        u32_from_le(u32_le(x)[0], u32_le(x)[1], u32_le(x)[2], u32_le(x)[3]) == x,
{
}

/// Appends the little-endian bytes of `x` to `out`.
pub fn push_u16_le(out: &mut Vec<u8>, x: u16)
    ensures
        final(out)@ == old(out)@ + u16_le(x),
{
    out.push((x % 256) as u8);
    out.push((x / 256) as u8);
}

/// Appends the little-endian bytes of `x` to `out`.
pub fn push_u32_le(out: &mut Vec<u8>, x: u32)
    ensures
        final(out)@ == old(out)@ + u32_le(x),
{
    out.push((x % 256) as u8);
    out.push((x / 256 % 256) as u8);
    out.push((x / 65536 % 256) as u8);
    out.push((x / 16777216) as u8);
}

/// Appends the two's complement little-endian bytes of `x` to `out`.
pub fn push_i32_le(out: &mut Vec<u8>, x: i32)
    ensures
        final(out)@ == old(out)@ + i32_le(x),
{
    let bits: u32 = if x < 0 {
        (x as i64 + 0x1_0000_0000) as u32
    } else {
        x as u32
    };
    push_u32_le(out, bits);
}

/// Reads an unsigned 16-bit number from two little-endian bytes.
pub fn read_u16_le(b0: u8, b1: u8) -> (x: u16)
    ensures
        x == u16_from_le(b0, b1),
{
    b0 as u16 + 256 * (b1 as u16)
}

/// Reads a signed 16-bit number from two little-endian bytes.
pub fn read_i16_le(b0: u8, b1: u8) -> (x: i16)
    ensures
        x == i16_from_le(b0, b1),
{
    let raw: i32 = b0 as i32 + 256 * (b1 as i32);
    if b1 >= 128 {
        (raw - 65536) as i16
    } else {
        raw as i16
    }
}

/// Reads an unsigned 32-bit number from four little-endian bytes.
pub fn read_u32_le(b0: u8, b1: u8, b2: u8, b3: u8) -> (x: u32)
    ensures
        x == u32_from_le(b0, b1, b2, b3),
{
    b0 as u32 + 256 * (b1 as u32) + 65536 * (b2 as u32) + 16777216 * (b3 as u32)
}

/// Reads a signed 32-bit number from four little-endian bytes.
pub fn read_i32_le(b0: u8, b1: u8, b2: u8, b3: u8) -> (x: i32)
    ensures
        x == i32_from_le(b0, b1, b2, b3),
{
    let raw: i64 = b0 as i64 + 256 * (b1 as i64) + 65536 * (b2 as i64) + 16777216 * (b3 as i64);
    if b3 >= 128 {
        (raw - 0x1_0000_0000) as i32
    } else {
        raw as i32
    }
}

} // verus!

//! Integers to and from the byte order that sensors and memories use on
//! the wire.

use vstd::prelude::*;

verus! {

/// The value of a 16-bit two's-complement word `u` read as signed.
pub open spec fn signed16(u: int) -> int {
    if u >= 0x8000 {
        u - 0x1_0000
    } else {
        u
    }
}

/// The value of a 32-bit two's-complement word `u` read as signed.
pub open spec fn signed32(u: int) -> int {
    if u >= 0x8000_0000 {
        u - 0x1_0000_0000
    } else {
        u
    }
}

/// The 32-bit two's-complement word that stands for `v`.
pub open spec fn unsigned32(v: int) -> int {
    if v < 0 {
        v + 0x1_0000_0000
    } else {
        v
    }
}

/// The unsigned value of two bytes, most significant first.
pub open spec fn word16(hi: u8, lo: u8) -> int {
    hi * 0x100 + lo
}

/// The unsigned value of four bytes, most significant first.
pub open spec fn word32(b: Seq<u8>) -> int {
    b[0] * 0x100_0000 + b[1] * 0x1_0000 + b[2] * 0x100 + b[3]
}

/// Byte `k` (0 is the most significant) of the 32-bit word `u`.
pub open spec fn byte_of_word32(u: int, k: int) -> int {
    (u / pow256(3 - k)) % 0x100
}

/// `256` raised to `e`, for `e` from 0 to 3.
pub open spec fn pow256(e: int) -> int {
    if e <= 0 {
        1
    } else if e == 1 {
        0x100
    } else if e == 2 {
        0x1_0000
    } else {
        0x100_0000
    }
}

/// `u16::from_le_bytes([b0, b1])`.
pub fn u16_from_le_bytes(b0: u8, b1: u8) -> (v: u16)
    ensures
        v == word16(b1, b0),
        v == b1 * 256 + b0,
{
    (b1 as u16) * 256 + (b0 as u16)
}

/// `u16::from_be_bytes([b0, b1])`.
pub fn u16_from_be_bytes(b0: u8, b1: u8) -> (v: u16)
    ensures
        v == word16(b0, b1),
        v == b0 * 256 + b1,
{
    (b0 as u16) * 256 + (b1 as u16)
}

/// `i16::from_le_bytes([b0, b1])`.
pub fn i16_from_le_bytes(b0: u8, b1: u8) -> (v: i16)
    ensures
        v == signed16(word16(b1, b0)),
        v as int == (if b1 >= 0x80 {
            b1 * 256 + b0 - 0x1_0000
        } else {
            b1 * 256 + b0
        }),
{
    let u: u16 = u16_from_le_bytes(b0, b1);
    if u >= 0x8000 {
        (u as i32 - 0x1_0000) as i16
    } else {
        u as i16
    }
}

/// `i16::from_be_bytes([b0, b1])`.
pub fn i16_from_be_bytes(b0: u8, b1: u8) -> (v: i16)
    ensures
        v == signed16(word16(b0, b1)),
        v as int == (if b0 >= 0x80 {
            b0 * 256 + b1 - 0x1_0000
        } else {
            b0 * 256 + b1
        }),
{
    let u: u16 = u16_from_be_bytes(b0, b1);
    if u >= 0x8000 {
        (u as i32 - 0x1_0000) as i16
    } else {
        u as i16
    }
}

/// `u16::to_be_bytes(v)`.
pub fn u16_to_be_bytes(v: u16) -> (b: [u8; 2])
    ensures
        b[0] == v / 0x100,
        b[1] == v % 0x100,
        word16(b[0], b[1]) == v,
{
    [(v / 256) as u8, (v % 256) as u8]
}

/// `i32::from_be_bytes(b)`.
pub fn i32_from_be_bytes(b: [u8; 4]) -> (v: i32)
    ensures
        v == signed32(word32(b@)),
        v as int == (if b[0] >= 0x80 {
            b[0] * 0x100_0000 + b[1] * 0x1_0000 + b[2] * 0x100 + b[3] - 0x1_0000_0000
        } else {
            b[0] * 0x100_0000 + b[1] * 0x1_0000 + b[2] * 0x100 + b[3]
        }),
{
    let u: u32 = (b[0] as u32) * 0x100_0000 + (b[1] as u32) * 0x1_0000 + (b[2] as u32) * 0x100
        + (b[3] as u32);
    if u >= 0x8000_0000 {
        (u as i64 - 0x1_0000_0000) as i32
    } else {
        u as i32
    }
}

/// `i32::to_be_bytes(v)`.
pub fn i32_to_be_bytes(v: i32) -> (b: [u8; 4])
    ensures
        forall|k: int| 0 <= k < 4 ==> b@[k] == byte_of_word32(unsigned32(v as int), k),
        b[0] * 0x100_0000 + b[1] * 0x1_0000 + b[2] * 0x100 + b[3] == (if v < 0 {
            v + 0x1_0000_0000
        } else {
            v as int
        }),
{
    let u: u32 = if v < 0 {
        (v as i64 + 0x1_0000_0000) as u32
    } else {
        v as u32
    };
    let b: [u8; 4] = [
        (u / 0x100_0000) as u8,
        ((u / 0x1_0000) % 0x100) as u8,
        ((u / 0x100) % 0x100) as u8,
        (u % 0x100) as u8,
    ];
    assert(u / 0x100_0000 < 0x100) by (bit_vector);
    assert((u / 0x100_0000) * 0x100_0000 + ((u / 0x1_0000) % 0x100) * 0x1_0000 + ((u / 0x100)
        % 0x100) * 0x100 + u % 0x100 == u) by (bit_vector);
    assert(b@[0] == byte_of_word32(unsigned32(v as int), 0));
    b
}

/// Reading back the four bytes that `i32_to_be_bytes` wrote gives the same
/// integer.
pub proof fn lemma_i32_be_roundtrip(v: i32, b: Seq<u8>)
    requires
        b.len() == 4,
        forall|k: int| 0 <= k < 4 ==> b[k] == byte_of_word32(unsigned32(v as int), k),
    ensures
        signed32(word32(b)) == v,
{
    let u: u32 = unsigned32(v as int) as u32;
    assert(u == unsigned32(v as int));
    assert(b[0] == u / 0x100_0000 % 0x100);
    assert(b[1] == u / 0x1_0000 % 0x100);
    assert(b[2] == u / 0x100 % 0x100);
    assert(b[3] == u / 1 % 0x100);
    assert((u / 0x100_0000 % 0x100) * 0x100_0000 + (u / 0x1_0000 % 0x100) * 0x1_0000 + (u / 0x100
        % 0x100) * 0x100 + u / 1 % 0x100 == u) by (bit_vector);
}

/// Writing the integer that four bytes encode gives back the same bytes.
pub proof fn lemma_i32_be_bytes_roundtrip(b: Seq<u8>)
    requires
        b.len() == 4,
    ensures
        forall|k: int| 0 <= k < 4 ==> b[k] == byte_of_word32(unsigned32(signed32(word32(b))), k),
{
    let (b0, b1, b2, b3) = (b[0], b[1], b[2], b[3]);
    assert(unsigned32(signed32(word32(b))) == word32(b));
    let w: u32 = word32(b) as u32;
    assert(((b0 as u32) * 0x100_0000 + (b1 as u32) * 0x1_0000 + (b2 as u32) * 0x100 + (b3 as u32))
        / 0x100_0000 % 0x100 == b0) by (bit_vector);
    assert(((b0 as u32) * 0x100_0000 + (b1 as u32) * 0x1_0000 + (b2 as u32) * 0x100 + (b3 as u32))
        / 0x1_0000 % 0x100 == b1) by (bit_vector);
    assert(((b0 as u32) * 0x100_0000 + (b1 as u32) * 0x1_0000 + (b2 as u32) * 0x100 + (b3 as u32))
        / 0x100 % 0x100 == b2) by (bit_vector);
    assert(((b0 as u32) * 0x100_0000 + (b1 as u32) * 0x1_0000 + (b2 as u32) * 0x100 + (b3 as u32))
        / 1 % 0x100 == b3) by (bit_vector);
}

} // verus!

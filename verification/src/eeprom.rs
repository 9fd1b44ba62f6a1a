//! The record that keeps the last temperature in an AT24C256 EEPROM: a
//! 32-bit big-endian integer at a fixed memory address.

use vstd::prelude::*;
use crate::bytes::{
    byte_of_word32, i32_from_be_bytes, i32_to_be_bytes, lemma_i32_be_roundtrip, signed32,
    lemma_i32_be_bytes_roundtrip, u16_to_be_bytes, unsigned32, word32,
};

verus! {

/// I2C address of the EEPROM.
pub const EEPROM_ADDR: u8 = 0x50;

/// Memory address of the stored temperature.
pub const EEPROM_STORAGE_ADDR: u16 = 0xACDC;

/// The two address bytes that select `EEPROM_STORAGE_ADDR`, most
/// significant first.
pub open spec fn storage_address_bytes() -> Seq<u8> {
    seq![0xACu8, 0xDCu8]
}

/// The bytes that store `temp`: the memory address, then the four bytes of
/// the temperature, most significant first.
pub open spec fn write_frame_of(temp: int) -> Seq<u8> {
    storage_address_bytes() + Seq::new(4, |k: int| byte_of_word32(unsigned32(temp), k) as u8)
}

/// The temperature that the four bytes read back from the storage address
/// hold.
pub open spec fn stored_temperature_of(b: Seq<u8>) -> int {
    signed32(word32(b))
}

/// The bytes written before reading back the stored temperature: the
/// storage address.
pub fn read_request() -> (req: [u8; 2])
    ensures
        req@ == storage_address_bytes(),
        req[0] == 0xAC && req[1] == 0xDC,
{
    let req = u16_to_be_bytes(EEPROM_STORAGE_ADDR);
    assert(req@ =~= storage_address_bytes());
    req
}

/// The six bytes that one write sends to store `temp` at the storage
/// address.
pub fn write_frame(temp: i32) -> (frame: [u8; 6])
    ensures
        frame@ == write_frame_of(temp as int),
        frame[0] == 0xAC && frame[1] == 0xDC,
        frame[2] * 0x100_0000 + frame[3] * 0x1_0000 + frame[4] * 0x100 + frame[5] == (if temp < 0 {
            temp + 0x1_0000_0000
        } else {
            temp as int
        }),
{
    let addr = u16_to_be_bytes(EEPROM_STORAGE_ADDR);
    let t = i32_to_be_bytes(temp);
    let frame: [u8; 6] = [addr[0], addr[1], t[0], t[1], t[2], t[3]];
    assert(frame@ =~= write_frame_of(temp as int));
    frame
}

/// The temperature held by the four bytes read back from the storage
/// address.
pub fn stored_temperature(b: [u8; 4]) -> (temp: i32)
    ensures
        temp == stored_temperature_of(b@),
        temp as int == (if b[0] >= 0x80 {
            b[0] * 0x100_0000 + b[1] * 0x1_0000 + b[2] * 0x100 + b[3] - 0x1_0000_0000
        } else {
            b[0] * 0x100_0000 + b[1] * 0x1_0000 + b[2] * 0x100 + b[3]
        }),
{
    i32_from_be_bytes(b)
}

/// What a read of the storage address gives back is the temperature that
/// the last write stored there: the data part of a write frame decodes to
/// the temperature it was made from.
pub proof fn lemma_read_back_write(temp: i32)
    ensures
        write_frame_of(temp as int).subrange(0, 2) == storage_address_bytes(),
        stored_temperature_of(write_frame_of(temp as int).subrange(2, 6)) == temp,
{
    let f = write_frame_of(temp as int);
    assert(f.subrange(0, 2) =~= storage_address_bytes());
    let data = f.subrange(2, 6);
    assert forall|k: int| 0 <= k < 4 implies data[k] == byte_of_word32(
        unsigned32(temp as int),
        k,
    ) by {
        assert(0 <= byte_of_word32(unsigned32(temp as int), k) < 256);
    }
    lemma_i32_be_roundtrip(temp, data);
}

/// Storing the temperature that four bytes hold writes back those same
/// bytes.
pub proof fn lemma_write_back_read(b: Seq<u8>)
    requires
        b.len() == 4,
    ensures
        write_frame_of(stored_temperature_of(b)).subrange(2, 6) == b,
{
    lemma_i32_be_bytes_roundtrip(b);
    assert(write_frame_of(stored_temperature_of(b)).subrange(2, 6) =~= b);
}

/// The record written for a temperature starts with the storage address
/// 0xACDC, and its four data bytes, read back as a big-endian signed
/// integer, give the temperature again.
pub proof fn lemma_record_layout(temp: i32)
    ensures
        write_frame_of(temp as int)[0] == 0xAC,
        write_frame_of(temp as int)[1] == 0xDC,
        write_frame_of(temp as int).len() == 6,
        ({
            let f = write_frame_of(temp as int);
            let w = f[2] * 0x100_0000 + f[3] * 0x1_0000 + f[4] * 0x100 + f[5];
            (if f[2] >= 0x80 { w - 0x1_0000_0000 } else { w }) == temp
        }),
{
    lemma_read_back_write(temp);
    let f = write_frame_of(temp as int);
    assert(f.subrange(2, 6)[0] == f[2] && f.subrange(2, 6)[1] == f[3] && f.subrange(2, 6)[2]
        == f[4] && f.subrange(2, 6)[3] == f[5]);
}

} // verus!

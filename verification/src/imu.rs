//! MPU-6500 inertial sensor over SPI: register commands and the decoding
//! of one burst read of accelerometer and gyroscope samples.

use vstd::prelude::*;
use crate::bytes::{i16_from_be_bytes, signed16, word16};

verus! {

/// Register that holds the device identity.
pub const WHO_AM_I: u8 = 0x75;

/// Accelerometer configuration register.
pub const ACCEL_CONFIG: u8 = 0x1C;

/// Gyroscope configuration register.
pub const GYRO_CONFIG: u8 = 0x1B;

/// Register from which the burst read of samples starts.
pub const ACCEL_XOUT_H: u8 = 0x43;

/// Accelerometer full scale of +-2 g.
pub const ACCEL_FS_2G: u8 = 0b0000_0000;

/// Gyroscope full scale of +-1000 degrees per second.
pub const GYRO_FS_1000DPS: u8 = 0b0001_0000;

/// Length of the burst read: the command byte's slot and fourteen data
/// bytes.
pub const FRAME_LEN: usize = 15;

/// The first byte of an SPI transfer that reads `reg`: the register with
/// the read bit (bit 7) set.
pub open spec fn read_command_of(reg: u8) -> u8 {
    reg | 0x80
}

/// The raw samples of one burst read, in sensor units.
#[derive(Clone, Copy, Debug, PartialEq, Eq, Structural)]
pub struct ImuSample {
    pub accel_x: i16,
    pub accel_y: i16,
    pub accel_z: i16,
    pub gyro_x: i16,
    pub gyro_y: i16,
    pub gyro_z: i16,
}

/// The signed big-endian word at bytes `i` and `i + 1` of `rx`.
pub open spec fn be_word_at(rx: Seq<u8>, i: int) -> i16 {
    signed16(word16(rx[i], rx[i + 1])) as i16
}

/// The samples held by a burst-read frame: three accelerometer words from
/// byte 1 and three gyroscope words from byte 9 (bytes 7 and 8 are skipped).
pub open spec fn sample_of(rx: Seq<u8>) -> ImuSample {
    ImuSample {
        accel_x: be_word_at(rx, 1),
        accel_y: be_word_at(rx, 3),
        accel_z: be_word_at(rx, 5),
        gyro_x: be_word_at(rx, 9),
        gyro_y: be_word_at(rx, 11),
        gyro_z: be_word_at(rx, 13),
    }
}

/// The command byte that reads `reg`.
pub fn read_command(reg: u8) -> (cmd: u8)
    ensures
        cmd == read_command_of(reg),
        cmd == reg | 0x80,
        cmd >= 0x80,
        cmd % 0x80 == reg % 0x80,
{
    let cmd: u8 = (1u8 << 7u8) | reg;
    assert((1u8 << 7u8) | reg == reg | 0x80 && (reg | 0x80) >= 0x80 && (reg | 0x80) % 0x80 == reg
        % 0x80) by (bit_vector);
    cmd
}

/// Decodes the samples of a burst-read frame.
pub fn decode_frame(rx: &[u8; 15]) -> (sample: ImuSample)
    ensures
        sample == sample_of(rx@),
        sample.accel_x as int == (if rx[1] >= 0x80 {
            rx[1] * 256 + rx[2] - 0x1_0000
        } else {
            rx[1] * 256 + rx[2]
        }),
        sample.accel_y as int == (if rx[3] >= 0x80 {
            rx[3] * 256 + rx[4] - 0x1_0000
        } else {
            rx[3] * 256 + rx[4]
        }),
        sample.accel_z as int == (if rx[5] >= 0x80 {
            rx[5] * 256 + rx[6] - 0x1_0000
        } else {
            rx[5] * 256 + rx[6]
        }),
        sample.gyro_x as int == (if rx[9] >= 0x80 {
            rx[9] * 256 + rx[10] - 0x1_0000
        } else {
            rx[9] * 256 + rx[10]
        }),
        sample.gyro_y as int == (if rx[11] >= 0x80 {
            rx[11] * 256 + rx[12] - 0x1_0000
        } else {
            rx[11] * 256 + rx[12]
        }),
        sample.gyro_z as int == (if rx[13] >= 0x80 {
            rx[13] * 256 + rx[14] - 0x1_0000
        } else {
            rx[13] * 256 + rx[14]
        }),
{
    ImuSample {
        accel_x: i16_from_be_bytes(rx[1], rx[2]),
        accel_y: i16_from_be_bytes(rx[3], rx[4]),
        accel_z: i16_from_be_bytes(rx[5], rx[6]),
        gyro_x: i16_from_be_bytes(rx[9], rx[10]),
        gyro_y: i16_from_be_bytes(rx[11], rx[12]),
        gyro_z: i16_from_be_bytes(rx[13], rx[14]),
    }
}

/// Each sample of a burst-read frame is the signed big-endian word of its
/// two bytes: accelerometer X, Y, Z at bytes 1, 3, 5 and gyroscope X, Y, Z
/// at bytes 9, 11, 13, each with the byte after it.
pub proof fn lemma_sample_words(rx: Seq<u8>)
    requires
        rx.len() == FRAME_LEN,
    ensures
        sample_of(rx).accel_x as int == (if rx[1] >= 0x80 {
            rx[1] * 256 + rx[2] - 0x1_0000
        } else {
            rx[1] * 256 + rx[2]
        }),
        sample_of(rx).accel_y as int == (if rx[3] >= 0x80 {
            rx[3] * 256 + rx[4] - 0x1_0000
        } else {
            rx[3] * 256 + rx[4]
        }),
        sample_of(rx).accel_z as int == (if rx[5] >= 0x80 {
            rx[5] * 256 + rx[6] - 0x1_0000
        } else {
            rx[5] * 256 + rx[6]
        }),
        sample_of(rx).gyro_x as int == (if rx[9] >= 0x80 {
            rx[9] * 256 + rx[10] - 0x1_0000
        } else {
            rx[9] * 256 + rx[10]
        }),
        sample_of(rx).gyro_y as int == (if rx[11] >= 0x80 {
            rx[11] * 256 + rx[12] - 0x1_0000
        } else {
            rx[11] * 256 + rx[12]
        }),
        sample_of(rx).gyro_z as int == (if rx[13] >= 0x80 {
            rx[13] * 256 + rx[14] - 0x1_0000
        } else {
            rx[13] * 256 + rx[14]
        }),
{
}

} // verus!

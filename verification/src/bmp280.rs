//! BMP280 temperature sensor: calibration words, raw readings and the
//! integer temperature compensation of its datasheet.

use vstd::prelude::*;
use crate::bytes::{i16_from_le_bytes, signed16, u16_from_le_bytes, word16};

verus! {

/// I2C address of the sensor.
pub const BMP280_ADDR: u8 = 0x76;

/// The `ctrl_meas` register.
pub const REG_CTRL_MEAS: u8 = 0xF4;

/// Normal mode with temperature oversampling x2, written to `ctrl_meas`.
pub const CTRL_MEAS_NORMAL_TEMP_X2: u8 = 0x43;

/// First register of the temperature calibration words.
pub const REG_CALIB_T: u8 = 0x88;

/// First register of the temperature reading.
pub const REG_TEMP_MSB: u8 = 0xFA;

/// The three temperature calibration words of one sensor.
#[derive(Clone, Copy, Debug, PartialEq, Eq, Structural)]
pub struct Calibration {
    pub dig_t1: u16,
    pub dig_t2: i16,
    pub dig_t3: i16,
}

/// The calibration words stored little-endian in `c`.
pub open spec fn calibration_of(c: Seq<u8>) -> Calibration {
    Calibration {
        dig_t1: word16(c[1], c[0]) as u16,
        dig_t2: signed16(word16(c[3], c[2])) as i16,
        dig_t3: signed16(word16(c[5], c[4])) as i16,
    }
}

/// The 20-bit raw temperature held in the three bytes read from
/// `REG_TEMP_MSB` onwards (the low nibble of the last byte is unused).
pub open spec fn raw_temperature_of(d: Seq<u8>) -> int {
    d[0] * 0x1000 + d[1] * 0x10 + d[2] / 0x10
}

/// The first term of the compensation, before its shift.
pub open spec fn var1_product(raw: int, cal: Calibration) -> int {
    (raw / 8 - cal.dig_t1 * 2) * cal.dig_t2
}

/// The distance that the second term squares.
pub open spec fn var2_base(raw: int, cal: Calibration) -> int {
    raw / 16 - cal.dig_t1
}

/// The second term of the compensation, before its last shift.
pub open spec fn var2_product(raw: int, cal: Calibration) -> int {
    (var2_base(raw, cal) * var2_base(raw, cal)) / 4096 * cal.dig_t3
}

/// The fine temperature that the datasheet's formula computes.
pub open spec fn t_fine(raw: int, cal: Calibration) -> int {
    var1_product(raw, cal) / 2048 + var2_product(raw, cal) / 16384
}

/// The temperature in hundredths of a degree Celsius that the datasheet's
/// integer formula gives for `raw` (every shift rounds towards minus
/// infinity).
pub open spec fn compensated_temperature(raw: int, cal: Calibration) -> int {
    (t_fine(raw, cal) * 5 + 128) / 256
}

pub open spec fn fits_i32(x: int) -> bool {
    i32::MIN <= x <= i32::MAX
}

/// Every intermediate value of the formula fits a 32-bit signed integer.
pub open spec fn compensation_fits(raw: int, cal: Calibration) -> bool {
    &&& fits_i32(var1_product(raw, cal))
    &&& fits_i32(var2_base(raw, cal) * var2_base(raw, cal))
    &&& fits_i32(var2_product(raw, cal))
    &&& fits_i32(t_fine(raw, cal))
    &&& fits_i32(t_fine(raw, cal) * 5 + 128)
}

/// Reads the calibration words from the six bytes that start at
/// `REG_CALIB_T`.
pub fn parse_calibration(c: [u8; 6]) -> (cal: Calibration)
    ensures
        cal == calibration_of(c@),
        cal.dig_t1 == c[0] + 256 * c[1],
        cal.dig_t2 == (if c[3] >= 0x80 {
            c[2] + 256 * c[3] - 0x1_0000
        } else {
            c[2] + 256 * c[3]
        }),
        cal.dig_t3 == (if c[5] >= 0x80 {
            c[4] + 256 * c[5] - 0x1_0000
        } else {
            c[4] + 256 * c[5]
        }),
{
    Calibration {
        dig_t1: u16_from_le_bytes(c[0], c[1]),
        dig_t2: i16_from_le_bytes(c[2], c[3]),
        dig_t3: i16_from_le_bytes(c[4], c[5]),
    }
}

/// Assembles the 20-bit raw temperature from the three bytes that start at
/// `REG_TEMP_MSB`.
pub fn raw_temperature(d: [u8; 3]) -> (raw: u32)
    ensures
        raw == raw_temperature_of(d@),
        raw == d[0] * 4096 + d[1] * 16 + d[2] / 16,
        raw < 0x10_0000,
{
    let (d0, d1, d2) = (d[0], d[1], d[2]);
    let raw: u32 = ((d0 as u32) << 12u32) | ((d1 as u32) << 4u32) | ((d2 as u32) >> 4u32);
    assert(((d0 as u32) << 12u32) | ((d1 as u32) << 4u32) | ((d2 as u32) >> 4u32) == (d0 as u32)
        * 0x1000 + (d1 as u32) * 0x10 + (d2 as u32) / 0x10) by (bit_vector);
    raw
}

/// The temperature in hundredths of a degree Celsius, computed with the
/// datasheet's 32-bit integer formula.
pub fn compensate_temperature(raw: u32, cal: Calibration) -> (temp: i32)
    requires
        raw < 0x10_0000,
        compensation_fits(raw as int, cal),
    ensures
        temp == compensated_temperature(raw as int, cal),
        temp == ({
            let a = raw / 8 - cal.dig_t1 * 2;
            let d = raw / 16 - cal.dig_t1;
            let tf = (a * cal.dig_t2) / 2048 + (d * d / 4096 * cal.dig_t3) / 16384;
            (tf * 5 + 128) / 256
        }),
{
    let t1: i32 = cal.dig_t1 as i32;
    let t2: i32 = cal.dig_t2 as i32;
    let t3: i32 = cal.dig_t3 as i32;
    let r3: u32 = raw >> 3u32;
    let r4: u32 = raw >> 4u32;
    assert(r3 == raw / 8 && r4 == raw / 16) by (bit_vector)
        requires
            r3 == raw >> 3u32,
            r4 == raw >> 4u32,
    ;
    let a: i32 = r3 as i32 - t1 * 2;
    let p1: i32 = a * t2;
    let var1: i32 = p1 >> 11u32;
    assert(var1 == p1 / 2048) by (bit_vector)
        requires
            var1 == p1 >> 11u32,
    ;
    let d: i32 = r4 as i32 - t1;
    let sq: i32 = d * d;
    assert(sq >= 0) by (nonlinear_arith)
        requires
            sq == d * d,
    ;
    let q: i32 = sq >> 12u32;
    assert(q == sq / 4096) by (bit_vector)
        requires
            q == sq >> 12u32,
    ;
    let p2: i32 = q * t3;
    let var2: i32 = p2 >> 14u32;
    assert(var2 == p2 / 16384) by (bit_vector)
        requires
            var2 == p2 >> 14u32,
    ;
    let t_fine: i32 = var1 + var2;
    let scaled: i32 = t_fine * 5 + 128;
    let temp: i32 = scaled >> 8u32;
    assert(temp == scaled / 256) by (bit_vector)
        requires
            temp == scaled >> 8u32,
    ;
    temp
}

/// The compensated temperature, or `None` where an intermediate value of
/// the 32-bit formula would overflow (where `compensate_temperature`
/// cannot be called).
pub fn compensate_temperature_checked(raw: u32, cal: Calibration) -> (temp: Option<i32>)
    requires
        raw < 0x10_0000,
    ensures
        temp is Some <==> compensation_fits(raw as int, cal),
        temp matches Some(t) ==> t == compensated_temperature(raw as int, cal),
        temp is Some <==> ({
            let a = raw / 8 - cal.dig_t1 * 2;
            let p1 = a * cal.dig_t2;
            let d = raw / 16 - cal.dig_t1;
            let sq = d * d;
            let p2 = sq / 4096 * cal.dig_t3;
            let tf = p1 / 2048 + p2 / 16384;
            let sc = tf * 5 + 128;
            &&& -0x8000_0000 <= p1 <= 0x7fff_ffff
            &&& -0x8000_0000 <= sq <= 0x7fff_ffff
            &&& -0x8000_0000 <= p2 <= 0x7fff_ffff
            &&& -0x8000_0000 <= tf <= 0x7fff_ffff
            &&& -0x8000_0000 <= sc <= 0x7fff_ffff
        }),
        temp matches Some(t) ==> t == ({
            let a = raw / 8 - cal.dig_t1 * 2;
            let d = raw / 16 - cal.dig_t1;
            let tf = (a * cal.dig_t2) / 2048 + (d * d / 4096 * cal.dig_t3) / 16384;
            (tf * 5 + 128) / 256
        }),
{
    let t1: i64 = cal.dig_t1 as i64;
    let t2: i64 = cal.dig_t2 as i64;
    let t3: i64 = cal.dig_t3 as i64;
    let r3: i64 = (raw / 8) as i64;
    let r4: i64 = (raw / 16) as i64;
    let a: i64 = r3 - t1 * 2;
    assert(-0x2_0000 < a < 0x2_0000);
    assert(-0x1_0000_0000 < a * t2 < 0x1_0000_0000) by (nonlinear_arith)
        requires
            -0x2_0000 < a < 0x2_0000,
            -0x8000 <= t2 < 0x8000,
    ;
    let p1: i64 = a * t2;
    let d: i64 = r4 - t1;
    assert(-0x1_0000 < d < 0x1_0000);
    assert(0 <= d * d < 0x1_0000_0000) by (nonlinear_arith)
        requires
            -0x1_0000 < d < 0x1_0000,
    ;
    let sq: i64 = d * d;
    let q: i64 = sq / 4096;
    assert(-0x8_0000_0000 < q * t3 < 0x8_0000_0000) by (nonlinear_arith)
        requires
            0 <= q < 0x10_0000,
            -0x8000 <= t3 < 0x8000,
    ;
    let p2: i64 = q * t3;
    let var1: i64 = if p1 >= 0 {
        p1 / 2048
    } else {
        -((2047 - p1) / 2048)
    };
    let var2: i64 = if p2 >= 0 {
        p2 / 16384
    } else {
        -((16383 - p2) / 16384)
    };
    assert(var1 == p1 as int / 2048 && var2 == p2 as int / 16384) by (nonlinear_arith)
        requires
            p1 >= 0 ==> var1 == p1 / 2048,
            p1 < 0 ==> var1 == -((2047 - p1) / 2048),
            p2 >= 0 ==> var2 == p2 / 16384,
            p2 < 0 ==> var2 == -((16383 - p2) / 16384),
    ;
    let t_fine: i64 = var1 + var2;
    let scaled: i64 = t_fine * 5 + 128;
    let min: i64 = i32::MIN as i64;
    let max: i64 = i32::MAX as i64;
    if min <= p1 && p1 <= max && min <= sq && sq <= max && min <= p2 && p2 <= max && min <= t_fine
        && t_fine <= max && min <= scaled && scaled <= max {
        Some(compensate_temperature(raw, cal))
    } else {
        None
    }
}

/// The integer and fractional parts that a temperature in hundredths of a
/// degree is shown with: the quotient by 100 rounded towards zero, and the
/// last two digits of its magnitude. (A temperature between -1 and 0
/// degrees therefore shows without its sign.)
pub fn celsius_parts(temp: i32) -> (parts: (i32, u32))
    requires
        temp != i32::MIN,
    ensures
        temp >= 0 ==> parts.0 == temp / 100,
        temp < 0 ==> parts.0 == -((-temp) / 100),
        parts.1 == (if temp < 0 { -temp } else { temp as int }) % 100,
        parts.1 < 100,
        (if temp < 0 { -temp } else { temp as int }) == (if parts.0 < 0 {
            -parts.0
        } else {
            parts.0 as int
        }) * 100 + parts.1,
        parts.0 <= 0 <==> temp < 100,
{
    let magnitude: u32 = if temp < 0 {
        (-temp) as u32
    } else {
        temp as u32
    };
    let whole: i32 = (magnitude / 100) as i32;
    let whole: i32 = if temp < 0 {
        -whole
    } else {
        whole
    };
    (whole, magnitude % 100)
}

/// The formula's intermediate values, and the temperature, written out
/// over the raw reading and the calibration words (each `/` of a power of
/// two rounds towards minus infinity, as an arithmetic right shift does).
pub proof fn lemma_compensation_written_out(raw: int, cal: Calibration)
    ensures
        compensation_fits(raw, cal) <==> ({
        let a = raw / 8 - cal.dig_t1 * 2;
        let p1 = a * cal.dig_t2;
        let d = raw / 16 - cal.dig_t1;
        let sq = d * d;
        let p2 = sq / 4096 * cal.dig_t3;
        let tf = p1 / 2048 + p2 / 16384;
        let sc = tf * 5 + 128;
        &&& -0x8000_0000 <= p1 <= 0x7fff_ffff
        &&& -0x8000_0000 <= sq <= 0x7fff_ffff
        &&& -0x8000_0000 <= p2 <= 0x7fff_ffff
        &&& -0x8000_0000 <= tf <= 0x7fff_ffff
        &&& -0x8000_0000 <= sc <= 0x7fff_ffff
    }),
        compensated_temperature(raw, cal) == ({
        let a = raw / 8 - cal.dig_t1 * 2;
        let d = raw / 16 - cal.dig_t1;
        let tf = (a * cal.dig_t2) / 2048 + (d * d / 4096 * cal.dig_t3) / 16384;
        (tf * 5 + 128) / 256
    }),
{
}

} // verus!

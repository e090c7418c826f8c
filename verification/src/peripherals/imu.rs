//! QMI8658 6-axis IMU (I2C address 0x6B): the configuration written at
//! start-up and the decoding of its little-endian sample registers. Scaling
//! to g and degrees per second is done by the caller.

use vstd::prelude::*;
use crate::peripherals::bus::{RegStep, w};

verus! {

pub const QMI8658_ADDR: u8 = 0x6B;
pub const REG_WHO_AM_I: u8 = 0x00;
/// Serial interface and sensor enable.
pub const REG_CTRL1: u8 = 0x02;
/// Accelerometer range and rate.
pub const REG_CTRL2: u8 = 0x03;
/// Gyroscope range and rate.
pub const REG_CTRL3: u8 = 0x04;
/// Low-pass filters.
pub const REG_CTRL5: u8 = 0x06;
/// Sensor enables.
pub const REG_CTRL7: u8 = 0x08;
/// First accelerometer sample register (X low byte).
pub const REG_AX_L: u8 = 0x35;
/// First gyroscope sample register (X low byte).
pub const REG_GX_L: u8 = 0x3B;
/// Temperature low byte.
pub const REG_TEMP_L: u8 = 0x33;
/// Chip identifier of a QMI8658.
pub const QMI8658_WHO_AM_I: u8 = 0x05;

/// Start-up writes: soft reset, address auto-increment, accelerometer at
/// 119 Hz ±8 g, gyroscope at 119 Hz ±512 dps, low-pass filters, both sensors on.
pub open spec fn init_writes() -> Seq<RegStep> {
    seq![
        w(REG_CTRL1, 0x40),
        w(REG_CTRL1, 0x60),
        w(REG_CTRL2, 0x25),
        w(REG_CTRL3, 0x35),
        w(REG_CTRL5, 0x11),
        w(REG_CTRL7, 0x03),
    ]
}

/// The start-up script for a chip that answered `chip_id`: `None` (not a
/// QMI8658, nothing written) unless the identifier matches.
pub fn init_steps(chip_id: u8) -> (r: Option<Vec<RegStep>>)
    ensures
        chip_id != QMI8658_WHO_AM_I ==> r is None,
        chip_id == QMI8658_WHO_AM_I ==> (r matches Some(v) && v@ == init_writes()),
{
    if chip_id != QMI8658_WHO_AM_I {
        return None;
    }
    let mut v: Vec<RegStep> = Vec::new();
    v.push(RegStep::Write { reg: REG_CTRL1, val: 0x40 });
    v.push(RegStep::Write { reg: REG_CTRL1, val: 0x60 });
    v.push(RegStep::Write { reg: REG_CTRL2, val: 0x25 });
    v.push(RegStep::Write { reg: REG_CTRL3, val: 0x35 });
    v.push(RegStep::Write { reg: REG_CTRL5, val: 0x11 });
    v.push(RegStep::Write { reg: REG_CTRL7, val: 0x03 });
    assert(v@ =~= init_writes());
    Some(v)
}

/// Both sensors off.
pub fn power_down_step() -> (s: RegStep)
    ensures
        s == w(REG_CTRL7, 0x00),
{
    RegStep::Write { reg: REG_CTRL7, val: 0x00 }
}

/// Both sensors on.
pub fn power_up_step() -> (s: RegStep)
    ensures
        s == w(REG_CTRL7, 0x03),
{
    RegStep::Write { reg: REG_CTRL7, val: 0x03 }
}

/// The signed 16-bit value of a little-endian byte pair (two's complement).
pub open spec fn le_i16(lo: u8, hi: u8) -> int {
    if hi < 128 {
        hi * 256 + lo
    } else {
        hi * 256 + lo - 65536
    }
}

/// Decodes a little-endian signed 16-bit register pair.
pub fn i16_from_le(lo: u8, hi: u8) -> (v: i16)
    ensures
        v == le_i16(lo, hi),
{
    if hi < 128 {
        (hi as i16) * 256 + lo as i16
    } else {
        ((hi as i32) * 256 + lo as i32 - 65536) as i16
    }
}

/// The three axes of a 6-byte sample block (X, Y, Z, each low byte first).
pub fn decode_axes(buf: &[u8; 6]) -> (r: [i16; 3])
    ensures
        r@ == seq![
            le_i16(buf@[0], buf@[1]) as i16,
            le_i16(buf@[2], buf@[3]) as i16,
            le_i16(buf@[4], buf@[5]) as i16,
        ],
{
    let r: [i16; 3] = [i16_from_le(buf[0], buf[1]), i16_from_le(buf[2], buf[3]), i16_from_le(buf[4], buf[5])];
    assert(r@ =~= seq![
        le_i16(buf@[0], buf@[1]) as i16,
        le_i16(buf@[2], buf@[3]) as i16,
        le_i16(buf@[4], buf@[5]) as i16,
    ]);
    r
}

/// The raw temperature (1/256 °C) of the 2-byte temperature block.
pub fn decode_temperature(buf: &[u8; 2]) -> (t: i16)
    ensures
        t == le_i16(buf@[0], buf@[1]),
{
    i16_from_le(buf[0], buf[1])
}

} // verus!

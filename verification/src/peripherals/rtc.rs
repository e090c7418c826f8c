//! PCF85063A real-time clock: BCD time registers at I2C address 0x51.
//!
//! The bus transfers are made by the caller; this module decides what to
//! write and decodes what was read.

use vstd::prelude::*;
use crate::peripherals::bus::{RegStep, w};

verus! {

pub const PCF85063A_ADDR: u8 = 0x51;
pub const REG_CTRL1: u8 = 0x00;
pub const REG_CTRL2: u8 = 0x01;
pub const REG_SECONDS: u8 = 0x04;
pub const REG_MINUTES: u8 = 0x05;
pub const REG_HOURS: u8 = 0x06;
pub const REG_DAYS: u8 = 0x07;
pub const REG_WEEKDAYS: u8 = 0x08;
pub const REG_MONTHS: u8 = 0x09;
pub const REG_YEARS: u8 = 0x0A;

/// Calendar date and time; `year` counts from 2000.
#[derive(Debug, Clone, Copy, PartialEq, Eq)]
pub struct DateTime {
    pub seconds: u8,
    pub minutes: u8,
    pub hours: u8,
    pub day: u8,
    pub weekday: u8,
    pub month: u8,
    pub year: u8,
}

impl DateTime {
    pub fn new(year: u8, month: u8, day: u8, hours: u8, minutes: u8, seconds: u8) -> (r: Self)
        ensures
            r == (DateTime { seconds, minutes, hours, day, weekday: 0, month, year }),
    {
        DateTime { seconds, minutes, hours, day, weekday: 0, month, year }
    }

    /// Every field within the range that the clock registers can hold.
    pub open spec fn is_valid(&self) -> bool {
        &&& self.seconds < 60
        &&& self.minutes < 60
        &&& self.hours < 24
        &&& 1 <= self.day <= 31
        &&& self.weekday < 7
        &&& 1 <= self.month <= 12
        &&& self.year < 100
    }
}

pub open spec fn spec_bcd_to_dec(bcd: u8) -> u8 {
    ((bcd >> 4u8) * 10 + (bcd & 0x0F)) as u8
}

pub open spec fn spec_dec_to_bcd(dec: u8) -> u8 {
    (((dec / 10) as u8) << 4u8) | ((dec % 10) as u8)
}

/// Packed BCD byte to its decimal value (high nibble tens, low nibble units).
pub fn bcd_to_dec(bcd: u8) -> (r: u8)
    ensures
        r == spec_bcd_to_dec(bcd),
        r == (bcd as int / 16) * 10 + bcd as int % 16,
{
    assert((bcd >> 4u8) == bcd / 16 && (bcd & 0x0F) == bcd % 16) by (bit_vector);
    (bcd >> 4) * 10 + (bcd & 0x0F)
}

/// Decimal value to packed BCD; tens above 15 lose their high bits.
pub fn dec_to_bcd(dec: u8) -> (r: u8)
    ensures
        r == spec_dec_to_bcd(dec),
{
    ((dec / 10) << 4) | (dec % 10)
}

/// BCD encoding followed by decoding gives back every value below 100.
pub proof fn lemma_bcd_round_trip(dec: u8)
    requires
        dec < 100,
    ensures
        spec_bcd_to_dec(spec_dec_to_bcd(dec)) == dec,
        spec_dec_to_bcd(dec) < 0xA0,
{
    let t = (dec / 10) as u8;
    let u = (dec % 10) as u8;
    assert(t < 10 && u < 10);
    assert(((t << 4u8) | u) >> 4u8 == t && ((t << 4u8) | u) & 0x0F == u && ((t << 4u8) | u) < 0xA0)
        by (bit_vector)
        requires
            t < 10,
            u < 10,
    ;
}

/// The seven time registers from 0x04 upwards, decoded.
pub open spec fn spec_decode_time(b: Seq<u8>) -> DateTime {
    DateTime {
        seconds: spec_bcd_to_dec(b[0] & 0x7F),
        minutes: spec_bcd_to_dec(b[1] & 0x7F),
        hours: spec_bcd_to_dec(b[2] & 0x3F),
        day: spec_bcd_to_dec(b[3] & 0x3F),
        weekday: b[4] & 0x07,
        month: spec_bcd_to_dec(b[5] & 0x1F),
        year: spec_bcd_to_dec(b[6]),
    }
}

/// The script that sets the clock, given the control register value read first:
/// stop the oscillator, write the seven time registers, restart it.
pub open spec fn spec_set_time_steps(ctrl1: u8, dt: DateTime) -> Seq<RegStep> {
    seq![
        w(REG_CTRL1, ctrl1 | 0x20),
        w(REG_SECONDS, spec_dec_to_bcd(dt.seconds)),
        w(REG_MINUTES, spec_dec_to_bcd(dt.minutes)),
        w(REG_HOURS, spec_dec_to_bcd(dt.hours)),
        w(REG_DAYS, spec_dec_to_bcd(dt.day)),
        w(REG_WEEKDAYS, dt.weekday),
        w(REG_MONTHS, spec_dec_to_bcd(dt.month)),
        w(REG_YEARS, spec_dec_to_bcd(dt.year)),
        w(REG_CTRL1, ctrl1 & !0x20u8),
    ]
}

/// The value a write step puts in its register.
pub open spec fn written_value(s: RegStep) -> u8 {
    match s {
        RegStep::Write { val, .. } => val,
        RegStep::Update { set, .. } => set,
    }
}

/// PCF85063A driver state (the clock keeps all of its state in its registers).
pub struct Pcf85063aRtc {}

impl Pcf85063aRtc {
    pub fn new() -> (r: Self) {
        Pcf85063aRtc {  }
    }

    /// Start-up check of control register 1 (value `ctrl1` just read):
    /// the STOP bit (5) and the 12-hour bit (2) must be clear. Returns the value
    /// to write back, or `None` when the register is already right.
    pub fn init(&self, ctrl1: u8) -> (r: Option<u8>)
        ensures
            (ctrl1 & !0x24u8) == ctrl1 ==> r is None,
            (ctrl1 & !0x24u8) != ctrl1 ==> r == Some(ctrl1 & !0x24u8),
    {
        let new_ctrl1 = ctrl1 & !(0x20 | 0x04);
        assert(!(0x20u8 | 0x04u8) == !0x24u8) by (bit_vector);
        if new_ctrl1 != ctrl1 {
            Some(new_ctrl1)
        } else {
            None
        }
    }

    /// Decodes the burst read of the seven time registers starting at 0x04.
    pub fn get_time(&self, buf: &[u8; 7]) -> (r: DateTime)
        ensures
            r == spec_decode_time(buf@),
    {
        DateTime {
            seconds: bcd_to_dec(buf[0] & 0x7F),
            minutes: bcd_to_dec(buf[1] & 0x7F),
            hours: bcd_to_dec(buf[2] & 0x3F),
            day: bcd_to_dec(buf[3] & 0x3F),
            weekday: buf[4] & 0x07,
            month: bcd_to_dec(buf[5] & 0x1F),
            year: bcd_to_dec(buf[6]),
        }
    }

    /// The writes that set the clock to `dt`, given control register 1 as read.
    pub fn set_time(&self, ctrl1: u8, dt: &DateTime) -> (r: Vec<RegStep>)
        ensures
            r@ == spec_set_time_steps(ctrl1, *dt),
    {
        let mut v: Vec<RegStep> = Vec::new();
        v.push(RegStep::Write { reg: REG_CTRL1, val: ctrl1 | 0x20 });
        v.push(RegStep::Write { reg: REG_SECONDS, val: dec_to_bcd(dt.seconds) });
        v.push(RegStep::Write { reg: REG_MINUTES, val: dec_to_bcd(dt.minutes) });
        v.push(RegStep::Write { reg: REG_HOURS, val: dec_to_bcd(dt.hours) });
        v.push(RegStep::Write { reg: REG_DAYS, val: dec_to_bcd(dt.day) });
        v.push(RegStep::Write { reg: REG_WEEKDAYS, val: dt.weekday });
        v.push(RegStep::Write { reg: REG_MONTHS, val: dec_to_bcd(dt.month) });
        v.push(RegStep::Write { reg: REG_YEARS, val: dec_to_bcd(dt.year) });
        v.push(RegStep::Write { reg: REG_CTRL1, val: ctrl1 & !0x20 });
        assert(v@ =~= spec_set_time_steps(ctrl1, *dt));
        v
    }
}

/// Setting the clock and reading it back gives the same time: the values
/// written to registers 0x04..0x0A by `set_time` decode to `dt`.
pub proof fn lemma_set_then_get(ctrl1: u8, dt: DateTime)
    requires
        dt.is_valid(),
    ensures
        ({
            let s = spec_set_time_steps(ctrl1, dt);
            spec_decode_time(Seq::new(7, |i: int| written_value(s[i + 1]))) == dt
        }),
{
    lemma_bcd_round_trip(dt.seconds);
    lemma_bcd_round_trip(dt.minutes);
    lemma_bcd_round_trip(dt.hours);
    lemma_bcd_round_trip(dt.day);
    lemma_bcd_round_trip(dt.month);
    lemma_bcd_round_trip(dt.year);
    let s = dt.seconds;
    let m = dt.minutes;
    let h = dt.hours;
    let d = dt.day;
    let wd = dt.weekday;
    let mo = dt.month;
    let bs = spec_dec_to_bcd(s);
    let bm = spec_dec_to_bcd(m);
    let bh = spec_dec_to_bcd(h);
    let bd = spec_dec_to_bcd(d);
    let bmo = spec_dec_to_bcd(mo);
    assert(bs & 0x7F == bs && bm & 0x7F == bm) by (bit_vector)
        requires
            bs == spec_dec_to_bcd(s),
            s < 60,
            bm == spec_dec_to_bcd(m),
            m < 60,
    ;
    assert(bh & 0x3F == bh && bd & 0x3F == bd && bmo & 0x1F == bmo && wd & 0x07 == wd)
        by (bit_vector)
        requires
            bh == spec_dec_to_bcd(h),
            h < 24,
            bd == spec_dec_to_bcd(d),
            d < 32,
            bmo == spec_dec_to_bcd(mo),
            mo < 13,
            wd < 7,
    ;
}

} // verus!

//! AXP2101 power management IC (I2C address 0x34): rail and ADC set-up
//! script, and decoding of the voltage and status registers.

use vstd::prelude::*;
use crate::peripherals::bus::{RegStep, w};

verus! {

pub const AXP2101_ADDR: u8 = 0x34;
pub const REG_STATUS1: u8 = 0x00;
pub const REG_STATUS2: u8 = 0x01;
pub const REG_IC_TYPE: u8 = 0x03;
pub const REG_VBAT_H: u8 = 0x34;
pub const REG_VBAT_L: u8 = 0x35;
pub const REG_TS_H: u8 = 0x36;
pub const REG_TS_L: u8 = 0x37;
pub const REG_VBUS_H: u8 = 0x38;
pub const REG_VBUS_L: u8 = 0x39;
pub const REG_VSYS_H: u8 = 0x3A;
pub const REG_VSYS_L: u8 = 0x3B;
pub const REG_DC_ONOFF: u8 = 0x80;
pub const REG_DC_VOL0: u8 = 0x82;
pub const REG_LDO_ONOFF0: u8 = 0x90;
pub const REG_LDO_VOL0: u8 = 0x92;
pub const REG_ADC_ENABLE: u8 = 0x30;
pub const REG_IRQ_ENABLE0: u8 = 0x40;
pub const REG_IRQ_ENABLE1: u8 = 0x41;
pub const REG_IRQ_ENABLE2: u8 = 0x42;
pub const REG_IRQ_STATUS0: u8 = 0x48;
pub const REG_IRQ_STATUS1: u8 = 0x49;
pub const REG_IRQ_STATUS2: u8 = 0x4A;
pub const REG_BAT_PERCENT: u8 = 0xA4;
pub const REG_CHG_STATUS: u8 = 0x01;

/// DCDC1 at 3.3 V and enabled, ALDO1 at 3.3 V and enabled (both enables keep the register's other bits), every interrupt disabled and cleared, ADC on for VBAT, VBUS, VSYS and die temperature. A failed read stops the script.
pub open spec fn axp2101_init_steps() -> Seq<RegStep> {
    seq![
        w(0x82, 0x12),
        RegStep::Update { reg: 0x80, keep: 0xFF, set: 0x01, read_fallback: None },
        w(0x92, 0x1C),
        RegStep::Update { reg: 0x90, keep: 0xFF, set: 0x01, read_fallback: None },
        w(0x40, 0x00),
        w(0x41, 0x00),
        w(0x42, 0x00),
        w(0x48, 0xFF),
        w(0x49, 0xFF),
        w(0x4A, 0xFF),
        w(0x30, 0x1D),
    ]
}

/// A 14-bit ADC value from its high and low register bytes.
pub open spec fn adc14(high: u8, low: u8) -> u16 {
    ((((high as u16) << 8u16) | (low as u16)) & 0x3FFFu16) as u16
}

/// AXP2101 driver (the chip keeps all state in its registers).
pub struct Axp2101Power {}

impl Axp2101Power {
    pub fn new() -> (p: Self) {
        Axp2101Power {  }
    }

    /// Power rails, interrupts and ADC set-up.
    pub fn init(&self) -> (v: Vec<RegStep>)
        ensures
            v@ == axp2101_init_steps(),
    {
        let mut v: Vec<RegStep> = Vec::new();
        v.push(RegStep::Write { reg: 0x82, val: 0x12 });
        v.push(RegStep::Update { reg: 0x80, keep: 0xFF, set: 0x01, read_fallback: None });
        v.push(RegStep::Write { reg: 0x92, val: 0x1C });
        v.push(RegStep::Update { reg: 0x90, keep: 0xFF, set: 0x01, read_fallback: None });
        v.push(RegStep::Write { reg: 0x40, val: 0x00 });
        v.push(RegStep::Write { reg: 0x41, val: 0x00 });
        v.push(RegStep::Write { reg: 0x42, val: 0x00 });
        v.push(RegStep::Write { reg: 0x48, val: 0xFF });
        v.push(RegStep::Write { reg: 0x49, val: 0xFF });
        v.push(RegStep::Write { reg: 0x4A, val: 0xFF });
        v.push(RegStep::Write { reg: 0x30, val: 0x1D });
        assert(v@ =~= axp2101_init_steps());
        v
    }

    fn adc_value(high: u8, low: u8) -> (r: u16)
        ensures
            r == adc14(high, low),
            r <= 0x3FFF,
    {
        let r = (((high as u16) << 8) | low as u16) & 0x3FFF;
        assert(r <= 0x3FFF) by (bit_vector)
            requires
                r == (((high as u16) << 8u16) | (low as u16)) & 0x3FFFu16,
        ;
        r
    }

    /// Battery voltage in mV from registers 0x34/0x35.
    pub fn get_battery_voltage(&self, high: u8, low: u8) -> (mv: u16)
        ensures
            mv == adc14(high, low),
    {
        Self::adc_value(high, low)
    }

    /// VBUS voltage in mV from registers 0x38/0x39.
    pub fn get_vbus_voltage(&self, high: u8, low: u8) -> (mv: u16)
        ensures
            mv == adc14(high, low),
    {
        Self::adc_value(high, low)
    }

    /// System voltage in mV from registers 0x3A/0x3B.
    pub fn get_system_voltage(&self, high: u8, low: u8) -> (mv: u16)
        ensures
            mv == adc14(high, low),
    {
        Self::adc_value(high, low)
    }

    /// Charging when the charger status (bits 7..5 of the status register) is 1, 2 or 3.
    pub fn is_charging(&self, status: u8) -> (b: bool)
        ensures
            b == (1 <= status / 32 <= 3),
    {
        let chg = (status >> 5) & 0x07;
        assert(chg == status / 32) by (bit_vector)
            requires
                chg == (status >> 5u8) & 0x07u8,
        ;
        chg >= 1 && chg <= 3
    }

    /// USB power present: bit 5 of status register 1.
    pub fn is_vbus_in(&self, status: u8) -> (b: bool)
        ensures
            b == ((status / 32) % 2 == 1),
    {
        let r = status & 0x20 != 0;
        assert((status & 0x20 != 0) == ((status / 32) % 2 == 1)) by (bit_vector);
        r
    }

    /// Keeps the ADC on VBAT, VBUS and VSYS only (TS and die temperature off).
    pub fn trim_adc_channels(&self) -> (v: Vec<RegStep>)
        ensures
            v@ == seq![w(REG_ADC_ENABLE, 0x0D)],
    {
        let mut v: Vec<RegStep> = Vec::new();
        v.push(RegStep::Write { reg: REG_ADC_ENABLE, val: 0x0D });
        assert(v@ =~= seq![w(REG_ADC_ENABLE, 0x0D)]);
        v
    }
}

} // verus!

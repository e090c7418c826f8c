//! TCA9554 8-bit I/O expander (I2C address 0x20): output and direction
//! registers kept in step with a local copy.

use vstd::prelude::*;
use crate::peripherals::bus::{RegStep, w};

verus! {

pub const REG_OUTPUT: u8 = 0x01;
pub const REG_CONFIG: u8 = 0x03;

/// Local copy of the expander's direction (1 = input) and output registers.
pub struct Tca9554 {
    pub config: u8,
    pub output: u8,
}

/// Error of a pin driven through the expander: the bus error.
#[derive(Debug)]
pub enum Tca9554PinError<E> {
    I2c(E),
}

impl Tca9554 {
    /// All pins inputs, all outputs low.
    pub fn new() -> (t: Self)
        ensures
            t.config == 0xFF && t.output == 0x00,
    {
        Tca9554 { config: 0xFF, output: 0x00 }
    }

    /// Writes the local copy to the device: outputs first, then directions.
    pub fn init(&self) -> (v: Vec<RegStep>)
        ensures
            v@ == seq![w(REG_OUTPUT, self.output), w(REG_CONFIG, self.config)],
    {
        let mut v: Vec<RegStep> = Vec::new();
        v.push(RegStep::Write { reg: REG_OUTPUT, val: self.output });
        v.push(RegStep::Write { reg: REG_CONFIG, val: self.config });
        assert(v@ =~= seq![w(REG_OUTPUT, self.output), w(REG_CONFIG, self.config)]);
        v
    }

    /// Makes `pin` an output driven high or low; returns the writes that apply it.
    pub fn set_output(&mut self, pin: u8, high: bool) -> (v: Vec<RegStep>)
        requires
            pin < 8,
        ensures
            final(self).config == old(self).config & !((1u8 << pin) as u8),
            final(self).output == if high {
                old(self).output | ((1u8 << pin) as u8)
            } else {
                old(self).output & !((1u8 << pin) as u8)
            },
            v@ == seq![w(REG_OUTPUT, final(self).output), w(REG_CONFIG, final(self).config)],
    {
        let mask: u8 = 1u8 << pin;
        self.config = self.config & !mask;
        if high {
            self.output = self.output | mask;
        } else {
            self.output = self.output & !mask;
        }
        self.init()
    }
}

/// Bit `pin` of a register value.
pub open spec fn bit(v: u8, pin: u8) -> bool {
    (v >> pin) & 1 == 1
}

/// Setting one pin changes only that pin: it becomes an output at the requested
/// level, and every other pin keeps its direction and level.
pub proof fn lemma_set_output_only_touches_pin(config: u8, output: u8, pin: u8, high: bool, other: u8)
    requires
        pin < 8,
        other < 8,
        other != pin,
    ensures
        !bit(config & !((1u8 << pin) as u8), pin),
        bit(if high { output | ((1u8 << pin) as u8) } else { output & !((1u8 << pin) as u8) }, pin) == high,
        bit(config & !((1u8 << pin) as u8), other) == bit(config, other),
        bit(if high { output | ((1u8 << pin) as u8) } else { output & !((1u8 << pin) as u8) }, other) == bit(output, other),
{
    assert(((config & !(1u8 << pin)) >> pin) & 1 != 1) by (bit_vector)
        requires
            pin < 8,
    ;
    assert((((output | (1u8 << pin)) >> pin) & 1 == 1) && (((output & !(1u8 << pin)) >> pin) & 1 != 1))
        by (bit_vector)
        requires
            pin < 8,
    ;
    assert((((config & !(1u8 << pin)) >> other) & 1) == ((config >> other) & 1)) by (bit_vector)
        requires
            pin < 8,
            other < 8,
            other != pin,
    ;
    assert((((output | (1u8 << pin)) >> other) & 1) == ((output >> other) & 1) && (((output & !(1u8
        << pin)) >> other) & 1) == ((output >> other) & 1)) by (bit_vector)
        requires
            pin < 8,
            other < 8,
            other != pin,
    ;
}

} // verus!

//! Register transactions that the drivers hand to the I2C layer.
//!
//! A driver operation is described as a script of [`RegStep`]s; the caller
//! runs the script on the device's bus address, in order, and stops at the
//! first transfer that fails.

use vstd::prelude::*;

verus! {

/// One register transaction.
#[derive(Clone, Copy, Debug, PartialEq, Eq)]
pub enum RegStep {
    /// Write `val` into register `reg`.
    Write { reg: u8, val: u8 },
    /// Read register `reg`, then write back `(read & keep) | set`.
    /// When the read fails, `read_fallback` decides: `Some(v)` carries on as if
    /// `v` had been read, `None` stops the script with the bus error.
    Update { reg: u8, keep: u8, set: u8, read_fallback: Option<u8> },
}

/// The value an [`RegStep::Update`] writes back after reading `read`.
pub open spec fn spec_updated(read: u8, keep: u8, set: u8) -> u8 {
    (read & keep) | set
}

impl RegStep {
    /// The value written back by an update step whose read returned `read`.
    pub fn updated_value(read: u8, keep: u8, set: u8) -> (r: u8)
        ensures
            r == spec_updated(read, keep, set),
    {
        (read & keep) | set
    }
}

/// The register write a step makes, given what its read returned (`None`: the
/// read failed; a plain write reads nothing). `None` when the failed read
/// stops the script.
pub open spec fn spec_step_write(step: RegStep, read: Option<u8>) -> Option<(u8, u8)> {
    match step {
        RegStep::Write { reg, val } => Some((reg, val)),
        RegStep::Update { reg, keep, set, read_fallback } => match read {
            Some(v) => Some((reg, spec_updated(v, keep, set))),
            None => match read_fallback {
                Some(f) => Some((reg, spec_updated(f, keep, set))),
                None => None,
            },
        },
    }
}

/// The register write of `step` after its read (see [`spec_step_write`]).
pub fn step_write(step: RegStep, read: Option<u8>) -> (r: Option<(u8, u8)>)
    ensures
        r == spec_step_write(step, read),
{
    match step {
        RegStep::Write { reg, val } => Some((reg, val)),
        RegStep::Update { reg, keep, set, read_fallback } => match read {
            Some(v) => Some((reg, RegStep::updated_value(v, keep, set))),
            None => match read_fallback {
                Some(f) => Some((reg, RegStep::updated_value(f, keep, set))),
                None => None,
            },
        },
    }
}

/// A plain register write, as a step.
pub open spec fn w(reg: u8, val: u8) -> RegStep {
    RegStep::Write { reg, val }
}

} // verus!

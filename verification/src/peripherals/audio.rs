//! ES8311 audio codec: register scripts for 16 kHz 16-bit I2S playback,
//! and a square-wave beep generator.

use vstd::prelude::*;
use crate::peripherals::bus::{RegStep, w};

verus! {

pub const ES8311_ADDR: u8 = 0x18;

/// Reset, clocks from MCLK for 16 kHz (pre-divider 2, BCLK divider 4, LRCK 0x00FF), 16-bit I2S on both ports, analog and DAC power-up, volume 0xD9 (85 %). Reads of registers 2, 6 and 7 that fail count as 0.
pub open spec fn es8311_init_steps() -> Seq<RegStep> {
    seq![
        w(0x00, 0x1F),
        w(0x00, 0x00),
        w(0x00, 0x80),
        w(0x01, 0x3F),
        RegStep::Update { reg: 0x02, keep: 0x07, set: 0x20, read_fallback: Some(0) },
        w(0x03, 0x10),
        w(0x04, 0x10),
        w(0x05, 0x00),
        RegStep::Update { reg: 0x06, keep: 0xE0, set: 0x03, read_fallback: Some(0) },
        RegStep::Update { reg: 0x07, keep: 0xC0, set: 0x00, read_fallback: Some(0) },
        w(0x08, 0xFF),
        w(0x09, 0x0C),
        w(0x0A, 0x0C),
        w(0x0D, 0x01),
        w(0x0E, 0x02),
        w(0x12, 0x00),
        w(0x13, 0x10),
        w(0x1C, 0x6A),
        w(0x37, 0x08),
        w(0x32, 0xD9),
    ]
}

/// DAC powered down (bit 5 of register 0x12), headphone driver off, volume 0.
pub open spec fn es8311_mute_steps() -> Seq<RegStep> {
    seq![
        w(0x12, 0x20),
        w(0x13, 0x00),
        w(0x32, 0x00),
    ]
}

/// Analog, DAC and headphone driver back on, volume 0xD0.
pub open spec fn es8311_unmute_steps() -> Seq<RegStep> {
    seq![
        w(0x0D, 0x01),
        w(0x0E, 0x02),
        w(0x12, 0x00),
        w(0x13, 0x10),
        w(0x32, 0xD0),
    ]
}

/// Volume 0, every analog block powered down.
pub open spec fn es8311_shutdown_steps() -> Seq<RegStep> {
    seq![
        w(0x32, 0x00),
        w(0x13, 0x00),
        w(0x12, 0x20),
        w(0x0E, 0xFF),
        w(0x0D, 0xFC),
    ]
}

/// ES8311 driver state.
pub struct Es8311 {
    pub initialized: bool,
}

impl Es8311 {
    pub fn new() -> (c: Self)
        ensures
            !c.initialized,
    {
        Es8311 { initialized: false }
    }

    /// The initialization script; run it, then call [`Es8311::set_initialized`] if it completed.
    pub fn init(&self) -> (v: Vec<RegStep>)
        ensures
            v@ == es8311_init_steps(),
    {
        let mut v: Vec<RegStep> = Vec::new();
        v.push(RegStep::Write { reg: 0x00, val: 0x1F });
        v.push(RegStep::Write { reg: 0x00, val: 0x00 });
        v.push(RegStep::Write { reg: 0x00, val: 0x80 });
        v.push(RegStep::Write { reg: 0x01, val: 0x3F });
        v.push(RegStep::Update { reg: 0x02, keep: 0x07, set: 0x20, read_fallback: Some(0) });
        v.push(RegStep::Write { reg: 0x03, val: 0x10 });
        v.push(RegStep::Write { reg: 0x04, val: 0x10 });
        v.push(RegStep::Write { reg: 0x05, val: 0x00 });
        v.push(RegStep::Update { reg: 0x06, keep: 0xE0, set: 0x03, read_fallback: Some(0) });
        v.push(RegStep::Update { reg: 0x07, keep: 0xC0, set: 0x00, read_fallback: Some(0) });
        v.push(RegStep::Write { reg: 0x08, val: 0xFF });
        v.push(RegStep::Write { reg: 0x09, val: 0x0C });
        v.push(RegStep::Write { reg: 0x0A, val: 0x0C });
        v.push(RegStep::Write { reg: 0x0D, val: 0x01 });
        v.push(RegStep::Write { reg: 0x0E, val: 0x02 });
        v.push(RegStep::Write { reg: 0x12, val: 0x00 });
        v.push(RegStep::Write { reg: 0x13, val: 0x10 });
        v.push(RegStep::Write { reg: 0x1C, val: 0x6A });
        v.push(RegStep::Write { reg: 0x37, val: 0x08 });
        v.push(RegStep::Write { reg: 0x32, val: 0xD9 });
        assert(v@ =~= es8311_init_steps());
        v
    }

    /// Records that the initialization script completed.
    pub fn set_initialized(&mut self)
        ensures
            final(self).initialized,
    {
        self.initialized = true;
    }

    /// Output volume register.
    pub fn set_volume(&self, vol: u8) -> (v: Vec<RegStep>)
        ensures
            v@ == seq![w(0x32, vol)],
    {
        let mut v: Vec<RegStep> = Vec::new();
        v.push(RegStep::Write { reg: 0x32, val: vol });
        assert(v@ =~= seq![w(0x32, vol)]);
        v
    }

    pub fn mute(&self) -> (v: Vec<RegStep>)
        ensures
            v@ == es8311_mute_steps(),
    {
        let mut v: Vec<RegStep> = Vec::new();
        v.push(RegStep::Write { reg: 0x12, val: 0x20 });
        v.push(RegStep::Write { reg: 0x13, val: 0x00 });
        v.push(RegStep::Write { reg: 0x32, val: 0x00 });
        assert(v@ =~= es8311_mute_steps());
        v
    }

    pub fn unmute(&self) -> (v: Vec<RegStep>)
        ensures
            v@ == es8311_unmute_steps(),
    {
        let mut v: Vec<RegStep> = Vec::new();
        v.push(RegStep::Write { reg: 0x0D, val: 0x01 });
        v.push(RegStep::Write { reg: 0x0E, val: 0x02 });
        v.push(RegStep::Write { reg: 0x12, val: 0x00 });
        v.push(RegStep::Write { reg: 0x13, val: 0x10 });
        v.push(RegStep::Write { reg: 0x32, val: 0xD0 });
        assert(v@ =~= es8311_unmute_steps());
        v
    }

    pub fn shutdown(&self) -> (v: Vec<RegStep>)
        ensures
            v@ == es8311_shutdown_steps(),
    {
        let mut v: Vec<RegStep> = Vec::new();
        v.push(RegStep::Write { reg: 0x32, val: 0x00 });
        v.push(RegStep::Write { reg: 0x13, val: 0x00 });
        v.push(RegStep::Write { reg: 0x12, val: 0x20 });
        v.push(RegStep::Write { reg: 0x0E, val: 0xFF });
        v.push(RegStep::Write { reg: 0x0D, val: 0xFC });
        assert(v@ =~= es8311_shutdown_steps());
        v
    }

    pub fn is_initialized(&self) -> (b: bool)
        ensures
            b == self.initialized,
    {
        self.initialized
    }
}

/// Little-endian bytes of the beep's high (+10000) and low (-10000) samples.
pub open spec fn sample_byte(high: bool, k: int) -> u8 {
    if high {
        if k % 2 == 0 {
            0x10
        } else {
            0x27
        }
    } else {
        if k % 2 == 0 {
            0xF0
        } else {
            0xD8
        }
    }
}

/// Samples in the beep, and the square wave's period in samples.
pub open spec fn beep_samples(sample_rate: u32, duration_ms: u32) -> int {
    (sample_rate * duration_ms) / 1000
}

pub open spec fn beep_period(freq_hz: u32, sample_rate: u32) -> int {
    if freq_hz > 0 {
        (sample_rate / freq_hz) as int
    } else {
        1
    }
}

/// Fills `buf` with a stereo 16-bit little-endian square wave (amplitude
/// 10000) of `freq_hz` at `sample_rate`, lasting `duration_ms` or until the
/// buffer is full. Returns the number of bytes written (4 per sample).
pub fn fill_beep_buffer(buf: &mut [u8], freq_hz: u32, sample_rate: u32, duration_ms: u32) -> (n: usize)
    requires
        sample_rate * duration_ms <= u32::MAX,
        beep_samples(sample_rate, duration_ms) > 0 && old(buf)@.len() >= 4 ==> beep_period(freq_hz, sample_rate) > 0,
    ensures
        final(buf)@.len() == old(buf)@.len(),
        n == 4 * (if beep_samples(sample_rate, duration_ms) < old(buf)@.len() / 4 {
            beep_samples(sample_rate, duration_ms)
        } else {
            (old(buf)@.len() / 4) as int
        }),
        forall|j: int| 0 <= j < n ==> #[trigger] final(buf)@[j] == sample_byte(
            (j / 4) % beep_period(freq_hz, sample_rate) < beep_period(freq_hz, sample_rate) / 2,
            j % 4,
        ),
        forall|j: int| n <= j < old(buf)@.len() ==> #[trigger] final(buf)@[j] == old(buf)@[j],
{
    let total: usize = ((sample_rate * duration_ms) / 1000) as usize;
    let period: u32 = if freq_hz > 0 {
        sample_rate / freq_hz
    } else {
        1
    };
    let half = period / 2;
    let mut pos: usize = 0;
    let mut i: usize = 0;
    let ghost len = buf@.len();
    while i < total
        invariant
            i <= total,
            total == beep_samples(sample_rate, duration_ms),
            total <= 0xFFFF_FFFF,
            period == beep_period(freq_hz, sample_rate),
            half == period / 2,
            total > 0 && len >= 4 ==> period > 0,
            pos == 4 * i,
            pos <= len,
            len == buf@.len(),
            len == old(buf)@.len(),
            forall|j: int| 0 <= j < pos ==> #[trigger] buf@[j] == sample_byte(
                (j / 4) % (period as int) < (period as int) / 2,
                j % 4,
            ),
            forall|j: int| pos <= j < len ==> #[trigger] buf@[j] == old(buf)@[j],
        ensures
            pos == 4 * (if total < len / 4 {
                total as int
            } else {
                (len / 4) as int
            }),
            forall|j: int| 0 <= j < pos ==> #[trigger] buf@[j] == sample_byte(
                (j / 4) % (period as int) < (period as int) / 2,
                j % 4,
            ),
            forall|j: int| pos <= j < len ==> #[trigger] buf@[j] == old(buf)@[j],
            len == buf@.len(),
        decreases total - i,
    {
        if buf.len() - pos < 4 {
            break;
        }
        let phase = (i as u32) % period;
        let high = phase < half;
        let (lo, hi): (u8, u8) = if high {
            (0x10, 0x27)
        } else {
            (0xF0, 0xD8)
        };
        buf[pos] = lo;
        buf[pos + 1] = hi;
        buf[pos + 2] = lo;
        buf[pos + 3] = hi;
        assert(high == ((i as int) % (period as int) < (period as int) / 2));
        assert forall|j: int| pos <= j < pos + 4 implies #[trigger] buf@[j] == sample_byte(
            (j / 4) % (period as int) < (period as int) / 2,
            j % 4,
        ) by {
            assert(j / 4 == i as int);
            assert(j % 4 == j - pos);
        }
        pos = pos + 4;
        i = i + 1;
    }
    pos
}

} // verus!

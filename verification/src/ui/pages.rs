//! The swipeable info pages (clock, sensors, system, power) and the text
//! lines they show.

use vstd::prelude::*;
use crate::text::{digit_char, utf8_or, push_all};
use crate::ui::color::BLACK;

verus! {

/// Number of frames of a page transition.
pub const ANIM_STEPS: u16 = 8;

#[derive(Clone, Copy, PartialEq, Eq, Debug, Structural)]
pub enum Page {
    Clock,
    Sensors,
    System,
    Power,
}

/// Position of a page in the cycle.
pub open spec fn page_index(p: Page) -> int {
    match p {
        Page::Clock => 0,
        Page::Sensors => 1,
        Page::System => 2,
        Page::Power => 3,
    }
}

pub open spec fn spec_next(p: Page) -> Page {
    match p {
        Page::Clock => Page::Sensors,
        Page::Sensors => Page::System,
        Page::System => Page::Power,
        Page::Power => Page::Clock,
    }
}

pub open spec fn spec_prev(p: Page) -> Page {
    match p {
        Page::Clock => Page::Power,
        Page::Sensors => Page::Clock,
        Page::System => Page::Sensors,
        Page::Power => Page::System,
    }
}

impl Page {
    /// Number of pages.
    pub fn count() -> (n: usize)
        ensures
            n == 4,
    {
        4
    }

    /// The page to the right, wrapping around.
    pub fn next(self) -> (p: Self)
        ensures
            p == spec_next(self),
            page_index(p) == (page_index(self) + 1) % 4,
    {
        match self {
            Page::Clock => Page::Sensors,
            Page::Sensors => Page::System,
            Page::System => Page::Power,
            Page::Power => Page::Clock,
        }
    }

    /// The page to the left, wrapping around.
    pub fn prev(self) -> (p: Self)
        ensures
            p == spec_prev(self),
            page_index(p) == (page_index(self) + 3) % 4,
    {
        match self {
            Page::Clock => Page::Power,
            Page::Sensors => Page::Clock,
            Page::System => Page::Sensors,
            Page::Power => Page::System,
        }
    }

    /// Background colour: black on every page (AMOLED pixels off).
    pub fn color(self) -> (c: u16)
        ensures
            c == BLACK,
    {
        BLACK
    }

    /// The page's title.
    pub fn name(self) -> (s: &'static str)
        ensures
            s@ == match self {
                Page::Clock => "CLOCK"@,
                Page::Sensors => "SENSORS"@,
                Page::System => "SYSTEM"@,
                Page::Power => "POWER"@,
            },
    {
        match self {
            Page::Clock => "CLOCK",
            Page::Sensors => "SENSORS",
            Page::System => "SYSTEM",
            Page::Power => "POWER",
        }
    }
}

/// Going right then left (or left then right) returns to the same page.
pub proof fn lemma_next_prev_inverse(p: Page)
    ensures
        spec_prev(spec_next(p)) == p,
        spec_next(spec_prev(p)) == p,
{
}

/// Four swipes in one direction come back to the starting page.
pub proof fn lemma_next_cycle(p: Page)
    ensures
        spec_next(spec_next(spec_next(spec_next(p)))) == p,
{
}

/// Absolute value of a 16-bit value, as `i16::unsigned_abs` gives it.
pub open spec fn abs16(v: i16) -> int {
    if v < 0 { -v } else { v as int }
}

/// `L: ±H.TU`: the axis letter, the sign, then the hundredths value with the
/// hundreds as the byte `'0' + (|v| / 100) mod 256`.
pub open spec fn axis_bytes(label: u8, val: i16) -> Seq<u8> {
    let v = abs16(val);
    seq![
        label,
        58u8,
        32u8,
        if val < 0 { 45u8 } else { 43u8 },
        (48 + (v / 100) % 256) as u8,
        46u8,
        digit_char(((v / 10) % 10) as nat),
        digit_char((v % 10) as nat),
    ]
}

/// The hundreds byte of `v` stays within a byte.
pub open spec fn hundreds_fit(v: int) -> bool {
    (v / 100) % 256 <= 207
}

/// One sensor axis line (value in hundredths).
pub fn fmt_axis(label: u8, val: i16) -> (r: [u8; 8])
    requires
        hundreds_fit(abs16(val)),
    ensures
        r@ == axis_bytes(label, val),
{
    let mut buf: [u8; 8] = [0u8; 8];
    buf[0] = label;
    buf[1] = 58u8;
    buf[2] = 32u8;
    if val < 0 {
        buf[3] = 45u8;
    } else {
        buf[3] = 43u8;
    }
    let v: u32 = if val < 0 { (-(val as i32)) as u32 } else { val as u32 };
    let h: u8 = ((v / 100) % 256) as u8;
    buf[4] = 48 + h;
    buf[5] = 46u8;
    buf[6] = 48 + ((v / 10) % 10) as u8;
    buf[7] = 48 + (v % 10) as u8;
    assert(buf@ =~= axis_bytes(label, val));
    buf
}

/// `[-]H T.UC` for a temperature in tenths of a degree, the hundreds as the
/// byte `'0' + (|t| / 100) mod 256`.
pub open spec fn temp_bytes(temp_c10: i16) -> Seq<u8> {
    let v = abs16(temp_c10);
    (if temp_c10 < 0 { seq![45u8] } else { seq![] }) + seq![
        (48 + (v / 100) % 256) as u8,
        digit_char(((v / 10) % 10) as nat),
        46u8,
        digit_char((v % 10) as nat),
        67u8,
    ]
}

/// The temperature line, or `??C` when its bytes are not UTF-8.
pub fn fmt_temp(temp_c10: i16) -> (r: Vec<u8>)
    requires
        hundreds_fit(abs16(temp_c10)),
    ensures
        r@ == if vstd::utf8::valid_utf8(temp_bytes(temp_c10)) { temp_bytes(temp_c10) } else { seq![63u8, 63, 67] },
{
    let mut raw: Vec<u8> = Vec::new();
    if temp_c10 < 0 {
        raw.push(45u8);
    }
    let v: u32 = if temp_c10 < 0 { (-(temp_c10 as i32)) as u32 } else { temp_c10 as u32 };
    let h: u8 = ((v / 100) % 256) as u8;
    raw.push(48 + h);
    raw.push(48 + ((v / 10) % 10) as u8);
    raw.push(46u8);
    raw.push(48 + (v % 10) as u8);
    raw.push(67u8);
    assert(raw@ =~= temp_bytes(temp_c10));
    let fallback: [u8; 3] = [63u8, 63, 67];
    assert(fallback@ =~= seq![63u8, 63, 67]);
    utf8_or(raw, fallback.as_slice())
}

/// `[T]HTUmV`: thousands only from 1000 on.
pub open spec fn mv_bytes(mv: u16) -> Seq<u8> {
    (if mv >= 1000 { seq![digit_char((mv / 1000) as nat)] } else { seq![] }) + seq![
        digit_char(((mv / 100) % 10) as nat),
        digit_char(((mv / 10) % 10) as nat),
        digit_char((mv % 10) as nat),
        109u8,
        86u8,
    ]
}

/// A battery voltage in millivolts.
pub fn fmt_mv(mv: u16) -> (r: Vec<u8>)
    ensures
        r@ == mv_bytes(mv),
{
    let mut out: Vec<u8> = Vec::new();
    if mv >= 1000 {
        out.push(48 + (mv / 1000) as u8);
    }
    out.push(48 + ((mv / 100) % 10) as u8);
    out.push(48 + ((mv / 10) % 10) as u8);
    out.push(48 + (mv % 10) as u8);
    let unit: [u8; 2] = [109u8, 86];
    push_all(&mut out, unit.as_slice());
    assert(out@ =~= mv_bytes(mv));
    out
}

} // verus!

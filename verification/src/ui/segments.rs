//! Seven-segment digits made of filled rectangles, and the layout of the
//! clock lines built from them. The caller fills the rectangles.

use vstd::prelude::*;

verus! {

/// Segment bits of the digits 0-9: bit 0 top, 1 top-right, 2 bottom-right,
/// 3 bottom, 4 bottom-left, 5 top-left, 6 middle.
pub const SEGMENTS: [u8; 10] = [
    0b0111111, 0b0000110, 0b1011011, 0b1001111, 0b1100110,
    0b1101101, 0b1111101, 0b0000111, 0b1111111, 0b1101111,
];

/// A solid rectangle to fill.
#[derive(Clone, Copy, Debug, PartialEq, Eq, Structural)]
pub struct FillRect {
    pub x: i32,
    pub y: i32,
    pub w: i32,
    pub h: i32,
    pub color: u16,
}

pub open spec fn rect(x: int, y: int, w: int, h: int, color: u16) -> FillRect {
    FillRect { x: x as i32, y: y as i32, w: w as i32, h: h as i32, color }
}

pub open spec fn segment_table() -> Seq<u8> {
    seq![0b0111111u8, 0b0000110, 0b1011011, 0b1001111, 0b1100110, 0b1101101, 0b1111101, 0b0000111, 0b1111111, 0b1101111]
}

/// Colour of the segment `bit` of `digit`: lit or background.
pub open spec fn seg_color(digit: u8, bit: u8, color: u16, bg: u16) -> u16 {
    if segment_table()[digit as int] & bit != 0 { color } else { bg }
}

/// Coordinates small enough that no sum below overflows.
pub open spec fn small(v: int) -> bool {
    -1000000 <= v <= 1000000
}

/// A line position well within the coordinate range.
pub open spec fn on_canvas(v: int) -> bool {
    -100000 <= v <= 100000
}

/// The seven segments of `digit` in a `w`x`h` cell at (x, y) with stroke
/// `t`, in the order top, top-right, bottom-right, bottom, bottom-left,
/// top-left, middle; nothing for a value above 9.
pub open spec fn spec_digit_rects(x: int, y: int, digit: u8, w: int, h: int, t: int, color: u16, bg: u16) -> Seq<FillRect> {
    let hh = h / 2;
    if digit > 9 {
        seq![]
    } else {
        seq![
            rect(x + t, y, w - 2 * t, t, seg_color(digit, 0x01, color, bg)),
            rect(x + w - t, y + t, t, hh - t, seg_color(digit, 0x02, color, bg)),
            rect(x + w - t, y + hh + t, t, hh - t, seg_color(digit, 0x04, color, bg)),
            rect(x + t, y + h - t, w - 2 * t, t, seg_color(digit, 0x08, color, bg)),
            rect(x, y + hh + t, t, hh - t, seg_color(digit, 0x10, color, bg)),
            rect(x, y + t, t, hh - t, seg_color(digit, 0x20, color, bg)),
            rect(x + t, y + hh - t / 2, w - 2 * t, t, seg_color(digit, 0x40, color, bg)),
        ]
    }
}

/// The rectangles of one digit.
pub fn digit_rects(x: i32, y: i32, digit: u8, w: i32, h: i32, t: i32, color: u16, bg: u16) -> (r: Vec<FillRect>)
    requires
        small(x as int),
        small(y as int),
        0 <= w <= 10000,
        0 <= h <= 10000,
        0 <= t <= 10000,
    ensures
        r@ == spec_digit_rects(x as int, y as int, digit, w as int, h as int, t as int, color, bg),
{
    let mut out: Vec<FillRect> = Vec::new();
    if digit > 9 {
        assert(out@ =~= spec_digit_rects(x as int, y as int, digit, w as int, h as int, t as int, color, bg));
        return out;
    }
    let seg = SEGMENTS[digit as usize];
    assert(SEGMENTS@ =~= segment_table());
    let hh = h / 2;
    let c1 = if seg & 0x01 != 0 { color } else { bg };
    let c2 = if seg & 0x02 != 0 { color } else { bg };
    let c4 = if seg & 0x04 != 0 { color } else { bg };
    let c8 = if seg & 0x08 != 0 { color } else { bg };
    let c10 = if seg & 0x10 != 0 { color } else { bg };
    let c20 = if seg & 0x20 != 0 { color } else { bg };
    let c40 = if seg & 0x40 != 0 { color } else { bg };
    out.push(FillRect { x: x + t, y, w: w - 2 * t, h: t, color: c1 });
    out.push(FillRect { x: x + w - t, y: y + t, w: t, h: hh - t, color: c2 });
    out.push(FillRect { x: x + w - t, y: y + hh + t, w: t, h: hh - t, color: c4 });
    out.push(FillRect { x: x + t, y: y + h - t, w: w - 2 * t, h: t, color: c8 });
    out.push(FillRect { x, y: y + hh + t, w: t, h: hh - t, color: c10 });
    out.push(FillRect { x, y: y + t, w: t, h: hh - t, color: c20 });
    out.push(FillRect { x: x + t, y: y + hh - t / 2, w: w - 2 * t, h: t, color: c40 });
    assert(out@ =~= spec_digit_rects(x as int, y as int, digit, w as int, h as int, t as int, color, bg));
    out
}

/// The two dots of a colon of height `h` and stroke `t` at column `x`.
pub open spec fn spec_colon_rects(x: int, y: int, h: int, t: int, color: u16) -> Seq<FillRect> {
    seq![rect(x, y + h / 4, t, t, color), rect(x, y + 3 * h / 4 - t, t, t, color)]
}

/// The rectangles of a colon.
pub fn colon_rects(x: i32, y: i32, h: i32, t: i32, color: u16) -> (r: Vec<FillRect>)
    requires
        small(x as int),
        small(y as int),
        0 <= h <= 10000,
        0 <= t <= 10000,
    ensures
        r@ == spec_colon_rects(x as int, y as int, h as int, t as int, color),
{
    let mut out: Vec<FillRect> = Vec::new();
    out.push(FillRect { x, y: y + h / 4, w: t, h: t, color });
    out.push(FillRect { x, y: y + 3 * h / 4 - t, w: t, h: t, color });
    assert(out@ =~= spec_colon_rects(x as int, y as int, h as int, t as int, color));
    out
}

/// `HH:MM:SS` centred on `cx`: 36x64 digits, stroke 6, gaps 6, colons 14 wide.
pub open spec fn spec_time_rects(cx: int, y: int, h: u8, m: u8, s: u8, color: u16, bg: u16) -> Seq<FillRect> {
    let x = cx - 143;
    spec_digit_rects(x, y, h / 10, 36, 64, 6, color, bg)
        + spec_digit_rects(x + 42, y, h % 10, 36, 64, 6, color, bg)
        + spec_colon_rects(x + 88, y, 64, 6, color)
        + spec_digit_rects(x + 104, y, m / 10, 36, 64, 6, color, bg)
        + spec_digit_rects(x + 146, y, m % 10, 36, 64, 6, color, bg)
        + spec_colon_rects(x + 192, y, 64, 6, color)
        + spec_digit_rects(x + 208, y, s / 10, 36, 64, 6, color, bg)
        + spec_digit_rects(x + 250, y, s % 10, 36, 64, 6, color, bg)
}

/// The rectangles of the watch face clock.
pub fn time_rects(cx: i32, y: i32, h: u8, m: u8, s: u8, color: u16, bg: u16) -> (r: Vec<FillRect>)
    requires
        on_canvas(cx as int),
        on_canvas(y as int),
    ensures
        r@ == spec_time_rects(cx as int, y as int, h, m, s, color, bg),
{
    let dw: i32 = 36;
    let dh: i32 = 64;
    let t: i32 = 6;
    let gap: i32 = 6;
    let cw: i32 = 14;
    let total: i32 = 6 * dw + 2 * cw + 7 * gap;
    let mut x = cx - total / 2;
    let mut out = digit_rects(x, y, h / 10, dw, dh, t, color, bg);
    x += dw + gap;
    out.append(&mut digit_rects(x, y, h % 10, dw, dh, t, color, bg));
    x += dw + gap;
    out.append(&mut colon_rects(x + cw / 2 - t / 2, y, dh, t, color));
    x += cw + gap;
    out.append(&mut digit_rects(x, y, m / 10, dw, dh, t, color, bg));
    x += dw + gap;
    out.append(&mut digit_rects(x, y, m % 10, dw, dh, t, color, bg));
    x += dw + gap;
    out.append(&mut colon_rects(x + cw / 2 - t / 2, y, dh, t, color));
    x += cw + gap;
    out.append(&mut digit_rects(x, y, s / 10, dw, dh, t, color, bg));
    x += dw + gap;
    out.append(&mut digit_rects(x, y, s % 10, dw, dh, t, color, bg));
    assert(out@ =~= spec_time_rects(cx as int, y as int, h, m, s, color, bg));
    out
}

/// `HH:MM` centred on `cx` for the always-on display: 56x96 digits, stroke 8,
/// gaps 8, colon 18 wide.
pub open spec fn spec_hhmm_rects(cx: int, y: int, h: u8, m: u8, color: u16, bg: u16) -> Seq<FillRect> {
    let x = cx - 141;
    spec_digit_rects(x, y, h / 10, 56, 96, 8, color, bg)
        + spec_digit_rects(x + 64, y, h % 10, 56, 96, 8, color, bg)
        + spec_colon_rects(x + 133, y, 96, 8, color)
        + spec_digit_rects(x + 154, y, m / 10, 56, 96, 8, color, bg)
        + spec_digit_rects(x + 218, y, m % 10, 56, 96, 8, color, bg)
}

/// The rectangles of the always-on clock.
pub fn hhmm_rects(cx: i32, y: i32, h: u8, m: u8, color: u16, bg: u16) -> (r: Vec<FillRect>)
    requires
        on_canvas(cx as int),
        on_canvas(y as int),
    ensures
        r@ == spec_hhmm_rects(cx as int, y as int, h, m, color, bg),
{
    let dw: i32 = 56;
    let dh: i32 = 96;
    let t: i32 = 8;
    let gap: i32 = 8;
    let cw: i32 = 18;
    let total: i32 = 4 * dw + cw + 5 * gap;
    let mut x = cx - total / 2;
    let mut out = digit_rects(x, y, h / 10, dw, dh, t, color, bg);
    x += dw + gap;
    out.append(&mut digit_rects(x, y, h % 10, dw, dh, t, color, bg));
    x += dw + gap;
    out.append(&mut colon_rects(x + cw / 2 - t / 2, y, dh, t, color));
    x += cw + gap;
    out.append(&mut digit_rects(x, y, m / 10, dw, dh, t, color, bg));
    x += dw + gap;
    out.append(&mut digit_rects(x, y, m % 10, dw, dh, t, color, bg));
    assert(out@ =~= spec_hhmm_rects(cx as int, y as int, h, m, color, bg));
    out
}

/// Which digits light each stroke of a seven-segment figure, for a digit
/// `d` with segment bits `s`.
spec fn glyph_strokes(s: u8, d: u8) -> bool {
    &&& (s & 0x01 != 0 <==> d != 1 && d != 4)
    &&& (s & 0x02 != 0 <==> d != 5 && d != 6)
    &&& (s & 0x04 != 0 <==> d != 2)
    &&& (s & 0x08 != 0 <==> d != 1 && d != 4 && d != 7)
    &&& (s & 0x10 != 0 <==> d == 0 || d == 2 || d == 6 || d == 8)
    &&& (s & 0x20 != 0 <==> d != 1 && d != 2 && d != 3 && d != 7)
    &&& (s & 0x40 != 0 <==> d != 0 && d != 1 && d != 7)
}

/// Each digit is drawn as its figure on a seven-segment display. Every one of
/// the seven rectangles, named by where it lies in the cell, is lit exactly for
/// the digits whose figure uses that stroke: the top bar for all but 1 and 4,
/// the upper right for all but 5 and 6, the lower right for all but 2, the
/// bottom bar for all but 1, 4 and 7, the lower left only for 0, 2, 6 and 8,
/// the upper left for all but 1, 2, 3 and 7, the middle bar for all but 0, 1
/// and 7.
pub proof fn lemma_digit_figures(x: int, y: int, d: u8, w: int, h: int, t: int, color: u16, bg: u16)
    requires
        d <= 9,
        color != bg,
    ensures
        ({
            let r = spec_digit_rects(x, y, d, w, h, t, color, bg);
            let hh = h / 2;
            &&& r.len() == 7
            &&& r[0].x == (x + t) as i32 && r[0].y == y as i32
            &&& (r[0].color == color <==> d != 1 && d != 4)
            &&& r[1].x == (x + w - t) as i32 && r[1].y == (y + t) as i32
            &&& (r[1].color == color <==> d != 5 && d != 6)
            &&& r[2].x == (x + w - t) as i32 && r[2].y == (y + hh + t) as i32
            &&& (r[2].color == color <==> d != 2)
            &&& r[3].x == (x + t) as i32 && r[3].y == (y + h - t) as i32
            &&& (r[3].color == color <==> d != 1 && d != 4 && d != 7)
            &&& r[4].x == x as i32 && r[4].y == (y + hh + t) as i32
            &&& (r[4].color == color <==> d == 0 || d == 2 || d == 6 || d == 8)
            &&& r[5].x == x as i32 && r[5].y == (y + t) as i32
            &&& (r[5].color == color <==> d != 1 && d != 2 && d != 3 && d != 7)
            &&& r[6].x == (x + t) as i32 && r[6].y == (y + hh - t / 2) as i32
            &&& (r[6].color == color <==> d != 0 && d != 1 && d != 7)
        }),
{
    assert(glyph_strokes(0b0111111u8, 0u8) && glyph_strokes(0b0000110u8, 1u8) && glyph_strokes(0b1011011u8, 2u8)
        && glyph_strokes(0b1001111u8, 3u8) && glyph_strokes(0b1100110u8, 4u8) && glyph_strokes(0b1101101u8, 5u8)
        && glyph_strokes(0b1111101u8, 6u8) && glyph_strokes(0b0000111u8, 7u8) && glyph_strokes(0b1111111u8, 8u8)
        && glyph_strokes(0b1101111u8, 9u8)) by (bit_vector);
    assert(glyph_strokes(segment_table()[d as int], d));
}

} // verus!

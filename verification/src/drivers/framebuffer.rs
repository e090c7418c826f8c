//! Double-buffered RGB565 frame in RAM: pixels are drawn here, then the
//! front buffer (or a dirty window of it) is streamed to the panel.

use vstd::prelude::*;
use vstd::arithmetic::div_mod::lemma_fundamental_div_mod_converse;

verus! {

pub const WIDTH: usize = 368;
pub const HEIGHT: usize = 448;
pub const PIXEL_COUNT: usize = WIDTH * HEIGHT;

/// Front buffer `buf` (what is flushed) and back buffer, row-major.
pub struct Framebuffer {
    pub buf: Vec<u16>,
    pub back: Vec<u16>,
}

/// Row of pixel index `i`.
pub open spec fn row_of(i: int) -> int {
    i / WIDTH as int
}

/// Column of pixel index `i`.
pub open spec fn col_of(i: int) -> int {
    i % WIDTH as int
}

/// Pixel `i` lies in columns `x0..x1` and rows `y0..y1`.
pub open spec fn in_area(i: int, x0: int, y0: int, x1: int, y1: int) -> bool {
    y0 <= row_of(i) < y1 && x0 <= col_of(i) < x1
}

pub open spec fn min_int(a: int, b: int) -> int {
    if a <= b { a } else { b }
}

pub open spec fn max_int(a: int, b: int) -> int {
    if a >= b { a } else { b }
}

/// `s` with the pixels of the area set to `color`.
pub open spec fn filled(s: Seq<u16>, x0: int, y0: int, x1: int, y1: int, color: u16) -> Seq<u16> {
    Seq::new(s.len(), |i: int| if in_area(i, x0, y0, x1, y1) { color } else { s[i] })
}

/// The index of (col, row) is where row and column say.
pub proof fn lemma_index(row: int, col: int)
    requires
        0 <= row,
        0 <= col < WIDTH,
    ensures
        row_of(row * WIDTH + col) == row,
        col_of(row * WIDTH + col) == col,
{
    lemma_fundamental_div_mod_converse(row * WIDTH + col, WIDTH as int, row, col);
}

impl Framebuffer {
    /// Both buffers hold one full frame.
    pub open spec fn wf(&self) -> bool {
        self.buf@.len() == PIXEL_COUNT && self.back@.len() == PIXEL_COUNT
    }

    /// Two black frames.
    pub fn new() -> (fb: Self)
        ensures
            fb.wf(),
            forall|i: int| 0 <= i < PIXEL_COUNT ==> fb.buf@[i] == 0 && fb.back@[i] == 0,
    {
        let buf = vec![0u16; PIXEL_COUNT];
        let back = vec![0u16; PIXEL_COUNT];
        Framebuffer { buf, back }
    }

    /// Exchanges the front and back buffers.
    pub fn swap(&mut self)
        ensures
            final(self).buf == old(self).back,
            final(self).back == old(self).buf,
    {
        core::mem::swap(&mut self.buf, &mut self.back);
    }

    /// Paints the whole front buffer with a raw RGB565 colour.
    pub fn clear_color(&mut self, color: u16)
        requires
            old(self).wf(),
        ensures
            final(self).wf(),
            final(self).back == old(self).back,
            forall|i: int| 0 <= i < PIXEL_COUNT ==> final(self).buf@[i] == color,
    {
        let mut i: usize = 0;
        while i < self.buf.len()
            invariant
                self.wf(),
                self.back == old(self).back,
                i <= PIXEL_COUNT,
                forall|j: int| 0 <= j < i ==> self.buf@[j] == color,
            decreases PIXEL_COUNT - i,
        {
            self.buf.set(i, color);
            i += 1;
        }
    }

    /// Sets one pixel; coordinates off the frame are ignored.
    pub fn set_pixel(&mut self, x: usize, y: usize, color: u16)
        requires
            old(self).wf(),
        ensures
            final(self).wf(),
            final(self).back == old(self).back,
            final(self).buf@ == if x < WIDTH && y < HEIGHT {
                old(self).buf@.update(y * WIDTH + x, color)
            } else {
                old(self).buf@
            },
    {
        if x < WIDTH && y < HEIGHT {
            assert(y * WIDTH + x < PIXEL_COUNT) by (nonlinear_arith)
                requires
                    x < WIDTH,
                    y < HEIGHT,
            ;
            self.buf.set(y * WIDTH + x, color);
        }
    }

    /// Sets one pixel given signed coordinates; off-frame pixels are ignored.
    pub fn put_pixel(&mut self, x: i32, y: i32, color: u16)
        requires
            old(self).wf(),
        ensures
            final(self).wf(),
            final(self).back == old(self).back,
            final(self).buf@ == if 0 <= x < WIDTH && 0 <= y < HEIGHT {
                old(self).buf@.update(y * WIDTH + x, color)
            } else {
                old(self).buf@
            },
    {
        if x >= 0 && (x as usize) < WIDTH && y >= 0 && (y as usize) < HEIGHT {
            self.set_pixel(x as usize, y as usize, color);
        }
    }

    /// Fills columns `x..x+w` of rows `y..y+h`, cut at the frame's right and
    /// bottom edges.
    pub fn fill_rect(&mut self, x: usize, y: usize, w: usize, h: usize, color: u16)
        requires
            old(self).wf(),
            x + w <= usize::MAX,
            y + h <= usize::MAX,
            x <= WIDTH || min_int(y + h, HEIGHT as int) <= y,
        ensures
            final(self).wf(),
            final(self).back == old(self).back,
            final(self).buf@ == filled(old(self).buf@, x as int, y as int, min_int(x + w, WIDTH as int),
                min_int(y + h, HEIGHT as int), color),
    {
        let x_end: usize = if x + w < WIDTH { x + w } else { WIDTH };
        let y_end: usize = if y + h < HEIGHT { y + h } else { HEIGHT };
        let ghost orig = self.buf@;
        let mut row: usize = y;
        while row < y_end
            invariant
                self.wf(),
                self.back == old(self).back,
                orig == old(self).buf@,
                orig.len() == PIXEL_COUNT,
                x_end == min_int(x + w, WIDTH as int),
                y_end == min_int(y + h, HEIGHT as int),
                x <= WIDTH || y_end <= y,
                y <= row,
                row <= y_end || row == y,
                forall|i: int| 0 <= i < PIXEL_COUNT ==> #[trigger] self.buf@[i] == if in_area(i, x as int, y as int, x_end as int, row as int) {
                    color
                } else {
                    orig[i]
                },
            decreases y_end - row,
        {
            let mut col: usize = x;
            while col < x_end
                invariant
                    self.wf(),
                    self.back == old(self).back,
                    orig.len() == PIXEL_COUNT,
                    x_end <= WIDTH,
                    x <= col <= x_end,
                    y <= row < y_end,
                    y_end <= HEIGHT,
                    forall|i: int| 0 <= i < PIXEL_COUNT ==> #[trigger] self.buf@[i] == if in_area(i, x as int, y as int, x_end as int, row as int)
                        || (row_of(i) == row && x <= col_of(i) < col) {
                        color
                    } else {
                        orig[i]
                    },
                decreases x_end - col,
            {
                proof {
                    lemma_index(row as int, col as int);
                }
                assert(row * WIDTH + col < PIXEL_COUNT) by (nonlinear_arith)
                    requires
                        col < WIDTH,
                        row < HEIGHT,
                ;
                let k = row * WIDTH + col;
                self.buf.set(k, color);
                col += 1;
                assert forall|i: int| 0 <= i < PIXEL_COUNT implies #[trigger] self.buf@[i] == if in_area(i, x as int, y as int, x_end as int, row as int)
                    || (row_of(i) == row && x <= col_of(i) < col) {
                    color
                } else {
                    orig[i]
                } by {
                    if i != k {
                        if row_of(i) == row && col_of(i) == col - 1 {
                            lemma_fundamental_div_mod_converse(i, WIDTH as int, row as int, (col - 1) as int);
                            assert(i == row * WIDTH + col - 1) by {
                                vstd::arithmetic::div_mod::lemma_fundamental_div_mod(i, WIDTH as int);
                            }
                        }
                    }
                }
            }
            row += 1;
        }
        assert(self.buf@ =~= filled(orig, x as int, y as int, x_end as int, y_end as int, color));
    }

    /// The front buffer.
    pub fn buffer(&self) -> (r: &[u16])
        ensures
            r@ == self.buf@,
    {
        self.buf.as_slice()
    }

    /// The front buffer, for direct writes.
    pub fn buffer_mut(&mut self) -> (r: &mut [u16])
        ensures
            r@ == old(self).buf@,
            final(r)@ == final(self).buf@,
            final(self).back == old(self).back,
    {
        self.buf.as_mut_slice()
    }

    /// Fills the part of the `w`x`h` rectangle at (x, y) that lies on the frame.
    pub fn fill_solid(&mut self, x: i32, y: i32, w: u32, h: u32, color: u16)
        requires
            old(self).wf(),
        ensures
            final(self).wf(),
            final(self).back == old(self).back,
            final(self).buf@ == filled(old(self).buf@, max_int(x as int, 0), max_int(y as int, 0),
                min_int(x + w, WIDTH as int), min_int(y + h, HEIGHT as int), color),
    {
        let x0: i64 = if x > 0 { x as i64 } else { 0 };
        let y0: i64 = if y > 0 { y as i64 } else { 0 };
        let xe: i64 = x as i64 + w as i64;
        let ye: i64 = y as i64 + h as i64;
        let x1: i64 = if xe < WIDTH as i64 { xe } else { WIDTH as i64 };
        let y1: i64 = if ye < HEIGHT as i64 { ye } else { HEIGHT as i64 };
        if x1 <= x0 || y1 <= y0 {
            assert(self.buf@ =~= filled(self.buf@, x0 as int, y0 as int, x1 as int, y1 as int, color));
            return;
        }
        self.fill_rect(x0 as usize, y0 as usize, (x1 - x0) as usize, (y1 - y0) as usize, color);
    }

    /// Writes `colors` row by row into the part of the `w`x`h` rectangle at
    /// (x, y) that lies on the frame, starting at its top-left corner and
    /// wrapping at its clipped width; colours past the frame's last row are
    /// dropped.
    pub fn fill_contiguous(&mut self, x: i32, y: i32, w: u32, h: u32, colors: &[u16])
        requires
            old(self).wf(),
        ensures
            final(self).wf(),
            final(self).back == old(self).back,
            ({
                let x0 = max_int(x as int, 0);
                let y0 = max_int(y as int, 0);
                let x1 = min_int(x + w, WIDTH as int);
                let y1 = min_int(y + h, HEIGHT as int);
                final(self).buf@ == if x1 <= x0 || y1 <= y0 {
                    old(self).buf@
                } else {
                    painted(old(self).buf@, colors@, x0, y0, x1 - x0, colors@.len())
                }
            }),
    {
        let x0: i64 = if x > 0 { x as i64 } else { 0 };
        let y0: i64 = if y > 0 { y as i64 } else { 0 };
        let xe: i64 = x as i64 + w as i64;
        let ye: i64 = y as i64 + h as i64;
        let x1: i64 = if xe < WIDTH as i64 { xe } else { WIDTH as i64 };
        let y1: i64 = if ye < HEIGHT as i64 { ye } else { HEIGHT as i64 };
        if x1 <= x0 || y1 <= y0 {
            return;
        }
        let ax: usize = x0 as usize;
        let wa: usize = (x1 - x0) as usize;
        let mut row: usize = y0 as usize;
        let mut col: usize = 0;
        let mut k: usize = 0;
        let ghost orig = self.buf@;
        while k < colors.len()
            invariant
                self.wf(),
                self.back == old(self).back,
                orig == old(self).buf@,
                1 <= wa,
                ax + wa <= WIDTH,
                k <= colors@.len(),
                col == k as int % wa as int,
                row == min_int(y0 + k as int / wa as int, HEIGHT as int),
                0 <= y0 < HEIGHT,
                self.buf@ == painted(orig, colors@, ax as int, y0 as int, wa as int, k as nat),
            decreases colors@.len() - k,
        {
            let ghost q = k as int / wa as int;
            proof {
                vstd::arithmetic::div_mod::lemma_fundamental_div_mod(k as int, wa as int);
            }
            if col < wa && row < HEIGHT {
                assert(row * WIDTH + ax + col < PIXEL_COUNT) by (nonlinear_arith)
                    requires
                        ax + col < WIDTH,
                        row < HEIGHT,
                ;
                self.buf.set(row * WIDTH + ax + col, colors[k]);
            }
            col += 1;
            if col >= wa {
                col = 0;
                if row < HEIGHT {
                    row += 1;
                }
                proof {
                    assert((q + 1) * wa == wa * q + wa) by (nonlinear_arith);
                    lemma_fundamental_div_mod_converse(k + 1, wa as int, q + 1, 0);
                }
            } else {
                proof {
                    assert(q * wa == wa * q) by (nonlinear_arith);
                    lemma_fundamental_div_mod_converse(k + 1, wa as int, q, col as int);
                }
            }
            k += 1;
        }
    }
}

/// `s` after the first `n` colours were written: colour `k` goes to column
/// `x0 + k mod w`, row `y0 + k / w`, when that row is on the frame.
pub open spec fn painted(s: Seq<u16>, colors: Seq<u16>, x0: int, y0: int, w: int, n: nat) -> Seq<u16>
    decreases n,
{
    if n == 0 {
        s
    } else {
        let prev = painted(s, colors, x0, y0, w, (n - 1) as nat);
        let k = n - 1;
        let row = y0 + k / w;
        if row < HEIGHT {
            prev.update(row * WIDTH + x0 + k % w, colors[k])
        } else {
            prev
        }
    }
}

/// `v` rounded down to even.
pub open spec fn even_floor(v: int) -> int {
    v - v % 2
}

/// `v` rounded up to even, unless that passes `lim`.
pub open spec fn even_ceil_within(v: int, lim: int) -> int {
    if v % 2 == 1 && v < lim { v + 1 } else { v }
}

/// One axis of the flush window of a dirty span `[p, p + len)` on a line of
/// `lim` pixels: start and length, even-aligned, at least 2 long and on the line.
pub open spec fn flush_span(p: int, len: int, lim: int) -> (int, int) {
    let p0 = even_floor(min_int(p, lim - 1));
    let p1a = even_ceil_within(min_int(p + len, lim), lim);
    let p1 = if p1a <= p0 { min_int(p0 + 2, lim) } else { p1a };
    (p0, min_int(max_int(p1 - p0, 2), lim - p0))
}

/// The window to stream for a dirty rectangle: `None` when it is empty.
pub open spec fn spec_flush_window(x: u16, y: u16, w: u16, h: u16) -> Option<(int, int, int, int)> {
    if w == 0 || h == 0 {
        None
    } else {
        let (x0, fw) = flush_span(x as int, w as int, WIDTH as int);
        let (y0, fh) = flush_span(y as int, h as int, HEIGHT as int);
        Some((x0, y0, fw, fh))
    }
}

fn span(p: u16, len: u16, lim: usize) -> (r: (usize, usize))
    requires
        4 <= lim <= 1000,
    ensures
        (r.0 as int, r.1 as int) == flush_span(p as int, len as int, lim as int),
        r.0 + r.1 <= lim,
        r.0 % 2 == 0,
{
    let mut p0: usize = if (p as usize) < lim - 1 { p as usize } else { lim - 1 };
    p0 = p0 - p0 % 2;
    let e: usize = p as usize + len as usize;
    let mut p1: usize = if e < lim { e } else { lim };
    if p1 % 2 == 1 && p1 < lim {
        p1 = p1 + 1;
    }
    if p1 <= p0 {
        p1 = if p0 + 2 < lim { p0 + 2 } else { lim };
    }
    let d: usize = if p1 - p0 > 2 { p1 - p0 } else { 2 };
    let f: usize = if d < lim - p0 { d } else { lim - p0 };
    (p0, f)
}

/// The even-aligned window (x, y, width, height) streamed for a dirty
/// rectangle, or `None` for an empty one.
pub fn flush_window(x: u16, y: u16, w: u16, h: u16) -> (r: Option<(usize, usize, usize, usize)>)
    ensures
        match spec_flush_window(x, y, w, h) {
            Some((x0, y0, fw, fh)) => r == Some((x0 as usize, y0 as usize, fw as usize, fh as usize)),
            None => r is None,
        },
        r matches Some((x0, y0, fw, fh)) ==> x0 + fw <= WIDTH && y0 + fh <= HEIGHT && x0 % 2 == 0 && y0 % 2 == 0,
{
    if w == 0 || h == 0 {
        return None;
    }
    let (x0, fw) = span(x, w, WIDTH);
    let (y0, fh) = span(y, h, HEIGHT);
    Some((x0, y0, fw, fh))
}

/// The flush window covers the dirty rectangle as far as it lies on the frame.
pub proof fn lemma_flush_window_covers(x: u16, y: u16, w: u16, h: u16)
    requires
        w > 0,
        h > 0,
        x < WIDTH,
        y < HEIGHT,
    ensures
        spec_flush_window(x, y, w, h) matches Some((x0, y0, fw, fh)) && x0 <= x && y0 <= y
            && min_int(x + w, WIDTH as int) <= x0 + fw && min_int(y + h, HEIGHT as int) <= y0 + fh,
{
}


} // verus!

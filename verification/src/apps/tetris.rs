//! Tetris on a 12x16 field: tap or swipe up rotates, swipes left/right move,
//! swipe down drops; tilting the watch moves the piece; tap to restart after
//! the game is over.

use vstd::prelude::*;
use crate::apps::AppResult;
use crate::apps::rng::{xorshift, rand_below, random_below};
use crate::peripherals::touch::SwipeDirection;
use crate::text::{capped_decimal, push_capped_decimal};

verus! {

pub const GW: usize = 12;
pub const GH: usize = 16;
pub const DROP_MS: u32 = 700;
pub const GYRO_MOVE_MS: u32 = 150;

/// Sideways tilt of the watch, as read from the accelerometer.
#[derive(Clone, Copy, Debug, PartialEq, Eq, Structural)]
pub enum Tilt {
    Level,
    /// Tilted to the right: the piece moves right.
    Right,
    /// Tilted to the left: the piece moves left.
    Left,
}

/// Whether cell (r, c) of the 4x4 box of piece `p` (I O S Z T L J) is filled,
/// in its spawn orientation.
pub open spec fn base_cell(p: int, r: int, c: int) -> bool {
    &&& 0 <= r < 4
    &&& 0 <= c < 4
    &&& if p == 0 {
        c == 1
    } else if p == 1 {
        (r == 1 || r == 2) && (c == 1 || c == 2)
    } else if p == 2 {
        (r == 1 && (c == 1 || c == 2)) || (r == 2 && (c == 0 || c == 1))
    } else if p == 3 {
        (r == 1 && (c == 0 || c == 1)) || (r == 2 && (c == 1 || c == 2))
    } else if p == 4 {
        (r == 1 && c == 1) || (r == 2 && c <= 2)
    } else if p == 5 {
        (r == 1 && c == 0) || (r == 2 && c <= 2)
    } else {
        (r == 1 && c == 2) || (r == 2 && c <= 2)
    }
}

/// Cell (r, c) of piece `p` after `rot` clockwise quarter turns.
pub open spec fn filled(p: int, rot: int, r: int, c: int) -> bool {
    let q = rot % 4;
    if q == 0 {
        base_cell(p, r, c)
    } else if q == 1 {
        base_cell(p, 3 - c, r)
    } else if q == 2 {
        base_cell(p, 3 - r, 3 - c)
    } else {
        base_cell(p, c, 3 - r)
    }
}

/// A field cell is blocked when it is off the sides or the bottom, or occupied.
/// Rows above the top are free.
pub open spec fn blocked(g: Seq<Seq<u8>>, x: int, y: int) -> bool {
    x < 0 || x >= 12 || y >= 16 || (y >= 0 && g[y][x] != 0)
}

/// Piece `p` in rotation `rot` with its box at (px, py) overlaps a blocked cell.
pub open spec fn collides_at(g: Seq<Seq<u8>>, p: int, px: int, py: int, rot: int) -> bool {
    exists|r: int, c: int|
        0 <= r < 4 && 0 <= c < 4 && #[trigger] filled(p, rot, r, c) && blocked(g, px + c, py + r)
}

/// Where a piece dropped from row `py` comes to rest.
pub open spec fn landing(g: Seq<Seq<u8>>, p: int, px: int, py: int, rot: int) -> int
    decreases 16 - py,
{
    if py >= 16 || collides_at(g, p, px, py + 1, rot) {
        py
    } else {
        landing(g, p, px, py + 1, rot)
    }
}

/// Every orientation of every piece fills at least one cell.
pub proof fn lemma_piece_nonempty(p: int, rot: int)
    requires
        0 <= p < 7,
        0 <= rot < 4,
    ensures
        filled(p, rot, spec_witness_r(rot), spec_witness_c(rot)),
        0 <= spec_witness_r(rot) < 4,
        0 <= spec_witness_c(rot) < 4,
{
}

/// Number of filled cells among the first `k` cells of the 4x4 box of piece
/// `p` in rotation `rot`, row by row.
pub open spec fn cells_filled(p: int, rot: int, k: int) -> int
    decreases k,
{
    if k <= 0 {
        0
    } else {
        cells_filled(p, rot, k - 1) + if filled(p, rot, (k - 1) / 4, (k - 1) % 4) {
            1int
        } else {
            0int
        }
    }
}

/// How many of the four cells beside (r, c) are filled.
pub open spec fn filled_neighbours(p: int, rot: int, r: int, c: int) -> int {
    (if filled(p, rot, r - 1, c) { 1int } else { 0int }) + (if filled(p, rot, r + 1, c) { 1int } else { 0int })
        + (if filled(p, rot, r, c - 1) { 1int } else { 0int }) + (if filled(p, rot, r, c + 1) { 1int } else { 0int })
}

/// Some filled cell has three filled neighbours (the stem of a T).
pub open spec fn has_junction(p: int, rot: int) -> bool {
    exists|r: int, c: int| #[trigger] filled(p, rot, r, c) && filled_neighbours(p, rot, r, c) >= 3
}

/// Every piece, in every orientation, is made of exactly four cells of its box.
pub proof fn lemma_pieces_have_four_cells(p: int, rot: int)
    requires
        0 <= p < 7,
        0 <= rot < 4,
    ensures
        cells_filled(p, rot, 16) == 4,
{
    reveal_with_fuel(cells_filled, 17);
}

/// The seven pieces are seven different shapes: in any one orientation no two
/// of them fill the same cells.
pub proof fn lemma_pieces_distinct(p: int, q: int, rot: int)
    requires
        0 <= p < 7,
        0 <= q < 7,
        p != q,
        0 <= rot < 4,
    ensures
        exists|r: int, c: int| filled(p, rot, r, c) != #[trigger] filled(q, rot, r, c),
{
    // Cells (0,1), (1,0), (1,1), (1,2), (2,0), (2,2) of the spawn box tell the
    // pieces apart; in rotation `rot` they sit at their turned places.
    if rot == 0 {
        assert(filled(p, 0, 0, 1) != filled(q, 0, 0, 1) || filled(p, 0, 1, 0) != filled(q, 0, 1, 0)
            || filled(p, 0, 1, 1) != filled(q, 0, 1, 1) || filled(p, 0, 1, 2) != filled(q, 0, 1, 2)
            || filled(p, 0, 2, 0) != filled(q, 0, 2, 0) || filled(p, 0, 2, 2) != filled(q, 0, 2, 2));
    } else if rot == 1 {
        assert(filled(p, 1, 1, 3) != filled(q, 1, 1, 3) || filled(p, 1, 0, 2) != filled(q, 1, 0, 2)
            || filled(p, 1, 1, 2) != filled(q, 1, 1, 2) || filled(p, 1, 2, 2) != filled(q, 1, 2, 2)
            || filled(p, 1, 0, 1) != filled(q, 1, 0, 1) || filled(p, 1, 2, 1) != filled(q, 1, 2, 1));
    } else if rot == 2 {
        assert(filled(p, 2, 3, 2) != filled(q, 2, 3, 2) || filled(p, 2, 2, 3) != filled(q, 2, 2, 3)
            || filled(p, 2, 2, 2) != filled(q, 2, 2, 2) || filled(p, 2, 2, 1) != filled(q, 2, 2, 1)
            || filled(p, 2, 1, 3) != filled(q, 2, 1, 3) || filled(p, 2, 1, 1) != filled(q, 2, 1, 1));
    } else {
        assert(filled(p, 3, 2, 0) != filled(q, 3, 2, 0) || filled(p, 3, 3, 1) != filled(q, 3, 3, 1)
            || filled(p, 3, 2, 1) != filled(q, 3, 2, 1) || filled(p, 3, 1, 1) != filled(q, 3, 1, 1)
            || filled(p, 3, 3, 2) != filled(q, 3, 3, 2) || filled(p, 3, 1, 2) != filled(q, 3, 1, 2));
    }
}

/// The fifth piece is the T: in every orientation one of its cells has three
/// filled neighbours, which no other piece has in any orientation.
pub proof fn lemma_only_t_has_junction(p: int, rot: int)
    requires
        0 <= p < 7,
        0 <= rot < 4,
    ensures
        has_junction(p, rot) <==> p == 4,
{
    if p == 4 {
        if rot == 0 {
            assert(filled(4, 0, 2, 1) && filled_neighbours(4, 0, 2, 1) >= 3);
        } else if rot == 1 {
            assert(filled(4, 1, 1, 1) && filled_neighbours(4, 1, 1, 1) >= 3);
        } else if rot == 2 {
            assert(filled(4, 2, 1, 2) && filled_neighbours(4, 2, 1, 2) >= 3);
        } else {
            assert(filled(4, 3, 2, 2) && filled_neighbours(4, 3, 2, 2) >= 3);
        }
    } else {
        assert forall|r: int, c: int| #[trigger] filled(p, rot, r, c) implies filled_neighbours(p, rot, r, c) < 3 by {
        }
    }
}

/// Four filled cells in a straight row or column.
pub open spec fn has_line(p: int, rot: int) -> bool {
    exists|r: int, c: int|
        #![trigger filled(p, rot, r, c)]
        (filled(p, rot, r, c) && filled(p, rot, r, c + 1) && filled(p, rot, r, c + 2) && filled(p, rot, r, c + 3))
            || (filled(p, rot, r, c) && filled(p, rot, r + 1, c) && filled(p, rot, r + 2, c) && filled(p, rot, r + 3, c))
}

/// Four filled cells forming a 2x2 square.
pub open spec fn has_square(p: int, rot: int) -> bool {
    exists|r: int, c: int|
        #![trigger filled(p, rot, r, c)]
        filled(p, rot, r, c) && filled(p, rot, r, c + 1) && filled(p, rot, r + 1, c) && filled(p, rot, r + 1, c + 1)
}

/// The first piece is the I, the only one with four cells in a line, and the
/// second is the O, the only one with a 2x2 square, in every orientation.
pub proof fn lemma_i_and_o_pieces(p: int, rot: int)
    requires
        0 <= p < 7,
        0 <= rot < 4,
    ensures
        has_line(p, rot) <==> p == 0,
        has_square(p, rot) <==> p == 1,
{
    if p == 0 {
        if rot == 0 {
            assert(filled(0, 0, 0, 1) && filled(0, 0, 1, 1) && filled(0, 0, 2, 1) && filled(0, 0, 3, 1));
        } else if rot == 1 {
            assert(filled(0, 1, 1, 0) && filled(0, 1, 1, 1) && filled(0, 1, 1, 2) && filled(0, 1, 1, 3));
        } else if rot == 2 {
            assert(filled(0, 2, 0, 2) && filled(0, 2, 1, 2) && filled(0, 2, 2, 2) && filled(0, 2, 3, 2));
        } else {
            assert(filled(0, 3, 2, 0) && filled(0, 3, 2, 1) && filled(0, 3, 2, 2) && filled(0, 3, 2, 3));
        }
    } else {
        assert forall|r: int, c: int| #[trigger] filled(p, rot, r, c) implies !(filled(p, rot, r, c + 1) && filled(
            p,
            rot,
            r,
            c + 2,
        ) && filled(p, rot, r, c + 3)) && !(filled(p, rot, r + 1, c) && filled(p, rot, r + 2, c) && filled(
            p,
            rot,
            r + 3,
            c,
        )) by {}
    }
    if p == 1 {
        assert(filled(1, rot, 1, 1) && filled(1, rot, 1, 2) && filled(1, rot, 2, 1) && filled(1, rot, 2, 2));
    } else {
        assert forall|r: int, c: int| #[trigger] filled(p, rot, r, c) implies !(filled(p, rot, r, c + 1) && filled(
            p,
            rot,
            r + 1,
            c,
        ) && filled(p, rot, r + 1, c + 1)) by {}
    }
}

pub open spec fn spec_witness_r(rot: int) -> int {
    if rot == 0 {
        2
    } else if rot == 1 {
        1
    } else if rot == 2 {
        1
    } else {
        2
    }
}

pub open spec fn spec_witness_c(rot: int) -> int {
    if rot == 0 {
        1
    } else if rot == 1 {
        1
    } else if rot == 2 {
        2
    } else {
        2
    }
}

/// A piece that does not collide lies within the field's columns and above its floor.
proof fn lemma_free_bounds(g: Seq<Seq<u8>>, p: int, px: int, py: int, rot: int)
    requires
        0 <= p < 7,
        0 <= rot < 4,
        !collides_at(g, p, px, py, rot),
    ensures
        -3 <= px <= 11,
        py <= 15,
{
    lemma_piece_nonempty(p, rot);
    let r = spec_witness_r(rot);
    let c = spec_witness_c(rot);
    assert(!blocked(g, px + c, py + r));
}

/// Number of full rows of a field.
fn full_rows(grid: &[[u8; GW]; GH]) -> (n: u32)
    ensures
        n == full_count(grid_view(*grid)),
{
    let ghost g = grid_view(*grid);
    let mut n: u32 = 0;
    let mut r: usize = 0;
    while r < GH
        invariant
            r <= GH,
            g == grid_view(*grid),
            n + kept_rows(g, r as int).len() == r,
        decreases GH - r,
    {
        if row_is_full(&grid[r]) {
            n += 1;
        }
        r += 1;
    }
    n
}

/// A full row: every cell occupied.
pub open spec fn row_full(row: Seq<u8>) -> bool {
    forall|c: int| 0 <= c < 12 ==> #[trigger] row[c] != 0
}

/// The rows among the first `n` that are not full, top to bottom.
pub open spec fn kept_rows(g: Seq<Seq<u8>>, n: int) -> Seq<Seq<u8>>
    decreases n,
{
    if n <= 0 {
        seq![]
    } else if row_full(g[n - 1]) {
        kept_rows(g, n - 1)
    } else {
        kept_rows(g, n - 1).push(g[n - 1])
    }
}

/// Number of full rows.
pub open spec fn full_count(g: Seq<Seq<u8>>) -> int {
    16 - kept_rows(g, 16).len()
}

/// Cell (r, c) after removing the full rows and letting the rest fall:
/// empty rows on top, the other rows in their order below.
pub open spec fn cleared_cell(g: Seq<Seq<u8>>, r: int, c: int) -> u8 {
    let off = full_count(g);
    if r < off {
        0
    } else {
        kept_rows(g, 16)[r - off][c]
    }
}

/// Points for clearing `n` rows at once.
pub open spec fn line_points(n: int) -> int {
    if n == 1 {
        100
    } else if n == 2 {
        300
    } else if n == 3 {
        500
    } else if n == 4 {
        800
    } else {
        0
    }
}

/// Cell (r, c) after writing piece `p` (as value p + 1) into the field.
pub open spec fn placed_cell(g: Seq<Seq<u8>>, p: int, px: int, py: int, rot: int, r: int, c: int) -> u8 {
    if 0 <= r - py < 4 && 0 <= c - px < 4 && filled(p, rot, r - py, c - px) {
        (p + 1) as u8
    } else {
        g[r][c]
    }
}

/// Drop interval in ms: 700 less 30 per cleared line, never below 150.
pub open spec fn drop_interval(lines: int) -> int {
    if 700 - 30 * lines < 150 {
        150
    } else {
        700 - 30 * lines
    }
}

/// Largest line count for which the drop interval `700 - 30 * lines` can be
/// computed in 32-bit signed arithmetic.
pub const MAX_LINES: u32 = 71582788;

/// Abstract state of the game.
pub struct TetrisView {
    pub grid: Seq<Seq<u8>>,
    pub piece: int,
    pub rot: int,
    pub px: int,
    pub py: int,
    pub score: int,
    pub lines: int,
    pub game_over: bool,
    pub drop_timer: int,
    pub gyro_timer: int,
    pub rng: u32,
    pub did_step: bool,
}

/// Row where a new piece appears: two rows above the field, moved down (at
/// most to row 0) while it overlaps something.
pub open spec fn spawn_row(g: Seq<Seq<u8>>, p: int) -> int {
    if !collides_at(g, p, 4, -2, 0) {
        -2
    } else if !collides_at(g, p, 4, -1, 0) {
        -1
    } else {
        0
    }
}

/// A new random piece at the top; the game is over if it does not fit.
pub open spec fn spawn_v(v: TetrisView) -> TetrisView {
    let p = rand_below(v.rng, 7) as int;
    let y = spawn_row(v.grid, p);
    TetrisView {
        piece: p,
        rot: 0,
        px: 4,
        py: y,
        rng: xorshift(v.rng),
        game_over: v.game_over || collides_at(v.grid, p, 4, y, 0),
        ..v
    }
}

pub open spec fn placed_grid(v: TetrisView) -> Seq<Seq<u8>> {
    Seq::new(16, |r: int| Seq::new(12, |c: int| placed_cell(v.grid, v.piece, v.px, v.py, v.rot, r, c)))
}

pub open spec fn cleared_grid(g: Seq<Seq<u8>>) -> Seq<Seq<u8>> {
    Seq::new(16, |r: int| Seq::new(12, |c: int| cleared_cell(g, r, c)))
}

/// The falling piece settles: it is written into the field, full rows are
/// removed and scored, and a new piece appears.
pub open spec fn lock_v(v: TetrisView) -> TetrisView {
    let g1 = placed_grid(v);
    let n = full_count(g1);
    spawn_v(TetrisView { grid: cleared_grid(g1), lines: v.lines + n, score: v.score + line_points(n), ..v })
}

/// Sideways move by `dx` columns when the piece fits there.
pub open spec fn try_move_v(v: TetrisView, dx: int) -> TetrisView {
    if !collides_at(v.grid, v.piece, v.px + dx, v.py, v.rot) {
        TetrisView { px: v.px + dx, did_step: true, ..v }
    } else {
        v
    }
}

/// Quarter turn when the turned piece fits.
pub open spec fn rotate_v(v: TetrisView) -> TetrisView {
    let nr = (v.rot + 1) % 4;
    if !collides_at(v.grid, v.piece, v.px, v.py, nr) {
        TetrisView { rot: nr, did_step: true, ..v }
    } else {
        v
    }
}

/// Hard drop: the piece falls to its landing row and settles.
pub open spec fn drop_v(v: TetrisView) -> TetrisView {
    TetrisView {
        did_step: true,
        ..lock_v(TetrisView { py: landing(v.grid, v.piece, v.px, v.py, v.rot), ..v })
    }
}

pub open spec fn swipe_v(v: TetrisView, swipe: Option<SwipeDirection>) -> TetrisView {
    match swipe {
        None => v,
        Some(SwipeDirection::Left) => try_move_v(v, -1),
        Some(SwipeDirection::Right) => try_move_v(v, 1),
        Some(SwipeDirection::Down) => drop_v(v),
        Some(_) => rotate_v(v),
    }
}

/// Tilt control: every 150 ms the piece moves one column towards the tilt.
pub open spec fn gyro_v(v: TetrisView, tilt: Tilt, dt: int) -> TetrisView {
    let t = v.gyro_timer + dt;
    if t >= 150 {
        let v2 = TetrisView { gyro_timer: t - 150, ..v };
        match tilt {
            Tilt::Right => try_move_v(v2, 1),
            Tilt::Left => try_move_v(v2, -1),
            Tilt::Level => v2,
        }
    } else {
        TetrisView { gyro_timer: t, ..v }
    }
}

/// Gravity: once the drop interval has elapsed the piece falls one row, or
/// settles if it cannot.
pub open spec fn tick_v(v: TetrisView, dt: int) -> TetrisView {
    let speed = drop_interval(v.lines);
    let t = v.drop_timer + dt;
    if t >= speed {
        let v2 = TetrisView { drop_timer: t - speed, ..v };
        let v3 = if !collides_at(v2.grid, v2.piece, v2.px, v2.py + 1, v2.rot) {
            TetrisView { py: v2.py + 1, ..v2 }
        } else {
            lock_v(v2)
        };
        TetrisView { did_step: true, ..v3 }
    } else {
        TetrisView { drop_timer: t, ..v }
    }
}

/// A new game: empty field, zero score and lines, a new piece (the generator carries on).
pub open spec fn setup_v(v: TetrisView) -> TetrisView {
    TetrisView {
        did_step: true,
        ..spawn_v(
            TetrisView {
                grid: Seq::new(16, |r: int| Seq::new(12, |c: int| 0u8)),
                score: 0,
                lines: 0,
                game_over: false,
                drop_timer: 0,
                gyro_timer: 0,
                ..v
            },
        )
    }
}

/// Settling the piece keeps the line count and the score within 32 bits.
pub open spec fn lock_fits(v: TetrisView) -> bool {
    &&& v.lines + full_count(placed_grid(v)) <= u32::MAX
    &&& v.score + line_points(full_count(placed_grid(v))) <= u32::MAX
}

/// The counters of a running frame fit their 32-bit fields: both timers
/// after adding the elapsed time, lines and score after each settle, and the
/// line count where the drop interval is computed. On any other frame the
/// arithmetic overflows.
pub open spec fn frame_fits(v: TetrisView, swipe: Option<SwipeDirection>, tilt: Tilt, dt: int) -> bool {
    let v0 = TetrisView { did_step: false, ..v };
    let v2 = gyro_v(swipe_v(v0, swipe), tilt, dt);
    let t = v2.drop_timer + dt;
    &&& v.gyro_timer + dt <= u32::MAX
    &&& v.drop_timer + dt <= u32::MAX
    &&& swipe == Some(SwipeDirection::Down) ==> lock_fits(
        TetrisView { py: landing(v0.grid, v0.piece, v0.px, v0.py, v0.rot), ..v0 },
    )
    &&& v2.lines <= MAX_LINES
    &&& t >= drop_interval(v2.lines) && collides_at(v2.grid, v2.piece, v2.px, v2.py + 1, v2.rot)
        ==> lock_fits(TetrisView { drop_timer: t - drop_interval(v2.lines), ..v2 })
}

/// The filled cells among the first `k` of a piece's 4x4 box (row by row),
/// with the box's top-left corner at column `px`, row `y`, that lie on one of
/// the field's rows; each as (column, row, `shadow`).
pub open spec fn shape_cells(p: int, rot: int, px: int, y: int, shadow: bool, k: int) -> Seq<(i32, i32, bool)>
    decreases k,
{
    if k <= 0 {
        seq![]
    } else {
        let rest = shape_cells(p, rot, px, y, shadow, k - 1);
        let r = (k - 1) / 4;
        let c = (k - 1) % 4;
        if filled(p, rot, r, c) && 0 <= y + r < 16 {
            rest.push(((px + c) as i32, (y + r) as i32, shadow))
        } else {
            rest
        }
    }
}

/// What is drawn of the falling piece: nothing once the game is over;
/// otherwise first its landing shadow (only when the shadow is below the
/// piece), then the piece itself, each clipped to the field's rows.
pub open spec fn spec_visible_cells(v: TetrisView) -> Seq<(i32, i32, bool)> {
    if v.game_over {
        seq![]
    } else {
        let gy = landing(v.grid, v.piece, v.px, v.py, v.rot);
        (if gy != v.py {
            shape_cells(v.piece, v.rot, v.px, gy, true, 16)
        } else {
            seq![]
        }) + shape_cells(v.piece, v.rot, v.px, v.py, false, 16)
    }
}

/// One frame: after the game is over only a tap (restart) does anything;
/// otherwise the swipe is applied, then tilt, then gravity.
pub open spec fn update_v(v: TetrisView, swipe: Option<SwipeDirection>, tap: bool, tilt: Tilt, dt: int) -> TetrisView {
    let v0 = TetrisView { did_step: false, ..v };
    if v.game_over {
        if tap {
            setup_v(v0)
        } else {
            v0
        }
    } else {
        tick_v(gyro_v(swipe_v(v0, swipe), tilt, dt), dt)
    }
}

/// While the game runs, the falling piece fits where it is: it overlaps no
/// wall, floor or settled block.
pub open spec fn piece_fits(v: TetrisView) -> bool {
    !v.game_over ==> !collides_at(v.grid, v.piece, v.px, v.py, v.rot)
}

/// A new piece either fits where it appears or ends the game; in particular
/// a new game starts with a fitting piece.
pub proof fn lemma_spawn_fits(v: TetrisView)
    ensures
        piece_fits(spawn_v(v)),
{
}

proof fn lemma_lock_fits(v: TetrisView)
    ensures
        piece_fits(lock_v(v)),
{
    let g1 = placed_grid(v);
    let n = full_count(g1);
    lemma_spawn_fits(TetrisView { grid: cleared_grid(g1), lines: v.lines + n, score: v.score + line_points(n), ..v });
}

/// Every frame keeps the falling piece clear of walls, floor and settled
/// blocks while the game runs: moves and turns only happen where the piece
/// fits, and a new piece that does not fit ends the game.
pub proof fn lemma_update_keeps_piece_fitting(v: TetrisView, swipe: Option<SwipeDirection>, tap: bool, tilt: Tilt, dt: int)
    requires
        piece_fits(v),
    ensures
        piece_fits(update_v(v, swipe, tap, tilt, dt)),
{
    let v0 = TetrisView { did_step: false, ..v };
    if v.game_over {
        if tap {
            lemma_spawn_fits(TetrisView {
                grid: Seq::new(16, |r: int| Seq::new(12, |c: int| 0u8)),
                score: 0,
                lines: 0,
                game_over: false,
                drop_timer: 0,
                gyro_timer: 0,
                ..v0
            });
        }
    } else {
        let v1 = swipe_v(v0, swipe);
        if swipe == Some(SwipeDirection::Down) {
            lemma_lock_fits(TetrisView { py: landing(v0.grid, v0.piece, v0.px, v0.py, v0.rot), ..v0 });
        }
        assert(piece_fits(v1));
        let v2 = gyro_v(v1, tilt, dt);
        assert(piece_fits(v2));
        let speed = drop_interval(v2.lines);
        let t = v2.drop_timer + dt;
        if t >= speed {
            let v3 = TetrisView { drop_timer: t - speed, ..v2 };
            if collides_at(v3.grid, v3.piece, v3.px, v3.py + 1, v3.rot) {
                lemma_lock_fits(v3);
            }
        }
    }
}

/// The field as rows of cells.
pub open spec fn grid_view(g: [[u8; GW]; GH]) -> Seq<Seq<u8>> {
    Seq::new(16, |r: int| g@[r]@)
}

pub struct TetrisGame {
    /// Field rows top to bottom; 0 is empty, otherwise piece index + 1.
    pub grid: [[u8; GW]; GH],
    pub piece: usize,
    pub rot: usize,
    pub px: i32,
    pub py: i32,
    pub score: u32,
    pub lines: u32,
    pub game_over: bool,
    pub drop_timer: u32,
    pub gyro_timer: u32,
    pub rng: u32,
    pub did_step: bool,
}

impl TetrisGame {
    /// The falling piece is a real piece, in a real rotation, near the field.
    pub open spec fn wf(&self) -> bool {
        &&& self.piece < 7
        &&& self.rot < 4
        &&& -3 <= self.px <= 11
        &&& -2 <= self.py <= 15
    }

    pub open spec fn collides_now(&self, px: int, py: int, rot: int) -> bool {
        collides_at(grid_view(self.grid), self.piece as int, px, py, rot)
    }

    /// Whether cell (r, c) of piece `p` in rotation `rot` is filled.
    pub fn shape_filled(p: usize, rot: usize, r: usize, c: usize) -> (b: bool)
        requires
            p < 7,
            rot < 4,
            r < 4,
            c < 4,
        ensures
            b == filled(p as int, rot as int, r as int, c as int),
    {
        let q = rot % 4;
        let (br, bc): (usize, usize) = if q == 0 {
            (r, c)
        } else if q == 1 {
            (3 - c, r)
        } else if q == 2 {
            (3 - r, 3 - c)
        } else {
            (c, 3 - r)
        };
        if p == 0 {
            bc == 1
        } else if p == 1 {
            (br == 1 || br == 2) && (bc == 1 || bc == 2)
        } else if p == 2 {
            (br == 1 && (bc == 1 || bc == 2)) || (br == 2 && (bc == 0 || bc == 1))
        } else if p == 3 {
            (br == 1 && (bc == 0 || bc == 1)) || (br == 2 && (bc == 1 || bc == 2))
        } else if p == 4 {
            (br == 1 && bc == 1) || (br == 2 && bc <= 2)
        } else if p == 5 {
            (br == 1 && bc == 0) || (br == 2 && bc <= 2)
        } else {
            (br == 1 && bc == 2) || (br == 2 && bc <= 2)
        }
    }

    /// Cell (r, c) of the falling piece in its current rotation.
    pub fn shape_cell(&self, r: usize, c: usize) -> (b: bool)
        requires
            self.wf(),
            r < 4,
            c < 4,
        ensures
            b == filled(self.piece as int, self.rot as int, r as int, c as int),
    {
        Self::shape_filled(self.piece, self.rot, r, c)
    }

    /// Whether the falling piece, placed at (px, py) in rotation `rot`, overlaps
    /// a wall, the floor or a settled block.
    pub fn collides(&self, px: i32, py: i32, rot: usize) -> (b: bool)
        requires
            self.piece < 7,
            rot < 4,
            -100 <= px <= 100,
            -100 <= py <= 100,
        ensures
            b == self.collides_now(px as int, py as int, rot as int),
    {
        let mut r: usize = 0;
        while r < 4
            invariant
                r <= 4,
                self.piece < 7,
                rot < 4,
                -100 <= px <= 100,
                -100 <= py <= 100,
                forall|rr: int, cc: int|
                    0 <= rr < r && 0 <= cc < 4 && #[trigger] filled(self.piece as int, rot as int, rr, cc)
                        ==> !blocked(grid_view(self.grid), px + cc, py + rr),
            decreases 4 - r,
        {
            let mut c: usize = 0;
            while c < 4
                invariant
                    r < 4,
                    c <= 4,
                    self.piece < 7,
                    rot < 4,
                    -100 <= px <= 100,
                    -100 <= py <= 100,
                    forall|rr: int, cc: int|
                        0 <= rr < r && 0 <= cc < 4 && #[trigger] filled(self.piece as int, rot as int, rr, cc)
                            ==> !blocked(grid_view(self.grid), px + cc, py + rr),
                    forall|cc: int|
                        0 <= cc < c && #[trigger] filled(self.piece as int, rot as int, r as int, cc)
                            ==> !blocked(grid_view(self.grid), px + cc, py + r),
                decreases 4 - c,
            {
                if Self::shape_filled(self.piece, rot, r, c) {
                    let gx: i32 = px + c as i32;
                    let gy: i32 = py + r as i32;
                    if gx < 0 || gx >= 12 || gy >= 16 {
                        assert(filled(self.piece as int, rot as int, r as int, c as int));
                        return true;
                    }
                    if gy >= 0 && self.grid[gy as usize][gx as usize] != 0 {
                        assert(filled(self.piece as int, rot as int, r as int, c as int));
                        return true;
                    }
                }
                c += 1;
            }
            r += 1;
        }
        false
    }

    /// Row where the falling piece would come to rest if dropped now.
    pub fn landing_row(&self) -> (y: i32)
        requires
            self.wf(),
        ensures
            y == landing(grid_view(self.grid), self.piece as int, self.px as int, self.py as int, self.rot as int),
            self.py <= y <= 15,
    {
        let mut y = self.py;
        while !self.collides(self.px, y + 1, self.rot)
            invariant
                self.wf(),
                self.py <= y <= 15,
                landing(grid_view(self.grid), self.piece as int, self.px as int, y as int, self.rot as int)
                    == landing(grid_view(self.grid), self.piece as int, self.px as int, self.py as int, self.rot as int),
            decreases 16 - y,
        {
            proof {
                lemma_free_bounds(grid_view(self.grid), self.piece as int, self.px as int, y + 1, self.rot as int);
            }
            y = y + 1;
        }
        y
    }
}

impl View for TetrisGame {
    type V = TetrisView;

    open spec fn view(&self) -> TetrisView {
        TetrisView {
            grid: grid_view(self.grid),
            piece: self.piece as int,
            rot: self.rot as int,
            px: self.px as int,
            py: self.py as int,
            score: self.score as int,
            lines: self.lines as int,
            game_over: self.game_over,
            drop_timer: self.drop_timer as int,
            gyro_timer: self.gyro_timer as int,
            rng: self.rng,
            did_step: self.did_step,
        }
    }
}

proof fn lemma_kept_len(g: Seq<Seq<u8>>, n: int)
    requires
        0 <= n,
    ensures
        kept_rows(g, n).len() <= n,
    decreases n,
{
    if n > 0 {
        lemma_kept_len(g, n - 1);
    }
}

proof fn lemma_kept_not_full(g: Seq<Seq<u8>>, n: int)
    requires
        0 <= n,
    ensures
        forall|k: int| 0 <= k < kept_rows(g, n).len() ==> !row_full(#[trigger] kept_rows(g, n)[k]),
    decreases n,
{
    if n > 0 {
        lemma_kept_not_full(g, n - 1);
        let prev = kept_rows(g, n - 1);
        if !row_full(g[n - 1]) {
            assert forall|k: int| 0 <= k < kept_rows(g, n).len() implies !row_full(#[trigger] kept_rows(g, n)[k]) by {
                if k < prev.len() {
                    assert(kept_rows(g, n)[k] == prev[k]);
                }
            }
        }
    }
}

/// Clearing lines leaves no full row behind.
pub proof fn lemma_cleared_has_no_full_row(g: Seq<Seq<u8>>)
    ensures
        forall|r: int| 0 <= r < 16 ==> !row_full(#[trigger] cleared_grid(g)[r]),
{
    lemma_kept_len(g, 16);
    lemma_kept_not_full(g, 16);
    let off = full_count(g);
    assert forall|r: int| 0 <= r < 16 implies !row_full(#[trigger] cleared_grid(g)[r]) by {
        let row = cleared_grid(g)[r];
        if r < off {
            assert(row[0] == 0);
        } else {
            let kept = kept_rows(g, 16)[r - off];
            assert(!row_full(kept));
            let c = choose|c: int| 0 <= c < 12 && !(kept[c] != 0);
            assert(row[c] == kept[c]);
        }
    }
}

/// The more lines cleared, the faster pieces fall (never faster than 150 ms).
pub proof fn lemma_drop_interval_monotone(a: int, b: int)
    requires
        a <= b,
    ensures
        drop_interval(b) <= drop_interval(a),
        150 <= drop_interval(b),
{
}

/// Whether every cell of `row` is occupied.
pub fn row_is_full(row: &[u8; GW]) -> (b: bool)
    ensures
        b == row_full(row@),
{
    let mut c: usize = 0;
    while c < GW
        invariant
            c <= GW,
            forall|cc: int| 0 <= cc < c ==> #[trigger] row@[cc] != 0,
        decreases GW - c,
    {
        if row[c] == 0 {
            return false;
        }
        c += 1;
    }
    true
}

impl TetrisGame {
    /// A new game with the first piece already placed.
    pub fn new() -> (g: Self)
        ensures
            g@ == spawn_v(
                TetrisView {
                    grid: Seq::new(16, |r: int| Seq::new(12, |c: int| 0u8)),
                    piece: 0,
                    rot: 0,
                    px: 4,
                    py: -1,
                    score: 0,
                    lines: 0,
                    game_over: false,
                    drop_timer: 0,
                    gyro_timer: 0,
                    rng: 77777,
                    did_step: false,
                },
            ),
            g.wf(),
    {
        let mut g = TetrisGame {
            grid: [[0u8; GW]; GH],
            piece: 0,
            rot: 0,
            px: 4,
            py: -1,
            score: 0,
            lines: 0,
            game_over: false,
            drop_timer: 0,
            gyro_timer: 0,
            rng: 77777,
            did_step: false,
        };
        assert(grid_view(g.grid) =~~= Seq::new(16, |r: int| Seq::new(12, |c: int| 0u8)));
        g.spawn_piece();
        g
    }

    /// Picks a random piece and places it at the top.
    fn spawn_piece(&mut self)
        ensures
            final(self)@ == spawn_v(old(self)@),
            final(self).wf(),
    {
        self.piece = random_below(&mut self.rng, 7) as usize;
        self.rot = 0;
        self.px = 4;
        self.py = -2;
        while self.py < 0 && self.collides(self.px, self.py, self.rot)
            invariant
                -2 <= self.py <= 0,
                self.piece < 7,
                self.rot == 0,
                self.px == 4,
                self.grid == old(self).grid,
                self.rng == xorshift(old(self).rng),
                self.piece == rand_below(old(self).rng, 7),
                self.score == old(self).score && self.lines == old(self).lines,
                self.game_over == old(self).game_over,
                self.drop_timer == old(self).drop_timer && self.gyro_timer == old(self).gyro_timer,
                self.did_step == old(self).did_step,
                self.py >= -1 ==> self.collides_now(4, -2, 0),
                self.py >= 0 ==> self.collides_now(4, -1, 0),
            decreases 0 - self.py,
        {
            self.py = self.py + 1;
        }
        if self.collides(self.px, self.py, self.rot) {
            self.game_over = true;
        }
    }

    /// Writes the falling piece into the field.
    fn place_piece(&mut self)
        requires
            old(self).wf(),
        ensures
            final(self)@ == (TetrisView { grid: placed_grid(old(self)@), ..old(self)@ }),
            final(self).wf(),
    {
        let ghost g = grid_view(self.grid);
        let ghost v = self@;
        let mut r: usize = 0;
        while r < 4
            invariant
                r <= 4,
                self.wf(),
                v == old(self)@,
                g == v.grid,
                self.piece == old(self).piece && self.rot == old(self).rot,
                self.px == old(self).px && self.py == old(self).py,
                self.score == old(self).score && self.lines == old(self).lines,
                self.game_over == old(self).game_over && self.rng == old(self).rng,
                self.drop_timer == old(self).drop_timer && self.gyro_timer == old(self).gyro_timer,
                self.did_step == old(self).did_step,
                forall|gr: int, gc: int|
                    0 <= gr < 16 && 0 <= gc < 12 ==> #[trigger] self.grid@[gr]@[gc] == if gr - v.py < r {
                        placed_cell(g, v.piece, v.px, v.py, v.rot, gr, gc)
                    } else {
                        g[gr][gc]
                    },
            decreases 4 - r,
        {
            let mut c: usize = 0;
            while c < 4
                invariant
                    r < 4,
                    c <= 4,
                    self.wf(),
                    v == old(self)@,
                    g == v.grid,
                    self.piece == old(self).piece && self.rot == old(self).rot,
                    self.px == old(self).px && self.py == old(self).py,
                    self.score == old(self).score && self.lines == old(self).lines,
                    self.game_over == old(self).game_over && self.rng == old(self).rng,
                    self.drop_timer == old(self).drop_timer && self.gyro_timer == old(self).gyro_timer,
                    self.did_step == old(self).did_step,
                    forall|gr: int, gc: int|
                        0 <= gr < 16 && 0 <= gc < 12 ==> #[trigger] self.grid@[gr]@[gc] == if gr - v.py < r
                            || (gr - v.py == r && gc - v.px < c) {
                            placed_cell(g, v.piece, v.px, v.py, v.rot, gr, gc)
                        } else {
                            g[gr][gc]
                        },
                decreases 4 - c,
            {
                if Self::shape_filled(self.piece, self.rot, r, c) {
                    let gy: i32 = self.py + r as i32;
                    let gx: i32 = self.px + c as i32;
                    if gy >= 0 && gy < 16 && gx >= 0 && gx < 12 {
                        let mut row = self.grid[gy as usize];
                        row[gx as usize] = self.piece as u8 + 1;
                        self.grid[gy as usize] = row;
                    }
                }
                c += 1;
            }
            r += 1;
        }
        assert(grid_view(self.grid) =~~= placed_grid(v));
    }

    /// Removes full rows (rows above fall down) and scores them.
    fn clear_lines(&mut self)
        requires
            old(self).lines + full_count(grid_view(old(self).grid)) <= u32::MAX,
            old(self).score + line_points(full_count(grid_view(old(self).grid))) <= u32::MAX,
        ensures
            grid_view(final(self).grid) == cleared_grid(grid_view(old(self).grid)),
            final(self).lines == old(self).lines + full_count(grid_view(old(self).grid)),
            final(self).score == old(self).score + line_points(full_count(grid_view(old(self).grid))),
            final(self).piece == old(self).piece && final(self).rot == old(self).rot,
            final(self).px == old(self).px && final(self).py == old(self).py,
            final(self).game_over == old(self).game_over && final(self).rng == old(self).rng,
            final(self).drop_timer == old(self).drop_timer,
            final(self).gyro_timer == old(self).gyro_timer,
            final(self).did_step == old(self).did_step,
    {
        let ghost g = grid_view(self.grid);
        let mut kept: Vec<[u8; GW]> = Vec::new();
        let mut r: usize = 0;
        while r < GH
            invariant
                r <= GH,
                g == grid_view(self.grid),
                kept@.len() == kept_rows(g, r as int).len(),
                forall|i: int| 0 <= i < kept@.len() ==> #[trigger] kept@[i]@ == kept_rows(g, r as int)[i],
            decreases GH - r,
        {
            let row = self.grid[r];
            if !row_is_full(&row) {
                kept.push(row);
            }
            r += 1;
        }
        proof {
            lemma_kept_len(g, 16);
        }
        let off: usize = GH - kept.len();
        let ghost old_grid = self.grid;
        let mut k: usize = 0;
        while k < GH
            invariant
                k <= GH,
                off == full_count(g),
                off + kept@.len() == 16,
                g == grid_view(old_grid),
                kept@.len() == kept_rows(g, 16).len(),
                forall|i: int| 0 <= i < kept@.len() ==> #[trigger] kept@[i]@ == kept_rows(g, 16)[i],
                forall|rr: int| 0 <= rr < k ==> #[trigger] self.grid@[rr]@ == cleared_grid(g)[rr],
                self.piece == old(self).piece && self.rot == old(self).rot,
                self.px == old(self).px && self.py == old(self).py,
                self.score == old(self).score && self.lines == old(self).lines,
                self.game_over == old(self).game_over && self.rng == old(self).rng,
                self.drop_timer == old(self).drop_timer && self.gyro_timer == old(self).gyro_timer,
                self.did_step == old(self).did_step,
            decreases GH - k,
        {
            if k < off {
                self.grid[k] = [0u8; GW];
                assert(self.grid@[k as int]@ =~= cleared_grid(g)[k as int]);
            } else {
                self.grid[k] = kept[k - off];
                assert(self.grid@[k as int]@ =~= cleared_grid(g)[k as int]);
            }
            k += 1;
        }
        assert(grid_view(self.grid) =~~= cleared_grid(g));
        let cleared: u32 = off as u32;
        self.lines = self.lines + cleared;
        let pts: u32 = if cleared == 1 {
            100
        } else if cleared == 2 {
            300
        } else if cleared == 3 {
            500
        } else if cleared == 4 {
            800
        } else {
            0
        };
        self.score = self.score + pts;
    }

    /// The falling piece settles, full rows are cleared, a new piece appears.
    fn lock_piece(&mut self)
        requires
            old(self).wf(),
            lock_fits(old(self)@),
        ensures
            final(self)@ == lock_v(old(self)@),
            final(self).wf(),
    {
        let ghost v = self@;
        self.place_piece();
        let ghost g1 = placed_grid(v);
        self.clear_lines();
        let ghost v2 = self@;
        proof {
            lemma_kept_len(g1, 16);
            assert(v2 == (TetrisView {
                grid: cleared_grid(g1),
                lines: v.lines + full_count(g1),
                score: v.score + line_points(full_count(g1)),
                ..v
            }));
        }
        self.spawn_piece();
    }

    /// Moves the piece `dx` columns if it fits there. Returns whether it moved.
    pub fn try_move(&mut self, dx: i32) -> (moved: bool)
        requires
            old(self).wf(),
            dx == 1 || dx == -1,
        ensures
            final(self)@ == try_move_v(old(self)@, dx as int),
            moved == !old(self).collides_now(old(self).px + dx, old(self).py as int, old(self).rot as int),
            final(self).wf(),
    {
        if !self.collides(self.px + dx, self.py, self.rot) {
            proof {
                lemma_free_bounds(grid_view(self.grid), self.piece as int, self.px + dx, self.py as int, self.rot as int);
            }
            self.px = self.px + dx;
            self.did_step = true;
            true
        } else {
            false
        }
    }

    /// Quarter turn if the turned piece fits.
    fn rotate(&mut self)
        requires
            old(self).wf(),
        ensures
            final(self)@ == rotate_v(old(self)@),
            final(self).wf(),
    {
        let nr = (self.rot + 1) % 4;
        if !self.collides(self.px, self.py, nr) {
            self.rot = nr;
            self.did_step = true;
        }
    }

    /// Drops the piece to its landing row and settles it.
    fn hard_drop(&mut self)
        requires
            old(self).wf(),
            lock_fits(
                TetrisView {
                    py: landing(
                        grid_view(old(self).grid),
                        old(self).piece as int,
                        old(self).px as int,
                        old(self).py as int,
                        old(self).rot as int,
                    ),
                    ..old(self)@
                },
            ),
        ensures
            final(self)@ == drop_v(old(self)@),
            final(self).wf(),
    {
        self.py = self.landing_row();
        self.lock_piece();
        self.did_step = true;
    }

    /// New game: empty field, zero score, a new piece.
    pub fn setup(&mut self)
        ensures
            final(self)@ == setup_v(old(self)@),
            final(self).wf(),
    {
        self.grid = [[0u8; GW]; GH];
        self.score = 0;
        self.lines = 0;
        self.game_over = false;
        self.drop_timer = 0;
        self.gyro_timer = 0;
        assert(grid_view(self.grid) =~~= Seq::new(16, |r: int| Seq::new(12, |c: int| 0u8)));
        self.spawn_piece();
        self.did_step = true;
    }

    /// One frame with the frame's swipe, tap, tilt and elapsed milliseconds.
    pub fn update(&mut self, swipe: Option<SwipeDirection>, tap: bool, tilt: Tilt, dt_ms: u32) -> (r: AppResult)
        requires
            old(self).wf(),
            !old(self).game_over ==> frame_fits(old(self)@, swipe, tilt, dt_ms as int),
        ensures
            r == AppResult::Continue,
            final(self)@ == update_v(old(self)@, swipe, tap, tilt, dt_ms as int),
            final(self).wf(),
    {
        self.did_step = false;
        if self.game_over {
            if tap {
                self.setup();
            }
            return AppResult::Continue;
        }
        match swipe {
            Some(SwipeDirection::Left) => {
                self.try_move(-1);
            },
            Some(SwipeDirection::Right) => {
                self.try_move(1);
            },
            Some(SwipeDirection::Down) => {
                self.hard_drop();
            },
            Some(SwipeDirection::Tap) | Some(SwipeDirection::Up) => {
                self.rotate();
            },
            None => {},
        }
        self.gyro_step(tilt, dt_ms);
        let ghost v2 = self@;
        let speed: u32 = self.drop_interval_ms();
        self.drop_timer = self.drop_timer + dt_ms;
        if self.drop_timer >= speed {
            self.drop_timer = self.drop_timer - speed;
            if !self.collides(self.px, self.py + 1, self.rot) {
                proof {
                    lemma_free_bounds(grid_view(self.grid), self.piece as int, self.px as int, self.py + 1, self.rot as int);
                }
                self.py = self.py + 1;
            } else {
                self.lock_piece();
            }
            self.did_step = true;
        }
        assert(self@ == tick_v(v2, dt_ms as int));
        AppResult::Continue
    }

    /// Tilt control for one frame.
    fn gyro_step(&mut self, tilt: Tilt, dt_ms: u32)
        requires
            old(self).wf(),
            old(self).gyro_timer + dt_ms <= u32::MAX,
        ensures
            final(self)@ == gyro_v(old(self)@, tilt, dt_ms as int),
            final(self).wf(),
    {
        self.gyro_timer = self.gyro_timer + dt_ms;
        if self.gyro_timer >= GYRO_MOVE_MS {
            self.gyro_timer = self.gyro_timer - GYRO_MOVE_MS;
            match tilt {
                Tilt::Right => {
                    self.try_move(1);
                },
                Tilt::Left => {
                    self.try_move(-1);
                },
                Tilt::Level => {},
            }
        }
    }

    /// An unchanged copy of the game.
    fn snapshot(&self) -> (c: Self)
        ensures
            c == *self,
    {
        TetrisGame {
            grid: self.grid,
            piece: self.piece,
            rot: self.rot,
            px: self.px,
            py: self.py,
            score: self.score,
            lines: self.lines,
            game_over: self.game_over,
            drop_timer: self.drop_timer,
            gyro_timer: self.gyro_timer,
            rng: self.rng,
            did_step: self.did_step,
        }
    }

    /// Whether settling the piece where it is keeps lines and score within 32 bits.
    fn can_lock(&self) -> (b: bool)
        requires
            self.wf(),
        ensures
            b == lock_fits(self@),
    {
        let mut g = self.snapshot();
        g.place_piece();
        let n = full_rows(&g.grid);
        let pts: u64 = if n == 1 {
            100
        } else if n == 2 {
            300
        } else if n == 3 {
            500
        } else if n == 4 {
            800
        } else {
            0
        };
        self.lines as u64 + n as u64 <= u32::MAX as u64 && self.score as u64 + pts <= u32::MAX as u64
    }

    /// Whether the counters of the next frame fit their 32-bit fields
    /// (`frame_fits`); always true once the game is over, where a frame
    /// does no arithmetic.
    pub fn frame_fits_check(&self, swipe: Option<SwipeDirection>, tilt: Tilt, dt_ms: u32) -> (b: bool)
        requires
            self.wf(),
        ensures
            b == (!self.game_over ==> frame_fits(self@, swipe, tilt, dt_ms as int)),
    {
        if self.game_over {
            return true;
        }
        if self.gyro_timer as u64 + dt_ms as u64 > u32::MAX as u64 || self.drop_timer as u64 + dt_ms as u64
            > u32::MAX as u64 {
            return false;
        }
        let mut g = self.snapshot();
        g.did_step = false;
        match swipe {
            Some(SwipeDirection::Left) => {
                g.try_move(-1);
            },
            Some(SwipeDirection::Right) => {
                g.try_move(1);
            },
            Some(SwipeDirection::Down) => {
                let mut h = g.snapshot();
                h.py = h.landing_row();
                if !h.can_lock() {
                    return false;
                }
                g.hard_drop();
            },
            Some(SwipeDirection::Tap) | Some(SwipeDirection::Up) => {
                g.rotate();
            },
            None => {},
        }
        g.gyro_step(tilt, dt_ms);
        if g.lines > MAX_LINES {
            return false;
        }
        let speed: u32 = g.drop_interval_ms();
        let t: u32 = g.drop_timer + dt_ms;
        if t >= speed && g.collides(g.px, g.py + 1, g.rot) {
            g.drop_timer = t - speed;
            return g.can_lock();
        }
        true
    }

    /// Appends the cells of the falling piece with its box's top at row `y`.
    fn push_shape_cells(&self, out: &mut Vec<(i32, i32, bool)>, y: i32, shadow: bool)
        requires
            self.wf(),
            -2 <= y <= 15,
        ensures
            final(out)@ == old(out)@ + shape_cells(
                self.piece as int,
                self.rot as int,
                self.px as int,
                y as int,
                shadow,
                16,
            ),
    {
        let mut i: usize = 0;
        while i < 16
            invariant
                i <= 16,
                self.wf(),
                -2 <= y <= 15,
                out@ == old(out)@ + shape_cells(self.piece as int, self.rot as int, self.px as int, y as int, shadow, i as int),
            decreases 16 - i,
        {
            let r = i / 4;
            let c = i % 4;
            let row: i32 = y + r as i32;
            let col: i32 = self.px + c as i32;
            if self.shape_cell(r, c) && 0 <= row && row < 16 {
                out.push((col, row, shadow));
            }
            proof {
                let s = shape_cells(self.piece as int, self.rot as int, self.px as int, y as int, shadow, i as int);
                assert((old(out)@ + s).push((col, row, shadow)) =~= old(out)@ + s.push((col, row, shadow)));
            }
            i += 1;
        }
    }

    /// The cells to draw for the falling piece: its landing shadow first
    /// (when below the piece), then the piece, clipped to the field's rows;
    /// none once the game is over.
    pub fn visible_cells(&self) -> (r: Vec<(i32, i32, bool)>)
        requires
            self.wf(),
        ensures
            r@ == spec_visible_cells(self@),
    {
        let mut out: Vec<(i32, i32, bool)> = Vec::new();
        if self.game_over {
            return out;
        }
        let gy = self.landing_row();
        if gy != self.py {
            self.push_shape_cells(&mut out, gy, true);
        }
        let ghost mid = out@;
        self.push_shape_cells(&mut out, self.py, false);
        proof {
            if gy == self.py {
                assert(mid =~= Seq::<(i32, i32, bool)>::empty());
            }
        }
        out
    }

    /// Current drop interval in ms.
    pub fn drop_interval_ms(&self) -> (ms: u32)
        requires
            self.lines <= MAX_LINES,
        ensures
            ms == drop_interval(self.lines as int),
    {
        let v: i32 = DROP_MS as i32 - self.lines as i32 * 30;
        if v < 150 {
            150
        } else {
            v as u32
        }
    }

    pub fn stepped(&self) -> (b: bool)
        ensures
            b == self.did_step,
    {
        self.did_step
    }
}

/// A counter label: the last five decimal digits, without leading zeros.
pub fn fmt_num(val: u32) -> (r: Vec<u8>)
    ensures
        r@ == capped_decimal(val as nat, 5),
{
    let mut out: Vec<u8> = Vec::new();
    push_capped_decimal(&mut out, val, 5);
    assert(out@ =~= capped_decimal(val as nat, 5));
    out
}

} // verus!

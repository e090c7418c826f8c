//! 2048 on a 4x4 board: swipe to slide all tiles, equal neighbours merge.

use vstd::prelude::*;
use crate::apps::AppResult;
use crate::apps::rng::{xorshift, rand_below, random_below};
use crate::peripherals::touch::SwipeDirection;
use crate::text::{capped_decimal, push_all, push_capped_decimal, utf8_or};
use vstd::utf8::valid_utf8;
use crate::ui::color::{rgb565, spec_rgb565};

verus! {

pub const GRID: usize = 4;

// ---------------------------------------------------------------------------
// Lines
// ---------------------------------------------------------------------------

/// The non-empty tiles of a line, in order.
pub open spec fn nonzero(s: Seq<u16>) -> Seq<u16>
    decreases s.len(),
{
    if s.len() == 0 {
        seq![]
    } else if s[0] == 0 {
        nonzero(s.drop_first())
    } else {
        seq![s[0]] + nonzero(s.drop_first())
    }
}

/// Equal neighbours merged pairwise from the front; a merged tile does not merge again.
pub open spec fn merge_pairs(s: Seq<u16>) -> Seq<u16>
    decreases s.len(),
{
    if s.len() < 2 {
        s
    } else if s[0] == s[1] {
        seq![(2 * s[0]) as u16] + merge_pairs(s.skip(2))
    } else {
        seq![s[0]] + merge_pairs(s.drop_first())
    }
}

/// Points earned by the merges of `merge_pairs`: the value of every merged tile.
pub open spec fn merge_points(s: Seq<u16>) -> int
    decreases s.len(),
{
    if s.len() < 2 {
        0
    } else if s[0] == s[1] {
        2 * s[0] + merge_points(s.skip(2))
    } else {
        merge_points(s.drop_first())
    }
}

/// Every merged tile fits in 16 bits.
pub open spec fn merge_fits(s: Seq<u16>) -> bool
    decreases s.len(),
{
    if s.len() < 2 {
        true
    } else if s[0] == s[1] {
        2 * s[0] <= 0xFFFF && merge_fits(s.skip(2))
    } else {
        merge_fits(s.drop_first())
    }
}

pub open spec fn pad_zeros(s: Seq<u16>, n: nat) -> Seq<u16> {
    s + Seq::new((n - s.len()) as nat, |i: int| 0u16)
}

/// A line slid towards its start: tiles packed, equal neighbours merged, zeros after.
pub open spec fn slide_line(s: Seq<u16>) -> Seq<u16> {
    pad_zeros(merge_pairs(nonzero(s)), s.len())
}

pub open spec fn pend_seq(p: Option<u16>) -> Seq<u16> {
    match p {
        Some(v) => seq![v],
        None => seq![],
    }
}

proof fn lemma_nonzero_step(s: Seq<u16>, i: int)
    requires
        0 <= i < s.len(),
    ensures
        nonzero(s.skip(i)) == if s[i] == 0 {
            nonzero(s.skip(i + 1))
        } else {
            seq![s[i]] + nonzero(s.skip(i + 1))
        },
{
    assert(s.skip(i).drop_first() =~= s.skip(i + 1));
    assert(s.skip(i)[0] == s[i]);
}

proof fn lemma_merge_two(p: u16, v: u16, rest: Seq<u16>)
    ensures
        ({
            let s = seq![p] + (seq![v] + rest);
            &&& merge_pairs(s) == if p == v {
                seq![(2 * p) as u16] + merge_pairs(rest)
            } else {
                seq![p] + merge_pairs(seq![v] + rest)
            }
            &&& merge_points(s) == if p == v {
                2 * p + merge_points(rest)
            } else {
                merge_points(seq![v] + rest)
            }
            &&& merge_fits(s) == if p == v {
                2 * p <= 0xFFFF && merge_fits(rest)
            } else {
                merge_fits(seq![v] + rest)
            }
        }),
{
    let s = seq![p] + (seq![v] + rest);
    assert(s[0] == p && s[1] == v);
    assert(s.skip(2) =~= rest);
    assert(s.drop_first() =~= seq![v] + rest);
}

proof fn lemma_merge_short(s: Seq<u16>)
    requires
        s.len() < 2,
    ensures
        merge_pairs(s) == s,
        merge_points(s) == 0,
{
}

/// Slides `row` towards index 0 (merging equal neighbours once). Returns whether
/// anything changed and the points the merges earned.
pub fn slide_row(row: &mut [u16; GRID]) -> (r: (bool, u32))
    requires
        merge_fits(nonzero(old(row)@)),
    ensures
        final(row)@ == slide_line(old(row)@),
        r.0 == (final(row)@ != old(row)@),
        r.1 == merge_points(nonzero(old(row)@)),
{
    let ghost orig = row@;
    let mut out: Vec<u16> = Vec::new();
    let mut pending: Option<u16> = None;
    let mut pts: u32 = 0;
    let mut i: usize = 0;
    assert(orig.skip(0) =~= orig);
    while i < GRID
        invariant
            i <= GRID,
            row@ == orig,
            orig.len() == 4,
            merge_pairs(nonzero(orig)) == out@ + merge_pairs(
                pend_seq(pending) + nonzero(orig.skip(i as int)),
            ),
            merge_points(nonzero(orig)) == pts + merge_points(
                pend_seq(pending) + nonzero(orig.skip(i as int)),
            ),
            merge_fits(pend_seq(pending) + nonzero(orig.skip(i as int))),
            out@.len() + pend_seq(pending).len() <= i,
            pts <= i * 0xFFFF,
        decreases GRID - i,
    {
        let v = row[i];
        proof {
            lemma_nonzero_step(orig, i as int);
        }
        let ghost rest = nonzero(orig.skip(i + 1));
        if v != 0 {
            match pending {
                None => {
                    assert(pend_seq(pending) + nonzero(orig.skip(i as int)) =~= pend_seq(Some(v))
                        + rest);
                    pending = Some(v);
                },
                Some(p) => {
                    proof {
                        lemma_merge_two(p, v, rest);
                    }
                    assert(pend_seq(pending) + nonzero(orig.skip(i as int)) =~= seq![p] + (seq![v]
                        + rest));
                    if p == v {
                        let m: u16 = p * 2;
                        proof {
                            assert(out@ + (seq![m] + merge_pairs(rest)) =~= out@.push(m)
                                + merge_pairs(pend_seq(None) + rest));
                            assert(pend_seq(None) + rest =~= rest);
                        }
                        out.push(m);
                        pts = pts + m as u32;
                        pending = None;
                    } else {
                        proof {
                            assert(out@ + (seq![p] + merge_pairs(seq![v] + rest)) =~= out@.push(p)
                                + merge_pairs(pend_seq(Some(v)) + rest));
                        }
                        out.push(p);
                        pending = Some(v);
                    }
                },
            }
        } else {
            assert(pend_seq(pending) + nonzero(orig.skip(i as int)) =~= pend_seq(pending) + rest);
        }
        i += 1;
    }
    assert(orig.skip(4) =~= Seq::<u16>::empty());
    assert(pend_seq(pending) + nonzero(orig.skip(4)) =~= pend_seq(pending));
    proof {
        lemma_merge_short(pend_seq(pending));
    }
    match pending {
        Some(p) => {
            out.push(p);
        },
        None => {},
    }
    assert(merge_pairs(nonzero(orig)) =~= out@);
    let ghost slid = slide_line(orig);
    assert(slid.len() == 4);
    let mut changed = false;
    let mut k: usize = 0;
    while k < GRID
        invariant
            k <= GRID,
            out@ == merge_pairs(nonzero(orig)),
            out@.len() <= 4,
            slid == slide_line(orig),
            slid.len() == 4,
            orig.len() == 4,
            forall|j: int| 0 <= j < k ==> row@[j] == slid[j],
            forall|j: int| k <= j < 4 ==> row@[j] == orig[j],
            !changed ==> forall|j: int| 0 <= j < k ==> slid[j] == orig[j],
            changed ==> exists|j: int| 0 <= j < k && slid[j] != orig[j],
        decreases GRID - k,
    {
        let nv: u16 = if k < out.len() {
            out[k]
        } else {
            0
        };
        assert(nv == slid[k as int]);
        if row[k] != nv {
            changed = true;
        }
        row[k] = nv;
        k += 1;
    }
    assert(row@ =~= slid);
    if !changed {
        assert(row@ =~= orig);
    }
    (changed, pts)
}

/// Whether merging the tiles of `line` stays within 16 bits, and the points
/// the merges earn.
pub fn line_merge_check(line: &[u16; GRID]) -> (r: (bool, u32))
    ensures
        r.0 == merge_fits(nonzero(line@)),
        r.0 ==> r.1 == merge_points(nonzero(line@)),
        r.1 <= 4 * 0x1FFFE,
{
    let ghost orig = line@;
    let mut pending: Option<u16> = None;
    let mut pts: u32 = 0;
    let mut fits = true;
    let mut i: usize = 0;
    assert(orig.skip(0) =~= orig);
    while i < GRID
        invariant
            i <= GRID,
            line@ == orig,
            orig.len() == 4,
            merge_fits(nonzero(orig)) == (fits && merge_fits(pend_seq(pending) + nonzero(orig.skip(i as int)))),
            fits ==> merge_points(nonzero(orig)) == pts + merge_points(pend_seq(pending) + nonzero(orig.skip(i as int))),
            pts <= i * 0x1FFFE,
        decreases GRID - i,
    {
        let v = line[i];
        proof {
            lemma_nonzero_step(orig, i as int);
        }
        let ghost rest = nonzero(orig.skip(i + 1));
        if v != 0 {
            match pending {
                None => {
                    assert(pend_seq(pending) + nonzero(orig.skip(i as int)) =~= pend_seq(Some(v)) + rest);
                    pending = Some(v);
                },
                Some(p) => {
                    proof {
                        lemma_merge_two(p, v, rest);
                    }
                    assert(pend_seq(pending) + nonzero(orig.skip(i as int)) =~= seq![p] + (seq![v] + rest));
                    if p == v {
                        if p > 0x7FFF {
                            fits = false;
                        } else {
                            pts = pts + 2 * (p as u32);
                        }
                        assert(pend_seq(None) + rest =~= rest);
                        pending = None;
                    } else {
                        pending = Some(v);
                    }
                },
            }
        } else {
            assert(pend_seq(pending) + nonzero(orig.skip(i as int)) =~= pend_seq(pending) + rest);
        }
        i += 1;
    }
    assert(orig.skip(4) =~= Seq::<u16>::empty());
    assert(pend_seq(pending) + nonzero(orig.skip(4)) =~= pend_seq(pending));
    proof {
        lemma_merge_short(pend_seq(pending));
    }
    (fits, pts)
}

/// Sliding keeps the total of the tile values: merging trades two tiles for
/// one of twice the value.
pub proof fn lemma_slide_keeps_total(s: Seq<u16>)
    requires
        merge_fits(nonzero(s)),
    ensures
        total(slide_line(s)) == total(s),
{
    lemma_total_nonzero(s);
    lemma_total_merge(nonzero(s));
    lemma_total_pad(merge_pairs(nonzero(s)), s.len());
}

/// Sum of the values of a line.
pub open spec fn total(s: Seq<u16>) -> int
    decreases s.len(),
{
    if s.len() == 0 {
        0
    } else {
        s[0] + total(s.drop_first())
    }
}

proof fn lemma_total_concat(a: Seq<u16>, b: Seq<u16>)
    ensures
        total(a + b) == total(a) + total(b),
    decreases a.len(),
{
    if a.len() > 0 {
        assert((a + b).drop_first() =~= a.drop_first() + b);
        lemma_total_concat(a.drop_first(), b);
    } else {
        assert(a + b =~= b);
    }
}

proof fn lemma_total_single(x: u16)
    ensures
        total(seq![x]) == x,
{
    assert(seq![x].drop_first() =~= Seq::<u16>::empty());
    assert(total(Seq::<u16>::empty()) == 0);
    assert(total(seq![x]) == seq![x][0] + total(seq![x].drop_first()));
}

proof fn lemma_total_nonzero(s: Seq<u16>)
    ensures
        total(nonzero(s)) == total(s),
    decreases s.len(),
{
    if s.len() > 0 {
        lemma_total_nonzero(s.drop_first());
        if s[0] != 0 {
            lemma_total_concat(seq![s[0]], nonzero(s.drop_first()));
            lemma_total_single(s[0]);
        }
    }
}

proof fn lemma_total_merge(s: Seq<u16>)
    requires
        merge_fits(s),
    ensures
        total(merge_pairs(s)) == total(s),
    decreases s.len(),
{
    if s.len() >= 2 {
        if s[0] == s[1] {
            lemma_total_merge(s.skip(2));
            lemma_total_concat(seq![(2 * s[0]) as u16], merge_pairs(s.skip(2)));
            lemma_total_single((2 * s[0]) as u16);
            assert(s.drop_first().drop_first() =~= s.skip(2));
            assert(total(s) == s[0] + total(s.drop_first()));
            assert(total(s.drop_first()) == s[1] + total(s.drop_first().drop_first()));
        } else {
            lemma_total_merge(s.drop_first());
            lemma_total_concat(seq![s[0]], merge_pairs(s.drop_first()));
            lemma_total_single(s[0]);
        }
    }
}

proof fn lemma_total_zeros(n: nat)
    ensures
        total(Seq::new(n, |i: int| 0u16)) == 0,
    decreases n,
{
    if n > 0 {
        assert(Seq::new(n, |i: int| 0u16).drop_first() =~= Seq::new((n - 1) as nat, |i: int| 0u16));
        lemma_total_zeros((n - 1) as nat);
    }
}

proof fn lemma_total_pad(s: Seq<u16>, n: nat)
    ensures
        total(pad_zeros(s, n)) == total(s),
{
    lemma_total_concat(s, Seq::new((n - s.len()) as nat, |i: int| 0u16));
    lemma_total_zeros((n - s.len()) as nat);
}

// ---------------------------------------------------------------------------
// Board (row-major, 16 cells)
// ---------------------------------------------------------------------------

/// Cell of the `j`-th tile of line `k` when sliding in `dir`: lines are rows
/// for Left/Right and columns for Up/Down, read in the direction of travel.
pub open spec fn cell_index(dir: SwipeDirection, k: int, j: int) -> int {
    match dir {
        SwipeDirection::Left => 4 * k + j,
        SwipeDirection::Right => 4 * k + 3 - j,
        SwipeDirection::Up => 4 * j + k,
        SwipeDirection::Down => 4 * (3 - j) + k,
        SwipeDirection::Tap => 4 * k + j,
    }
}

/// The line a cell belongs to when sliding in `dir`.
pub open spec fn line_num(dir: SwipeDirection, i: int) -> int {
    match dir {
        SwipeDirection::Up | SwipeDirection::Down => i % 4,
        _ => i / 4,
    }
}

/// The position of a cell within its line when sliding in `dir`.
pub open spec fn line_pos(dir: SwipeDirection, i: int) -> int {
    match dir {
        SwipeDirection::Left => i % 4,
        SwipeDirection::Right => 3 - i % 4,
        SwipeDirection::Up => i / 4,
        SwipeDirection::Down => 3 - i / 4,
        SwipeDirection::Tap => i % 4,
    }
}

/// Line `k` of board `b` in the direction of travel.
pub open spec fn board_line(b: Seq<u16>, dir: SwipeDirection, k: int) -> Seq<u16> {
    Seq::new(4, |j: int| b[cell_index(dir, k, j)])
}

/// The board after sliding every line in `dir` (a tap moves nothing).
pub open spec fn moved_board(b: Seq<u16>, dir: SwipeDirection) -> Seq<u16> {
    if dir == SwipeDirection::Tap {
        b
    } else {
        Seq::new(16, |i: int| slide_line(board_line(b, dir, line_num(dir, i)))[line_pos(dir, i)])
    }
}

/// Points earned by the first `n` lines of a move.
pub open spec fn move_points_upto(b: Seq<u16>, dir: SwipeDirection, n: int) -> int
    decreases n,
{
    if n <= 0 {
        0
    } else {
        move_points_upto(b, dir, n - 1) + merge_points(nonzero(board_line(b, dir, n - 1)))
    }
}

/// Points earned by a move.
pub open spec fn move_points(b: Seq<u16>, dir: SwipeDirection) -> int {
    if dir == SwipeDirection::Tap {
        0
    } else {
        move_points_upto(b, dir, 4)
    }
}

/// No merge of the move overflows a 16-bit tile (a tap merges nothing).
pub open spec fn move_fits(b: Seq<u16>, dir: SwipeDirection) -> bool {
    dir == SwipeDirection::Tap || forall|k: int| 0 <= k < 4 ==> #[trigger] merge_fits(nonzero(board_line(b, dir, k)))
}

proof fn lemma_index_maps(dir: SwipeDirection)
    requires
        dir != SwipeDirection::Tap,
    ensures
        forall|k: int, j: int|
            0 <= k < 4 && 0 <= j < 4 ==> {
                let i = #[trigger] cell_index(dir, k, j);
                &&& 0 <= i < 16
                &&& line_num(dir, i) == k
                &&& line_pos(dir, i) == j
            },
        forall|i: int|
            0 <= i < 16 ==> {
                &&& 0 <= #[trigger] line_num(dir, i) < 4
                &&& 0 <= line_pos(dir, i) < 4
                &&& cell_index(dir, line_num(dir, i), line_pos(dir, i)) == i
            },
{
}

/// The empty cells among the first `n`, in increasing order.
pub open spec fn empty_cells(b: Seq<u16>, n: int) -> Seq<usize>
    decreases n,
{
    if n <= 0 {
        seq![]
    } else if b[n - 1] == 0 {
        empty_cells(b, n - 1).push((n - 1) as usize)
    } else {
        empty_cells(b, n - 1)
    }
}

proof fn lemma_empty_cells_bounds(b: Seq<u16>, n: int)
    requires
        0 <= n,
    ensures
        empty_cells(b, n).len() <= n,
        forall|e: int| 0 <= e < empty_cells(b, n).len() ==> #[trigger] empty_cells(b, n)[e] < n,
    decreases n,
{
    if n > 0 {
        lemma_empty_cells_bounds(b, n - 1);
    }
}

/// Board and generator state after placing a new tile: a 2 (or, one time in
/// ten, a 4) in an empty cell chosen at random; nothing happens on a full board.
pub open spec fn spawned(b: Seq<u16>, rng: u32) -> (Seq<u16>, u32) {
    let e = empty_cells(b, 16);
    if e.len() == 0 {
        (b, rng)
    } else {
        let idx = rand_below(rng, e.len() as u32);
        let s1 = xorshift(rng);
        let val: u16 = if rand_below(s1, 10) < 1 {
            4
        } else {
            2
        };
        (b.update(e[idx as int] as int, val), xorshift(s1))
    }
}

/// The 2048 game.
pub struct Game2048 {
    /// Tile values, row-major (0 = empty).
    pub tiles: [u16; 16],
    pub score: u32,
    pub game_over: bool,
    pub rng: u32,
    pub moved: bool,
}

impl Game2048 {
    /// A fresh game: empty board with two tiles placed, score 0.
    pub fn new() -> (g: Self)
        ensures
            ({
                let (b1, r1) = spawned(Seq::new(16, |i: int| 0u16), 54321);
                let (b2, r2) = spawned(b1, r1);
                g.tiles@ == b2 && g.rng == r2
            }),
            g.score == 0,
            !g.game_over,
            !g.moved,
    {
        let mut g = Game2048 { tiles: [0u16; 16], score: 0, game_over: false, rng: 54321, moved: false };
        assert(g.tiles@ =~= Seq::new(16, |i: int| 0u16));
        g.spawn_tile();
        g.spawn_tile();
        g
    }

    /// Restart: empty board, score 0, two new tiles (the generator carries on).
    pub fn setup(&mut self)
        ensures
            ({
                let (b1, r1) = spawned(Seq::new(16, |i: int| 0u16), old(self).rng);
                let (b2, r2) = spawned(b1, r1);
                final(self).tiles@ == b2 && final(self).rng == r2
            }),
            final(self).score == 0,
            !final(self).game_over,
            final(self).moved == old(self).moved,
    {
        self.tiles = [0u16; 16];
        self.score = 0;
        self.game_over = false;
        assert(self.tiles@ =~= Seq::new(16, |i: int| 0u16));
        self.spawn_tile();
        self.spawn_tile();
    }

    /// Places a 2 or a 4 in a random empty cell.
    pub fn spawn_tile(&mut self)
        ensures
            (final(self).tiles@, final(self).rng) == spawned(old(self).tiles@, old(self).rng),
            final(self).score == old(self).score,
            final(self).game_over == old(self).game_over,
            final(self).moved == old(self).moved,
    {
        let ghost b = self.tiles@;
        let mut empty: Vec<usize> = Vec::new();
        let mut i: usize = 0;
        while i < 16
            invariant
                i <= 16,
                self.tiles@ == b,
                b.len() == 16,
                empty@ == empty_cells(b, i as int),
            decreases 16 - i,
        {
            if self.tiles[i] == 0 {
                empty.push(i);
            }
            i += 1;
        }
        proof {
            lemma_empty_cells_bounds(b, 16);
        }
        let count = empty.len();
        if count > 0 {
            let idx = random_below(&mut self.rng, count as u32);
            let cell = empty[idx as usize];
            let val: u16 = if random_below(&mut self.rng, 10) < 1 {
                4
            } else {
                2
            };
            self.tiles[cell] = val;
        }
    }

    /// Slides line `k` of the board in `dir`; returns whether it changed and its points.
    fn slide_one_line(&mut self, dir: SwipeDirection, k: usize) -> (r: (bool, u32))
        requires
            k < 4,
            dir != SwipeDirection::Tap,
            merge_fits(nonzero(board_line(old(self).tiles@, dir, k as int))),
        ensures
            forall|i: int|
                0 <= i < 16 && line_num(dir, i) == k ==> final(self).tiles@[i] == slide_line(
                    board_line(old(self).tiles@, dir, k as int),
                )[line_pos(dir, i)],
            forall|i: int|
                0 <= i < 16 && line_num(dir, i) != k ==> final(self).tiles@[i] == old(self).tiles@[i],
            r.0 == (slide_line(board_line(old(self).tiles@, dir, k as int)) != board_line(
                old(self).tiles@,
                dir,
                k as int,
            )),
            r.1 == merge_points(nonzero(board_line(old(self).tiles@, dir, k as int))),
            slide_line(board_line(old(self).tiles@, dir, k as int)).len() == 4,
            final(self).score == old(self).score,
            final(self).rng == old(self).rng,
            final(self).game_over == old(self).game_over,
            final(self).moved == old(self).moved,
    {
        proof {
            lemma_index_maps(dir);
        }
        let ghost b = self.tiles@;
        let i0 = Self::cell(dir, k, 0);
        let i1 = Self::cell(dir, k, 1);
        let i2 = Self::cell(dir, k, 2);
        let i3 = Self::cell(dir, k, 3);
        let mut line: [u16; 4] = [self.tiles[i0], self.tiles[i1], self.tiles[i2], self.tiles[i3]];
        assert(line@ =~= board_line(b, dir, k as int));
        let r = slide_row(&mut line);
        self.tiles[i0] = line[0];
        self.tiles[i1] = line[1];
        self.tiles[i2] = line[2];
        self.tiles[i3] = line[3];
        assert forall|i: int| 0 <= i < 16 && line_num(dir, i) == k implies self.tiles@[i]
            == line@[line_pos(dir, i)] by {
            assert(cell_index(dir, k as int, line_pos(dir, i)) == i);
        }
        r
    }

    /// Slides every line in `dir`, adding the merge points to the score.
    /// Returns whether any tile moved.
    pub fn slide_board(&mut self, dir: SwipeDirection) -> (moved: bool)
        requires
            move_fits(old(self).tiles@, dir),
            old(self).score + move_points(old(self).tiles@, dir) <= u32::MAX,
        ensures
            final(self).tiles@ == moved_board(old(self).tiles@, dir),
            final(self).score == old(self).score + move_points(old(self).tiles@, dir),
            moved == (final(self).tiles@ != old(self).tiles@),
            final(self).rng == old(self).rng,
            final(self).game_over == old(self).game_over,
            final(self).moved == old(self).moved,
    {
        if dir == SwipeDirection::Tap {
            return false;
        }
        let ghost b = self.tiles@;
        let ghost target = moved_board(b, dir);
        proof {
            lemma_index_maps(dir);
        }
        let mut moved = false;
        let mut k: usize = 0;
        while k < 4
            invariant
                k <= 4,
                dir != SwipeDirection::Tap,
                b.len() == 16,
                self.tiles@.len() == 16,
                target == moved_board(b, dir),
                move_fits(b, dir),
                old(self).score + move_points(b, dir) <= u32::MAX,
                b == old(self).tiles@,
                self.score == old(self).score + move_points_upto(b, dir, k as int),
                self.rng == old(self).rng,
                self.game_over == old(self).game_over,
                self.moved == old(self).moved,
                forall|i: int| 0 <= i < 16 && line_num(dir, i) < k ==> self.tiles@[i] == target[i],
                forall|i: int| 0 <= i < 16 && line_num(dir, i) >= k ==> self.tiles@[i] == b[i],
                moved ==> exists|i: int| 0 <= i < 16 && line_num(dir, i) < k && target[i] != b[i],
                !moved ==> forall|i: int| 0 <= i < 16 && line_num(dir, i) < k ==> target[i] == b[i],
            decreases 4 - k,
        {
            proof {
                lemma_index_maps(dir);
            }
            let ghost cur = self.tiles@;
            assert(board_line(cur, dir, k as int) =~= board_line(b, dir, k as int));
            assert(merge_fits(nonzero(board_line(b, dir, k as int))));
            let ghost slid = slide_line(board_line(b, dir, k as int));
            let (m, p) = self.slide_one_line(dir, k);
            proof {
                lemma_points_upto_bound(b, dir, k as int + 1, 4);
            }
            self.score = self.score + p;
            assert forall|i: int| 0 <= i < 16 && line_num(dir, i) == k implies self.tiles@[i]
                == target[i] by {}
            if m {
                moved = true;
                assert(!(slid =~= board_line(b, dir, k as int)));
                assert(exists|j: int| 0 <= j < 4 && slid[j] != board_line(b, dir, k as int)[j]);
                let ghost j = choose|j: int| 0 <= j < 4 && slid[j] != board_line(b, dir, k as int)[j];
                let ghost ci = cell_index(dir, k as int, j);
                assert(target[ci] == slid[j]);
                assert(b[ci] == board_line(b, dir, k as int)[j]);
                assert(line_num(dir, ci) < k + 1 && 0 <= ci < 16 && target[ci] != b[ci]);
            } else {
                assert(slid =~= board_line(b, dir, k as int));
                assert forall|i: int| 0 <= i < 16 && line_num(dir, i) == k implies target[i]
                    == b[i] by {
                    assert(b[i] == board_line(b, dir, k as int)[line_pos(dir, i)]);
                }
            }
            k += 1;
        }
        assert(self.tiles@ =~= target);
        if !moved {
            assert(target =~= b);
        }
        moved
    }

    /// Cell index of tile `j` of line `k` when sliding in `dir`.
    fn cell(dir: SwipeDirection, k: usize, j: usize) -> (r: usize)
        requires
            k < 4,
            j < 4,
        ensures
            r == cell_index(dir, k as int, j as int),
    {
        match dir {
            SwipeDirection::Left => 4 * k + j,
            SwipeDirection::Right => 4 * k + 3 - j,
            SwipeDirection::Up => 4 * j + k,
            SwipeDirection::Down => 4 * (3 - j) + k,
            SwipeDirection::Tap => 4 * k + j,
        }
    }

    /// Whether a move in `dir` can be made: no merged tile overflows 16 bits
    /// and the score stays within 32 bits.
    pub fn move_is_safe(&self, dir: SwipeDirection) -> (ok: bool)
        ensures
            ok == (move_fits(self.tiles@, dir) && self.score + move_points(self.tiles@, dir) <= u32::MAX),
    {
        if dir == SwipeDirection::Tap {
            return true;
        }
        let ghost b = self.tiles@;
        proof {
            lemma_index_maps(dir);
        }
        let mut total: u64 = self.score as u64;
        let mut k: usize = 0;
        while k < 4
            invariant
                k <= 4,
                dir != SwipeDirection::Tap,
                b == self.tiles@,
                b.len() == 16,
                forall|k2: int| 0 <= k2 < k ==> #[trigger] merge_fits(nonzero(board_line(b, dir, k2))),
                total == self.score + move_points_upto(b, dir, k as int),
                total <= u32::MAX + k * 4 * 0x1FFFE,
            decreases 4 - k,
        {
            proof {
                lemma_index_maps(dir);
            }
            let line: [u16; GRID] = [
                self.tiles[Self::cell(dir, k, 0)],
                self.tiles[Self::cell(dir, k, 1)],
                self.tiles[Self::cell(dir, k, 2)],
                self.tiles[Self::cell(dir, k, 3)],
            ];
            assert(line@ =~= board_line(b, dir, k as int));
            let (fits, p) = line_merge_check(&line);
            if !fits {
                return false;
            }
            total = total + p as u64;
            k += 1;
        }
        total <= u32::MAX as u64
    }

    /// One move: slide every line in `dir`; if anything moved, place a new tile.
    pub fn do_move(&mut self, dir: SwipeDirection)
        requires
            move_fits(old(self).tiles@, dir),
            old(self).score + move_points(old(self).tiles@, dir) <= u32::MAX,
        ensures
            final(self).moved == (moved_board(old(self).tiles@, dir) != old(self).tiles@),
            final(self).score == old(self).score + move_points(old(self).tiles@, dir),
            final(self).moved ==> (final(self).tiles@, final(self).rng) == spawned(
                moved_board(old(self).tiles@, dir),
                old(self).rng,
            ),
            !final(self).moved ==> final(self).tiles@ == old(self).tiles@ && final(self).rng == old(
                self,
            ).rng,
            final(self).game_over == old(self).game_over,
    {
        let m = self.slide_board(dir);
        self.moved = m;
        if m {
            self.spawn_tile();
        }
    }

    /// Per-frame update: a swipe moves the tiles unless the game is over.
    pub fn update(&mut self, swipe: Option<SwipeDirection>) -> (r: AppResult)
        requires
            swipe matches Some(d) ==> move_fits(old(self).tiles@, d) && old(self).score
                + move_points(old(self).tiles@, d) <= u32::MAX,
        ensures
            r == AppResult::Continue,
            match swipe {
                Some(d) if !old(self).game_over => {
                    &&& final(self).moved == (moved_board(old(self).tiles@, d) != old(self).tiles@)
                    &&& final(self).score == old(self).score + move_points(old(self).tiles@, d)
                    &&& final(self).moved ==> (final(self).tiles@, final(self).rng) == spawned(
                        moved_board(old(self).tiles@, d),
                        old(self).rng,
                    )
                    &&& !final(self).moved ==> final(self).tiles@ == old(self).tiles@
                        && final(self).rng == old(self).rng
                    &&& final(self).game_over == old(self).game_over
                },
                _ => *final(self) == *old(self),
            },
    {
        if let Some(d) = swipe {
            if !self.game_over {
                self.do_move(d);
            }
        }
        AppResult::Continue
    }

    /// Value of the tile at (row, col).
    pub fn tile(&self, row: usize, col: usize) -> (r: u16)
        requires
            row < 4,
            col < 4,
        ensures
            r == self.tiles@[4 * row + col],
    {
        self.tiles[4 * row + col]
    }

    /// Fill color of a tile of value `val` (raw RGB565).
    pub fn tile_color(val: u16) -> (c: u16)
        ensures
            c == spec_tile_color(val),
    {
        match val {
            2 => rgb565(29, 58, 28),
            4 => rgb565(29, 56, 24),
            8 => rgb565(31, 44, 8),
            16 => rgb565(31, 38, 4),
            32 => rgb565(31, 30, 4),
            64 => rgb565(31, 24, 2),
            128 => rgb565(29, 56, 12),
            256 => rgb565(29, 54, 8),
            512 => rgb565(29, 52, 4),
            1024 => rgb565(29, 50, 0),
            2048 => rgb565(29, 48, 0),
            _ => rgb565(10, 20, 10),
        }
    }
}

pub open spec fn spec_tile_color(val: u16) -> u16 {
    if val == 2 {
        spec_rgb565(29, 58, 28)
    } else if val == 4 {
        spec_rgb565(29, 56, 24)
    } else if val == 8 {
        spec_rgb565(31, 44, 8)
    } else if val == 16 {
        spec_rgb565(31, 38, 4)
    } else if val == 32 {
        spec_rgb565(31, 30, 4)
    } else if val == 64 {
        spec_rgb565(31, 24, 2)
    } else if val == 128 {
        spec_rgb565(29, 56, 12)
    } else if val == 256 {
        spec_rgb565(29, 54, 8)
    } else if val == 512 {
        spec_rgb565(29, 52, 4)
    } else if val == 1024 {
        spec_rgb565(29, 50, 0)
    } else if val == 2048 {
        spec_rgb565(29, 48, 0)
    } else {
        spec_rgb565(10, 20, 10)
    }
}

proof fn lemma_points_upto_bound(b: Seq<u16>, dir: SwipeDirection, n: int, m: int)
    requires
        0 <= n <= m,
    ensures
        move_points_upto(b, dir, n) <= move_points_upto(b, dir, m),
    decreases m,
{
    if m > n {
        lemma_points_upto_bound(b, dir, n, m - 1);
        lemma_merge_points_nonneg(nonzero(board_line(b, dir, m - 1)));
    }
}

proof fn lemma_merge_points_nonneg(s: Seq<u16>)
    ensures
        merge_points(s) >= 0,
    decreases s.len(),
{
    if s.len() >= 2 {
        if s[0] == s[1] {
            lemma_merge_points_nonneg(s.skip(2));
        } else {
            lemma_merge_points_nonneg(s.drop_first());
        }
    }
}

/// The score text: `prefix` followed by the score with at most five digits.
pub open spec fn spec_fmt_num(prefix: Seq<u8>, val: u32) -> Seq<u8> {
    prefix + capped_decimal(val as nat, 5)
}

/// Score label, e.g. `SCORE:128` (16 bytes at most); `?` when the bytes are
/// not UTF-8.
pub fn fmt_num(prefix: &[u8], val: u32) -> (r: Vec<u8>)
    requires
        spec_fmt_num(prefix@, val).len() <= 16,
    ensures
        r@ == if valid_utf8(spec_fmt_num(prefix@, val)) { spec_fmt_num(prefix@, val) } else { seq![63u8] },
{
    let mut out = Vec::new();
    push_all(&mut out, prefix);
    push_capped_decimal(&mut out, val, 5);
    let fallback: [u8; 1] = [63u8];
    assert(fallback@ =~= seq![63u8]);
    utf8_or(out, fallback.as_slice())
}

/// Tile label: the value with at most four digits.
pub fn fmt_tile(val: u16) -> (r: Vec<u8>)
    ensures
        r@ == capped_decimal(val as nat, 4),
{
    let mut out = Vec::new();
    push_capped_decimal(&mut out, val as u32, 4);
    assert(out@ =~= capped_decimal(val as nat, 4));
    out
}

} // verus!

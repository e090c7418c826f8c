//! Flappy Bird: pipe placement and crash detection on pixel positions.
//! The bird and pipes move in floating point; the caller rounds their
//! positions and asks here.

use vstd::prelude::*;
use crate::apps::rng::{rand_below, xorshift, random_below};
use crate::text::{capped_decimal, push_capped_decimal};

verus! {

pub const W: i32 = 368;
pub const H: i32 = 448;
/// Horizontal position of the bird (a quarter across).
pub const BIRD_X: i32 = 92;
pub const BIRD_R: i32 = 14;
pub const PIPE_W: i32 = 55;
pub const PIPE_GAP: i32 = 140;
pub const GROUND_H: i32 = 30;
/// Safe margin for the rounded screen.
pub const MARGIN: i32 = 6;

/// Centre height of a new pipe's gap: in `120..H - 120`, drawn from the
/// generator, which advances.
pub fn random_gap(rng: &mut u32) -> (g: i32)
    ensures
        *final(rng) == xorshift(*old(rng)),
        g == 120 + rand_below(*old(rng), (H - 240) as u32),
        120 <= g < H - 120,
{
    let r = random_below(rng, (H - 240) as u32);
    120 + r as i32
}

/// The bird (centre height `by`) touches the top margin or the ground.
pub open spec fn spec_out_of_bounds(by: int) -> bool {
    by < MARGIN + BIRD_R || by > H - GROUND_H - BIRD_R
}

/// The bird overlaps the pipe at `px` horizontally and is outside its gap
/// (centred at `gap_y`) vertically.
pub open spec fn spec_hits_pipe(by: int, px: int, gap_y: int) -> bool {
    BIRD_X + BIRD_R > px && BIRD_X - BIRD_R < px + PIPE_W
        && (by - BIRD_R < gap_y - PIPE_GAP / 2 || by + BIRD_R > gap_y + PIPE_GAP / 2)
}

/// Positions far enough from the integer limits for the sums above.
pub open spec fn in_play(v: int) -> bool {
    -1000000000 <= v <= 1000000000
}

/// Whether the bird at height `by` crashed, given the pipes as (x, gap centre).
pub fn crashed(by: i32, pipes: &[(i32, i32); 3]) -> (r: bool)
    requires
        in_play(by as int),
        forall|i: int| 0 <= i < 3 ==> in_play(pipes@[i].0 as int) && in_play(pipes@[i].1 as int),
    ensures
        r == (spec_out_of_bounds(by as int) || exists|i: int| 0 <= i < 3 && spec_hits_pipe(by as int, pipes@[i].0 as int, pipes@[i].1 as int)),
{
    let mut hit = by < MARGIN + BIRD_R || by > H - GROUND_H - BIRD_R;
    let mut i: usize = 0;
    while i < 3
        invariant
            i <= 3,
            in_play(by as int),
            forall|j: int| 0 <= j < 3 ==> in_play(pipes@[j].0 as int) && in_play(pipes@[j].1 as int),
            hit == (spec_out_of_bounds(by as int) || exists|j: int| 0 <= j < i && spec_hits_pipe(by as int, pipes@[j].0 as int, pipes@[j].1 as int)),
        decreases 3 - i,
    {
        let (px, gy) = pipes[i];
        if BIRD_X + BIRD_R > px && BIRD_X - BIRD_R < px + PIPE_W {
            if by - BIRD_R < gy - PIPE_GAP / 2 || by + BIRD_R > gy + PIPE_GAP / 2 {
                hit = true;
            }
        }
        i += 1;
    }
    hit
}

/// The score label: the last three decimal digits of `val`, without leading zeros.
pub fn fmt_u32(val: u32) -> (r: Vec<u8>)
    ensures
        r@ == capped_decimal(val as nat, 3),
{
    let mut out: Vec<u8> = Vec::new();
    push_capped_decimal(&mut out, val, 3);
    assert(out@ =~= capped_decimal(val as nat, 3));
    out
}

} // verus!

//! The xorshift pseudo-random generator that the games share.

use vstd::prelude::*;

verus! {

/// One xorshift32 step (shifts 13, 17, 5).
pub open spec fn xorshift(s: u32) -> u32 {
    let a = s ^ (s << 13u32);
    let b = a ^ (a >> 17u32);
    b ^ (b << 5u32)
}

/// The number in `0..max` drawn from the state that follows `s`.
pub open spec fn rand_below(s: u32, max: u32) -> u32 {
    (xorshift(s) & 0x7FFF_FFFFu32) % max
}

pub fn xorshift_next(s: u32) -> (r: u32)
    ensures
        r == xorshift(s),
{
    let a = s ^ (s << 13);
    let b = a ^ (a >> 17);
    b ^ (b << 5)
}

/// Advances `state` and returns a number below `max`.
pub fn random_below(state: &mut u32, max: u32) -> (r: u32)
    requires
        max > 0,
    ensures
        *final(state) == xorshift(*old(state)),
        r == rand_below(*old(state), max),
        r < max,
{
    *state = xorshift_next(*state);
    (*state & 0x7FFF_FFFF) % max
}

} // verus!

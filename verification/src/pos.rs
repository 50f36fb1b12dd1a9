//! Position arithmetic over a single axis of the bounded grid.
//!
//! Two policies exist: wrap-around (`safe_add` and friends, modular
//! arithmetic) and clamping (`clamp_step_usize`), which leaves the coordinate
//! where it is when a step would cross the boundary.

use vstd::prelude::*;

verus! {

use vstd::arithmetic::div_mod::{lemma_mod_multiples_vanish, lemma_mod_self_0, lemma_small_mod};

/// Relies on num's `Integer::mod_floor` for `usize`: floored modulus, which
/// on unsigned operands is the plain remainder `a % m`. A zero modulus would
/// divide by zero, so it is excluded.
#[verifier::external_body]
fn mod_floor_usize(a: usize, m: usize) -> (r: usize)
    requires
        m > 0,
    ensures
        r == a % m,
{
    num::Integer::mod_floor(&a, &m)
}

/// Wrap-around addition on one axis: the sum of `a` and `b`, reduced modulo
/// `LIMIT` back into `[0, LIMIT)`.
pub fn safe_add<const LIMIT: usize>(a: usize, b: usize) -> (r: usize)
    requires
        LIMIT > 0,
        a + b <= usize::MAX,
    ensures
        r == (a + b) % (LIMIT as int),
        r < LIMIT,
{
    mod_floor_usize(a + b, LIMIT)
}

/// One wrapping step forward along an axis of length `LIMIT`.
pub fn add1<const LIMIT: usize>(value: usize) -> (r: usize)
    requires
        LIMIT > 0,
        value < usize::MAX,
    ensures
        r == (value + 1) % (LIMIT as int),
        value < LIMIT ==> r == (if value + 1 == LIMIT {
            0int
        } else {
            value + 1
        }),
{
    let r = safe_add::<LIMIT>(value, 1);
    proof {
        if value < LIMIT {
            if value + 1 == LIMIT {
                lemma_mod_self_0(LIMIT as int);
            } else {
                lemma_small_mod((value + 1) as nat, LIMIT as nat);
            }
        }
    }
    r
}

/// One wrapping step backward along an axis of length `LIMIT`: a delta of
/// `LIMIT - 1` stands for `-1` without signed arithmetic.
pub fn sub1<const LIMIT: usize>(value: usize) -> (r: usize)
    requires
        LIMIT > 0,
        value + LIMIT - 1 <= usize::MAX,
    ensures
        r == (value + LIMIT - 1) % (LIMIT as int),
        value < LIMIT ==> r == (if value == 0 {
            LIMIT - 1
        } else {
            value - 1
        }),
{
    let r = safe_add::<LIMIT>(value, LIMIT - 1);
    proof {
        if value < LIMIT {
            if value == 0 {
                lemma_small_mod((LIMIT - 1) as nat, LIMIT as nat);
            } else {
                lemma_mod_multiples_vanish(1, value - 1, LIMIT as int);
                lemma_small_mod((value - 1) as nat, LIMIT as nat);
            }
        }
    }
    r
}

/// One movement step along a single axis, clamped to `[0, bound)`: the
/// coordinate moves by `delta` unless the result would leave the interval,
/// in which case it stays where it is.
pub open spec fn clamp_step(coord: int, delta: int, bound: int) -> int {
    if 0 <= coord + delta < bound {
        coord + delta
    } else {
        coord
    }
}

/// A clamped step never leaves the axis interval, and a step into a wall
/// leaves the coordinate exactly where it was.
pub proof fn lemma_clamp_in_bounds(coord: int, delta: int, bound: int)
    requires
        0 <= coord < bound,
    ensures
        0 <= clamp_step(coord, delta, bound) < bound,
        !(0 <= coord + delta < bound) ==> clamp_step(coord, delta, bound) == coord,
{
}

/// Apply one clamped unit step: the executable counterpart of `clamp_step`
/// for the unit velocities the game uses.
pub fn clamp_step_usize(coord: usize, delta: isize, bound: usize) -> (r: usize)
    requires
        coord < bound,
        -1 <= delta <= 1,
    ensures
        r == clamp_step(coord as int, delta as int, bound as int),
        r < bound,
{
    if delta == 1 {
        if coord + 1 < bound {
            coord + 1
        } else {
            coord
        }
    } else if delta == -1 {
        if coord >= 1 {
            coord - 1
        } else {
            coord
        }
    } else {
        coord
    }
}

} // verus!

//! The brush-size ladder the bracket keys step along: fine steps while the
//! brush is small, coarser ones once it is large, so one key press is
//! always a visible change without taking forever to cross the range.

use vstd::prelude::*;

verus! {

/// The sizes, in pixels, smallest first.
pub const BRUSH_SIZES: [u32; 32] = [
    1, 2, 3, 4, 5, 6, 8, 10, 13, 16, 20, 25, 30, 36, 45, 55, 65, 80, 100, 125, 150, 200, 250,
    300, 400, 500, 650, 800, 1000, 1250, 1600, 2000,
];

/// How many sizes the ladder has.
pub const LADDER_LEN: usize = 32;

pub open spec fn clamp_stop(x: int) -> int {
    if x < 0 { 0 } else if x > LADDER_LEN - 1 { LADDER_LEN - 1 } else { x }
}

/// The rung `dir` steps from rung `at`, held to the ladder's ends.
pub open spec fn spec_step_stop(at: int, dir: int) -> int {
    clamp_stop(at + dir)
}

/// The rung a press of the bracket keys moves to: `dir` rungs up (or down,
/// when negative) from rung `at`, stopping at either end.
pub fn step_stop(at: usize, dir: i32) -> (n: usize)
    requires
        at < LADDER_LEN,
    ensures
        n == spec_step_stop(at as int, dir as int),
        n < LADDER_LEN,
{
    let want: i64 = at as i64 + dir as i64;
    if want < 0 {
        0
    } else if want > (LADDER_LEN - 1) as i64 {
        LADDER_LEN - 1
    } else {
        want as usize
    }
}

/// The size on rung `at`.
pub fn brush_size(at: usize) -> (s: u32)
    requires
        at < LADDER_LEN,
    ensures
        s == BRUSH_SIZES[at as int],
{
    BRUSH_SIZES[at]
}

/// For a brush whose size is one of the ladder's rungs, stepping down undoes
/// stepping up, and stepping up undoes stepping down, unless the brush is
/// already at that end of the ladder. (A size between two rungs first steps
/// onto a rung, so from there one step back need not return to it.)
pub proof fn stepping_back_undoes_a_step(at: int)
    requires
        0 <= at < LADDER_LEN,
    ensures
        at < LADDER_LEN - 1 ==> spec_step_stop(spec_step_stop(at, 1), -1) == at,
        at > 0 ==> spec_step_stop(spec_step_stop(at, -1), 1) == at,
{
}

/// One press of a bracket key always changes the size, unless the brush is
/// already at that end of the ladder: up makes it larger, down smaller.
pub proof fn a_step_is_always_a_visible_change(at: int)
    requires
        0 <= at < LADDER_LEN,
    ensures
        at < LADDER_LEN - 1 ==> BRUSH_SIZES[spec_step_stop(at, 1)] > BRUSH_SIZES[at],
        at > 0 ==> BRUSH_SIZES[spec_step_stop(at, -1)] < BRUSH_SIZES[at],
{
    let sizes = BRUSH_SIZES@;
    assert(sizes =~= seq![
        1u32, 2, 3, 4, 5, 6, 8, 10, 13, 16, 20, 25, 30, 36, 45, 55, 65, 80, 100, 125, 150, 200, 250,
        300, 400, 500, 650, 800, 1000, 1250, 1600, 2000,
    ]);
}

} // verus!

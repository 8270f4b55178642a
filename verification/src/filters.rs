//! The filter dialog's seed button: a new seed for the filters that draw
//! random numbers.

use vstd::prelude::*;

verus! {

pub const SEED_MULTIPLIER: u64 = 6364136223846793005;
pub const SEED_INCREMENT: u64 = 1442695040888963407;

/// One step of the 64-bit linear congruential generator the Randomise
/// button uses: any change is enough, and the sequence itself is
/// deterministic.
pub open spec fn spec_next_seed(seed: u64) -> u64 {
    ((seed * SEED_MULTIPLIER + SEED_INCREMENT) % 0x1_0000_0000_0000_0000) as u64
}

pub fn next_seed(seed: u64) -> (n: u64)
    ensures
        n == spec_next_seed(seed),
{
    let m = seed.wrapping_mul(SEED_MULTIPLIER);
    let n = m.wrapping_add(SEED_INCREMENT);
    proof {
        assert(m == (seed * SEED_MULTIPLIER) % 0x1_0000_0000_0000_0000);
        assert(n == (m + SEED_INCREMENT) % 0x1_0000_0000_0000_0000);
        vstd::arithmetic::div_mod::lemma_add_mod_noop(
            (seed * SEED_MULTIPLIER) as int,
            SEED_INCREMENT as int,
            0x1_0000_0000_0000_0000,
        );
        vstd::arithmetic::div_mod::lemma_small_mod(SEED_INCREMENT as nat, 0x1_0000_0000_0000_0000);
    }
    n
}

/// Pressing Randomise always changes the seed: the multiplier and the
/// increment are both odd, so every step flips the lowest bit.
pub proof fn next_seed_changes_it(seed: u64)
    ensures
        spec_next_seed(seed) != seed,
{
    let n = spec_next_seed(seed);
    let p = seed * SEED_MULTIPLIER;
    assert(p % 2 == seed % 2) by {
        vstd::arithmetic::div_mod::lemma_mul_mod_noop(seed as int, SEED_MULTIPLIER as int, 2);
    }
    assert((p + SEED_INCREMENT) % 2 != seed % 2) by {
        vstd::arithmetic::div_mod::lemma_add_mod_noop(p, SEED_INCREMENT as int, 2);
    }
    assert(n % 2 == (p + SEED_INCREMENT) % 2) by {
        vstd::arithmetic::div_mod::lemma_mod_mod((p + SEED_INCREMENT) as int, 2, 0x8000_0000_0000_0000);
    }
}

} // verus!

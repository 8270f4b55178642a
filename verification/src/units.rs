//! Byte counts for the status bar and the dialogs, and the exact rounding
//! rules that turn a count into the figure shown.

use vstd::prelude::*;
use vstd::arithmetic::div_mod::*;
use vstd::arithmetic::mul::*;
use crate::text::{dec, digit, push_decimal};

verus! {

pub const KB: u64 = 1024;
pub const MB: u64 = 1048576;
pub const GB: u64 = 1073741824;

/// The largest integer a float with a 53-bit significand holds exactly, plus one.
pub const F64_EXACT: u128 = 0x20_0000_0000_0000;
/// The same for a 24-bit significand.
pub const F32_EXACT: u128 = 0x100_0000;

/// `num / den` rounded to the nearest integer, ties to the even neighbour.
pub open spec fn round_half_even(num: nat, den: nat) -> nat
    recommends
        den > 0,
{
    let q = num / den;
    let r = num % den;
    if 2 * r > den || (2 * r == den && q % 2 == 1) {
        q + 1
    } else {
        q
    }
}

/// The spacing of the floats around `x`, for a format that holds every
/// integer below `limit` exactly: the first power of two `u` (from `u`, the
/// `k`-th doubling) with `x < limit * u`.
pub open spec fn float_spacing_from(x: nat, limit: nat, u: nat, k: nat) -> nat
    decreases 64 - k,
{
    if k >= 64 || x < limit * u {
        u
    } else {
        float_spacing_from(x, limit, 2 * u, k + 1)
    }
}

pub open spec fn float_spacing(x: nat, limit: nat) -> nat {
    float_spacing_from(x, limit, 1, 0)
}

/// The value an integer `x` takes when converted to a binary float that holds
/// every integer below `limit` exactly: the nearest representable value,
/// ties to the one with the even significand.
pub open spec fn to_float(x: nat, limit: nat) -> nat {
    round_half_even(x, float_spacing(x, limit)) * float_spacing(x, limit)
}

/// `m / d` written with exactly one decimal, as `{:.1}` writes it.
pub open spec fn fixed1(m: nat, d: nat) -> Seq<char> {
    let t = round_half_even(m * 10, d);
    dec(t / 10) + seq!['.', digit((t % 10) as int)]
}

/// `m / d` written with no decimals, as `{:.0}` writes it.
pub open spec fn fixed0(m: nat, d: nat) -> Seq<char> {
    dec(round_half_even(m, d))
}

/// The status bar's spelling of a byte count: whole bytes below a kilobyte,
/// whole kilobytes below a megabyte, and one decimal above that.
pub open spec fn bytes_text(b: nat) -> Seq<char> {
    if b >= GB {
        fixed1(to_float(b, F64_EXACT as nat), GB as nat) + seq![' ', 'G', 'B']
    } else if b >= MB {
        fixed1(b, MB as nat) + seq![' ', 'M', 'B']
    } else if b >= KB {
        fixed0(b, KB as nat) + seq![' ', 'K', 'B']
    } else {
        dec(b) + seq![' ', 'B']
    }
}

proof fn lemma_div_mod_facts(x: nat, d: nat)
    requires
        d > 0,
    ensures
        x == d * (x / d) + x % d,
        x % d < d,
        (x / d) * d <= x,
{
    lemma_fundamental_div_mod(x as int, d as int);
    lemma_mod_bound(x as int, d as int);
    lemma_mul_is_commutative(d as int, (x / d) as int);
}

/// `num / den` rounded to nearest, ties to even.
pub fn round_half_even_exec(num: u128, den: u128) -> (r: u128)
    requires
        den > 0,
        den < 0x8000_0000_0000_0000_0000_0000_0000_0000,
    ensures
        r == round_half_even(num as nat, den as nat),
        r <= num / den + 1,
{
    let q = num / den;
    let r = num % den;
    proof { lemma_div_mod_facts(num as nat, den as nat); }
    if 2 * r > den || (2 * r == den && q % 2 == 1) {
        proof {
            if den == 1 {
                assert(r == 0);
            } else {
                assert(q * den <= num);
                assert(q <= num) by (nonlinear_arith)
                    requires q * den <= num, den >= 2;
                assert(q * 2 <= num) by (nonlinear_arith)
                    requires q * den <= num, den >= 2;
            }
        }
        q + 1
    } else {
        q
    }
}

/// The value `x` takes as a float holding every integer below `limit`
/// exactly (`limit` is `F64_EXACT` for `f64` and `F32_EXACT` for `f32`).
pub fn to_float_exec(x: u128, limit: u128) -> (r: u128)
    requires
        1 <= limit <= F64_EXACT,
        x < 0x4_0000_0000_0000_0000,
    ensures
        r == to_float(x as nat, limit as nat),
        r <= 3 * x + 1,
{
    let mut u: u128 = 1;
    let mut k: u32 = 0;
    while k < 64 && x >= limit * u
        invariant
            1 <= limit <= F64_EXACT,
            x < 0x4_0000_0000_0000_0000,
            k <= 64,
            1 <= u,
            u == 1 || u <= 2 * x,
            limit * u <= F64_EXACT * (2 * x + 1),
            float_spacing_from(x as nat, limit as nat, u as nat, k as nat)
                == float_spacing(x as nat, limit as nat),
        decreases 64 - k,
    {
        proof {
            assert(limit * u >= u) by (nonlinear_arith)
                requires limit >= 1, u >= 1;
            assert(limit * (2 * u) == 2 * (limit * u)) by (nonlinear_arith);
        }
        u = 2 * u;
        k = k + 1;
    }
    assert(float_spacing(x as nat, limit as nat) == u);
    let q = round_half_even_exec(x, u);
    proof {
        lemma_div_mod_facts(x as nat, u as nat);
        assert(q * u <= x + u) by (nonlinear_arith)
            requires q <= x / u + 1, (x / u) * u <= x;
    }
    q * u
}

/// Appends `m / d` with one decimal.
fn push_fixed1(s: &mut String, m: u128, d: u128)
    requires
        d >= MB,
        d < 0x8000_0000_0000_0000,
        m <= 0x4_0000_0000_0000_0000,
    ensures
        final(s)@ == old(s)@ + fixed1(m as nat, d as nat),
{
    let t = round_half_even_exec(m * 10, d);
    proof {
        let mm: int = m * 10;
        lemma_div_is_ordered_by_denominator(mm, MB as int, d as int);
        lemma_div_is_ordered(mm, 0x28_0000_0000_0000_0000int, MB as int);
        assert((0x28_0000_0000_0000_0000int) / (MB as int) < 0x1_0000_0000_0000_0000);
    }
    let whole = t / 10;
    let frac = t % 10;
    push_decimal(s, whole as u64);
    s.append(".");
    proof { reveal_strlit("."); }
    let mut tail = String::new();
    push_decimal(&mut tail, frac as u64);
    assert(tail@ == seq![digit(frac as int)]);
    s.append(tail.as_str());
    assert(final(s)@ == old(s)@ + fixed1(m as nat, d as nat));
}

/// Human-readable byte count for the status bar and dialogs.
pub fn format_bytes(bytes: u64) -> (s: String)
    ensures
        s@ == bytes_text(bytes as nat),
{
    let mut s = String::new();
    if bytes >= GB {
        let m = to_float_exec(bytes as u128, F64_EXACT);
        push_fixed1(&mut s, m, GB as u128);
        proof { reveal_strlit(" GB"); }
        s.append(" GB");
    } else if bytes >= MB {
        push_fixed1(&mut s, bytes as u128, MB as u128);
        proof { reveal_strlit(" MB"); }
        s.append(" MB");
    } else if bytes >= KB {
        let w = round_half_even_exec(bytes as u128, KB as u128);
        push_decimal(&mut s, w as u64);
        proof { reveal_strlit(" KB"); }
        s.append(" KB");
    } else {
        push_decimal(&mut s, bytes);
        proof { reveal_strlit(" B"); }
        s.append(" B");
    }
    s
}

/// The video memory a document holds: its layer textures, an eight-byte
/// working composite and a four-byte display copy.
pub fn vram_bytes(layer_bytes: u64, composite: (u32, u32), display: (u32, u32)) -> (b: u64)
    requires
        layer_bytes + composite.0 * composite.1 * 8 + display.0 * display.1 * 4 <= u64::MAX,
    ensures
        b == layer_bytes + composite.0 * composite.1 * 8 + display.0 * display.1 * 4,
{
    proof {
        assert(composite.0 * composite.1 <= composite.0 * composite.1 * 8) by (nonlinear_arith);
        assert(display.0 * display.1 <= display.0 * display.1 * 4) by (nonlinear_arith);
    }
    let c = composite.0 as u64 * composite.1 as u64 * 8;
    let d = display.0 as u64 * display.1 as u64 * 4;
    layer_bytes + c + d
}

/// Byte counts are written in whole bytes below a kilobyte and in whole
/// kilobytes below a megabyte; an exact number of kilobytes is written as
/// that number, and a megabyte-sized count with one decimal in MB.
pub proof fn bytes_are_written_in_the_largest_unit_below(b: nat, k: nat)
    ensures
        b < 1024 ==> bytes_text(b) == dec(b) + " B"@,
        1 <= k < 1024 ==> bytes_text(k * 1024) == dec(k) + " KB"@,
        1 <= k < 1024 ==> bytes_text(k * 1048576) == dec(k) + ".0 MB"@,
{
    reveal_strlit(" B");
    reveal_strlit(" KB");
    reveal_strlit(".0 MB");
    if 1 <= k < 1024 {
        let x = k * 1024;
        assert(x / 1024 == k && x % 1024 == 0) by (nonlinear_arith)
            requires x == k * 1024;
        assert(round_half_even(x, 1024) == k);
        let y = k * 1048576;
        assert(1048576 <= y < 1073741824) by (nonlinear_arith)
            requires y == k * 1048576, 1 <= k < 1024;
        assert((y * 10) / 1048576 == k * 10 && (y * 10) % 1048576 == 0) by (nonlinear_arith)
            requires y == k * 1048576;
        assert(round_half_even(y * 10, 1048576) == k * 10);
        assert((k * 10) / 10 == k && (k * 10) % 10 == 0) by (nonlinear_arith);
        assert(digit(0) == '0');
        assert(1024 <= x < 1048576) by (nonlinear_arith)
            requires x == k * 1024, 1 <= k < 1024;
    }
}

} // verus!

//! A coverage mask carried as an image and back, so that the resampler that
//! transforms layers can transform a mask too.
//!
//! Both planes are row-major, one entry per pixel, so the same index names
//! the same pixel in each.
//!
//! A mask's thumbnail is a box-filtered copy: each thumbnail cell averages a
//! run of source columns and rows, and the runs are cut here.
use vstd::prelude::*;
use vstd::arithmetic::div_mod::{
    lemma_div_is_ordered, lemma_div_multiples_vanish, lemma_div_plus_one, lemma_multiply_divide_lt,
};

use crate::dialogs::Rgba8;

verus! {

/// The pixel that carries a coverage value: white, with the coverage as its
/// alpha, so that filtering treats hidden areas as absent rather than black.
pub open spec fn carrier(v: u8) -> Rgba8 {
    Rgba8 { r: 255, g: 255, b: 255, a: v }
}

/// The image that carries `mask`.
pub open spec fn carried(mask: Seq<u8>) -> Seq<Rgba8> {
    Seq::new(mask.len(), |i: int| carrier(mask[i]))
}

/// The mask that an image's alphas make.
pub open spec fn alphas(px: Seq<Rgba8>) -> Seq<u8> {
    Seq::new(px.len(), |i: int| px[i].a)
}

/// A mask as an image: each coverage value becomes a white pixel with that
/// alpha.
pub fn mask_as_pixels(mask: &Vec<u8>) -> (px: Vec<Rgba8>)
    ensures
        px@ == carried(mask@),
{
    let mut px: Vec<Rgba8> = Vec::with_capacity(mask.len());
    let mut i: usize = 0;
    while i < mask.len()
        invariant
            i <= mask@.len(),
            px@.len() == i,
            forall|j: int| 0 <= j < i ==> #[trigger] px@[j] == carrier(mask@[j]),
        decreases mask@.len() - i,
    {
        px.push(Rgba8 { r: 255, g: 255, b: 255, a: mask[i] });
        i += 1;
    }
    assert(px@ =~= carried(mask@));
    px
}

/// An image read back as a mask: each pixel's alpha is its coverage.
pub fn pixels_as_mask(px: &Vec<Rgba8>) -> (mask: Vec<u8>)
    ensures
        mask@ == alphas(px@),
{
    let mut mask: Vec<u8> = Vec::with_capacity(px.len());
    let mut i: usize = 0;
    while i < px.len()
        invariant
            i <= px@.len(),
            mask@.len() == i,
            forall|j: int| 0 <= j < i ==> #[trigger] mask@[j] == px@[j].a,
        decreases px@.len() - i,
    {
        mask.push(px[i].a);
        i += 1;
    }
    assert(mask@ =~= alphas(px@));
    mask
}

/// Carrying a mask as an image and reading it back loses nothing: every
/// coverage value comes back where it was.
pub proof fn mask_survives_the_round_trip(mask: Seq<u8>)
    ensures
        alphas(carried(mask)) == mask,
{
    assert(alphas(carried(mask)) =~= mask);
}

/// The first of the source columns (or rows) that thumbnail cell `t` covers,
/// when `size` of them are shown in `cells` cells.
pub open spec fn cell_start(t: nat, size: nat, cells: nat) -> nat {
    (t * size / cells) as nat
}

/// One past the last source column that cell `t` covers: where the next cell
/// starts, but never fewer than one column, and never past the edge.
pub open spec fn cell_end(t: nat, size: nat, cells: nat) -> nat {
    let e = ((t + 1) * size / cells) as nat;
    let e = if e > cell_start(t, size, cells) { e } else { cell_start(t, size, cells) + 1 };
    if e <= size { e } else { size }
}

proof fn lemma_cell_bounds(t: nat, size: nat, cells: nat)
    requires
        t < cells,
        1 <= size,
    ensures
        cell_start(t, size, cells) < size,
        (t + 1) * size / cells <= size,
{
    let (ti, si, ci) = (t as int, size as int, cells as int);
    assert((ti + 1) * si <= ci * si) by (nonlinear_arith)
        requires ti + 1 <= ci, si >= 0;
    assert(ti * si + si <= ci * si) by (nonlinear_arith)
        requires ti + 1 <= ci, si >= 0;
    lemma_div_is_ordered((ti + 1) * si, ci * si, ci);
    lemma_div_multiples_vanish(si, ci);
    assert(ci * si == si * ci) by (nonlinear_arith);
    assert(ti * si < ci * si) by (nonlinear_arith)
        requires ti < ci, si >= 1;
    lemma_multiply_divide_lt(ti * si, ci, si);
}

/// The run of source columns (or rows) that thumbnail cell `t` averages.
pub fn thumb_cell(t: u32, size: u32, cells: u32) -> (r: (u32, u32))
    requires
        t < cells,
        1 <= size,
    ensures
        r.0 == cell_start(t as nat, size as nat, cells as nat),
        r.1 == cell_end(t as nat, size as nat, cells as nat),
        r.0 < r.1 <= size,
{
    proof {
        lemma_cell_bounds(t as nat, size as nat, cells as nat);
        assert(t * size <= u32::MAX * u32::MAX) by (nonlinear_arith)
            requires t <= u32::MAX, size <= u32::MAX;
        assert((t + 1) * size <= (u32::MAX + 1) * u32::MAX) by (nonlinear_arith)
            requires t + 1 <= u32::MAX + 1, size <= u32::MAX;
    }
    let s = (t as u64 * size as u64 / cells as u64) as u32;
    let e = ((t as u64 + 1) * size as u64 / cells as u64) as u32;
    let e = if e > s { e } else { s + 1 };
    let e = if e <= size { e } else { size };
    (s, e)
}

/// When the thumbnail has no more cells than the source has columns, the
/// cells tile the source: each starts where the one before it ended, none is
/// widened, and the last ends at the edge.
pub proof fn cells_tile_the_source(t: nat, size: nat, cells: nat)
    requires
        1 <= cells <= size,
        t < cells,
    ensures
        cell_end(t, size, cells) == (t + 1) * size / cells,
        t + 1 < cells ==> cell_end(t, size, cells) == cell_start(t + 1, size, cells),
        t + 1 == cells ==> cell_end(t, size, cells) == size,
{
    let (ti, si, ci) = (t as int, size as int, cells as int);
    lemma_cell_bounds(t, size, cells);
    lemma_div_plus_one(ti * si, ci);
    assert(ti * si + ci <= (ti + 1) * si) by (nonlinear_arith)
        requires ci <= si;
    lemma_div_is_ordered(ti * si + ci, (ti + 1) * si, ci);
    if t + 1 == cells {
        lemma_div_multiples_vanish(si, ci);
        assert(ci * si == si * ci) by (nonlinear_arith);
        assert(ci * si == (ti + 1) * si);
    }
}

} // verus!

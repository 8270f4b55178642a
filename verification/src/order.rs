//! Ordering names the way the file browser and the profile list do: by
//! Unicode code point, one character at a time, a prefix before anything it
//! begins — the order `String`'s `Ord` gives — and sorting stably by it.

use vstd::prelude::*;

verus! {

/// `a` comes no later than `b` in code-point order.
pub open spec fn lex_le(a: Seq<char>, b: Seq<char>) -> bool
    decreases a.len(),
{
    if a.len() == 0 {
        true
    } else if b.len() == 0 {
        false
    } else if a[0] < b[0] {
        true
    } else if a[0] > b[0] {
        false
    } else {
        lex_le(a.drop_first(), b.drop_first())
    }
}

pub proof fn lemma_lex_total(a: Seq<char>, b: Seq<char>)
    ensures
        lex_le(a, b) || lex_le(b, a),
    decreases a.len(),
{
    if a.len() > 0 && b.len() > 0 && a[0] == b[0] {
        lemma_lex_total(a.drop_first(), b.drop_first());
    }
}

pub proof fn lemma_lex_trans(a: Seq<char>, b: Seq<char>, c: Seq<char>)
    requires
        lex_le(a, b),
        lex_le(b, c),
    ensures
        lex_le(a, c),
    decreases a.len(),
{
    if a.len() > 0 && b.len() > 0 && c.len() > 0 {
        if a[0] == b[0] && b[0] == c[0] {
            lemma_lex_trans(a.drop_first(), b.drop_first(), c.drop_first());
        }
    }
}

/// Skipping a common prefix does not change the order.
proof fn lemma_lex_skip(a: Seq<char>, b: Seq<char>, i: int)
    requires
        0 <= i <= a.len(),
        i <= b.len(),
        forall|j: int| 0 <= j < i ==> a[j] == b[j],
    ensures
        lex_le(a, b) == lex_le(a.skip(i), b.skip(i)),
    decreases i,
{
    if i > 0 {
        assert(a[0] == b[0]);
        lemma_lex_skip(a.drop_first(), b.drop_first(), i - 1);
        assert(a.drop_first().skip(i - 1) =~= a.skip(i));
        assert(b.drop_first().skip(i - 1) =~= b.skip(i));
    } else {
        assert(a.skip(0) =~= a);
        assert(b.skip(0) =~= b);
    }
}

pub fn lex_le_exec(a: &Vec<char>, b: &Vec<char>) -> (r: bool)
    ensures
        r == lex_le(a@, b@),
{
    let mut i: usize = 0;
    while i < a.len() && i < b.len() && a[i] == b[i]
        invariant
            0 <= i <= a@.len(),
            i <= b@.len(),
            forall|j: int| 0 <= j < i ==> a@[j] == b@[j],
        decreases a@.len() - i,
    {
        i = i + 1;
    }
    proof {
        lemma_lex_skip(a@, b@, i as int);
    }
    if i == a.len() {
        true
    } else if i == b.len() {
        false
    } else {
        proof {
            assert(a@.skip(i as int)[0] == a@[i as int]);
            assert(b@.skip(i as int)[0] == b@[i as int]);
        }
        a[i] < b[i]
    }
}

/// What a list is sorted by: a rank first, then a text.
pub struct SortKey {
    pub rank: u8,
    pub text: Vec<char>,
}

pub open spec fn key_le(a: SortKey, b: SortKey) -> bool {
    a.rank < b.rank || (a.rank == b.rank && lex_le(a.text@, b.text@))
}

pub proof fn lemma_key_total(a: SortKey, b: SortKey)
    ensures
        key_le(a, b) || key_le(b, a),
{
    lemma_lex_total(a.text@, b.text@);
}

pub proof fn lemma_key_trans(a: SortKey, b: SortKey, c: SortKey)
    requires
        key_le(a, b),
        key_le(b, c),
    ensures
        key_le(a, c),
{
    if a.rank == b.rank && b.rank == c.rank {
        lemma_lex_trans(a.text@, b.text@, c.text@);
    }
}

pub fn key_le_exec(a: &SortKey, b: &SortKey) -> (r: bool)
    ensures
        r == key_le(*a, *b),
{
    if a.rank < b.rank {
        true
    } else if a.rank > b.rank {
        false
    } else {
        lex_le_exec(&a.text, &b.text)
    }
}

/// `r` is in key order.
pub open spec fn sorted_by_key<T>(r: Seq<(SortKey, T)>) -> bool {
    forall|k: int, l: int| 0 <= k < l < r.len() ==> key_le(#[trigger] r[k].0, #[trigger] r[l].0)
}

/// `r` is `input` rearranged, each `r[k]` being `input[from[k]]`, with items
/// of equal key left in the order they came.
pub open spec fn stable_arrangement<T>(input: Seq<(SortKey, T)>, r: Seq<(SortKey, T)>, from: Seq<int>) -> bool {
    &&& from.len() == r.len() == input.len()
    &&& forall|k: int| 0 <= k < r.len() ==> 0 <= #[trigger] from[k] < input.len() && r[k] == input[from[k]]
    &&& forall|k: int, l: int| 0 <= k < l < r.len() ==> #[trigger] from[k] != #[trigger] from[l]
    &&& forall|k: int, l: int|
        0 <= k < l < r.len() && key_le(#[trigger] r[l].0, #[trigger] r[k].0) ==> from[k] < from[l]
}

/// `input` sorted by key, keeping items of equal key in their original
/// order, as `sort_by` does.
pub fn stable_sort<T>(input: Vec<(SortKey, T)>) -> (r: Vec<(SortKey, T)>)
    ensures
        sorted_by_key(r@),
        exists|from: Seq<int>| stable_arrangement(input@, r@, from),
{
    let ghost orig = input@;
    let mut rest = input;
    let mut r: Vec<(SortKey, T)> = Vec::new();
    let ghost mut from: Seq<int> = Seq::empty();
    let n = rest.len();
    // Taken from the back so each step is cheap; `taken` counts how many.
    let mut items: Vec<(SortKey, T)> = Vec::new();
    while rest.len() > 0
        invariant
            rest@.len() + items@.len() == n,
            n == orig.len(),
            forall|k: int| 0 <= k < items@.len() ==> items@[k] == orig[n - 1 - k],
            forall|k: int| 0 <= k < rest@.len() ==> rest@[k] == orig[k],
        decreases rest@.len(),
    {
        let x = rest.pop().unwrap();
        items.push(x);
    }
    let mut i: usize = 0;
    while items.len() > 0
        invariant
            i + items@.len() == n,
            n == orig.len(),
            forall|k: int| 0 <= k < items@.len() ==> items@[k] == orig[n - 1 - k],
            sorted_by_key(r@),
            stable_arrangement(orig.take(i as int), r@, from),
        decreases items@.len(),
    {
        let x = items.pop().unwrap();
        assert(x == orig[i as int]);
        // Upper bound: the first place whose key comes after x's.
        let mut lo: usize = 0;
        let mut hi: usize = r.len();
        while lo < hi
            invariant
                0 <= lo <= hi <= r@.len(),
                sorted_by_key(r@),
                forall|k: int| 0 <= k < lo ==> key_le(#[trigger] r@[k].0, x.0),
                forall|k: int| hi <= k < r@.len() ==> !key_le(#[trigger] r@[k].0, x.0),
            decreases hi - lo,
        {
            let mid = lo + (hi - lo) / 2;
            if key_le_exec(&r[mid].0, &x.0) {
                proof {
                    assert forall|k: int| 0 <= k < mid + 1 implies key_le(#[trigger] r@[k].0, x.0) by {
                        if k < mid {
                            lemma_key_trans(r@[k].0, r@[mid as int].0, x.0);
                        }
                    }
                }
                lo = mid + 1;
            } else {
                proof {
                    assert forall|k: int| mid <= k < r@.len() implies !key_le(#[trigger] r@[k].0, x.0) by {
                        if k > mid && key_le(r@[k].0, x.0) {
                            lemma_key_trans(r@[mid as int].0, r@[k].0, x.0);
                        }
                    }
                }
                hi = mid;
            }
        }
        let p = lo;
        let ghost old_r = r@;
        let ghost old_from = from;
        proof {
            assert forall|k: int| p <= k < old_r.len() implies key_le(x.0, #[trigger] old_r[k].0) by {
                lemma_key_total(x.0, old_r[k].0);
            }
        }
        r.insert(p, x);
        proof {
            from = old_from.insert(p as int, i as int);
            let t = orig.take(i + 1);
            assert(t =~= orig.take(i as int).push(x));
            assert forall|k: int, l: int| 0 <= k < l < r@.len() implies key_le(#[trigger] r@[k].0, #[trigger] r@[l].0) by {
                if l < p {
                    assert(r@[k] == old_r[k] && r@[l] == old_r[l]);
                } else if l == p {
                    assert(r@[k] == old_r[k]);
                } else if k == p {
                    assert(r@[l] == old_r[l - 1]);
                } else if k < p {
                    assert(r@[k] == old_r[k] && r@[l] == old_r[l - 1]);
                    lemma_key_trans(old_r[k].0, x.0, old_r[l - 1].0);
                } else {
                    assert(r@[k] == old_r[k - 1] && r@[l] == old_r[l - 1]);
                }
            }
            assert forall|k: int| 0 <= k < r@.len() implies 0 <= #[trigger] from[k] < t.len() && r@[k] == t[from[k]] by {
                if k < p {
                    assert(r@[k] == old_r[k]);
                    assert(from[k] == old_from[k]);
                } else if k > p {
                    assert(r@[k] == old_r[k - 1]);
                    assert(from[k] == old_from[k - 1]);
                }
            }
            assert forall|k: int, l: int| 0 <= k < l < r@.len() implies #[trigger] from[k] != #[trigger] from[l] by {
                let fk = if k < p { old_from[k] } else if k == p { i as int } else { old_from[k - 1] };
                let fl = if l < p { old_from[l] } else if l == p { i as int } else { old_from[l - 1] };
                assert(from[k] == fk);
                assert(from[l] == fl);
                if k != p && l != p {
                    let ok = if k < p { k } else { k - 1 };
                    let ol = if l < p { l } else { l - 1 };
                    assert(ok < ol);
                    assert(old_from[ok] != old_from[ol]);
                }
            }
            assert forall|k: int, l: int|
                0 <= k < l < r@.len() && key_le(#[trigger] r@[l].0, #[trigger] r@[k].0) implies from[k] < from[l] by {
                if k != p && l != p {
                    let ok = if k < p { k } else { k - 1 };
                    let ol = if l < p { l } else { l - 1 };
                    assert(r@[k] == old_r[ok] && r@[l] == old_r[ol]);
                    assert(from[k] == old_from[ok] && from[l] == old_from[ol]);
                } else if l == p {
                    assert(from[k] == old_from[k]);
                } else {
                    // k == p: an item after x with a key no later than x's
                    // would have been placed before it.
                    assert(r@[l] == old_r[l - 1]);
                    assert(!key_le(old_r[l - 1].0, x.0));
                }
            }
        }
        i = i + 1;
    }
    assert(orig.take(n as int) =~= orig);
    r
}

} // verus!

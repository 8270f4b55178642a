//! The orders the file browser and the colour-profile list show things in.
//!
//! The browser lists folders first, then files, each alphabetically without
//! regard to case, and hides dot-files; opening also hides files that are not
//! pictures it can open. The profile list is alphabetical without regard to
//! case, with a name that turns up twice (two copies of one profile in two
//! directories) shown once.

use vstd::prelude::*;
use crate::dialogs::BrowserMode;
use crate::order::{key_le, sorted_by_key, stable_arrangement, stable_sort, SortKey};

verus! {

/// What `str::to_lowercase` makes of a string: its Unicode lower-case
/// mapping, as std's tables define it. The mapping depends on context (a
/// capital sigma at the end of a word becomes a final sigma), so it is not
/// stated character by character.
pub uninterp spec fn lowercase(s: Seq<char>) -> Seq<char>;

/// `str::to_lowercase`: the string's lower-case form, a function of the
/// string alone; what that form is, is left to the name `lowercase`.
#[verifier::external_body]
fn to_lowercase(s: &str) -> (r: String)
    ensures
        r@ == lowercase(s@),
{
    s.to_lowercase()
}

/// The characters of `s`, in order.
fn chars_of(s: &str) -> (v: Vec<char>)
    ensures
        v@ == s@,
{
    let n = s.unicode_len();
    let mut v: Vec<char> = Vec::new();
    let mut i: usize = 0;
    while i < n
        invariant
            n == s@.len(),
            0 <= i <= n,
            v@ =~= s@.take(i as int),
        decreases n - i,
    {
        v.push(s.get_char(i));
        i = i + 1;
    }
    assert(s@.take(n as int) =~= s@);
    v
}

/// The key that sorts `name` alphabetically without regard to case.
fn case_blind_key(rank: u8, name: &str) -> (k: SortKey)
    ensures
        k.rank == rank,
        k.text@ == lowercase(name@),
{
    let lower = to_lowercase(name);
    SortKey { rank, text: chars_of(lower.as_str()) }
}

// ---------------------------------------------------------------------------
// File browser
// ---------------------------------------------------------------------------

/// A directory entry as read from disk: its name, whether it is a folder,
/// its size, whether the picture formats recognise it, and its path.
pub struct Candidate<P> {
    pub name: String,
    pub is_dir: bool,
    pub size: u64,
    pub openable: bool,
    pub path: P,
}

/// Whether an entry is listed: dot-files stay hidden, and when opening, so
/// do files that are not pictures it can open.
pub open spec fn listed<P>(c: Candidate<P>, mode: BrowserMode) -> bool {
    &&& !(c.name@.len() > 0 && c.name@[0] == '.')
    &&& (c.is_dir || mode == BrowserMode::Save || c.openable)
}

/// The listed entries of `s`, in the order read.
pub open spec fn listed_seq<P>(s: Seq<Candidate<P>>, mode: BrowserMode) -> Seq<Candidate<P>>
    decreases s.len(),
{
    if s.len() == 0 {
        Seq::empty()
    } else {
        let rest = listed_seq(s.drop_last(), mode);
        if listed(s.last(), mode) { rest.push(s.last()) } else { rest }
    }
}

/// Folders rank before files.
pub open spec fn entry_rank<P>(c: Candidate<P>) -> u8 {
    if c.is_dir { 0 } else { 1 }
}

/// `keyed` pairs each entry of `items` with its browser key.
pub open spec fn keyed_entries<P>(items: Seq<Candidate<P>>, keyed: Seq<(SortKey, Candidate<P>)>) -> bool {
    &&& keyed.len() == items.len()
    &&& forall|k: int| 0 <= k < items.len() ==> (#[trigger] keyed[k]).1 == items[k]
        && keyed[k].0.rank == entry_rank(items[k])
        && keyed[k].0.text@ == lowercase(items[k].name@)
}

/// `r` is what the browser shows for the entries `read`: the listed ones,
/// each with its key, folders first and then by case-blind name, entries
/// that compare equal left in the order they were read.
pub open spec fn browser_order<P>(read: Seq<Candidate<P>>, mode: BrowserMode, r: Seq<(SortKey, Candidate<P>)>) -> bool {
    &&& sorted_by_key(r)
    &&& exists|keyed: Seq<(SortKey, Candidate<P>)>, from: Seq<int>|
        keyed_entries(listed_seq(read, mode), keyed) && stable_arrangement(keyed, r, from)
}

proof fn lemma_listed_push<P>(s: Seq<Candidate<P>>, x: Candidate<P>, mode: BrowserMode)
    ensures
        listed_seq(s.push(x), mode) == if listed(x, mode) {
            listed_seq(s, mode).push(x)
        } else {
            listed_seq(s, mode)
        },
{
    assert(s.push(x).drop_last() =~= s);
}

/// The entries the browser lists, in the order it lists them.
pub fn browser_listing<P>(read: Vec<Candidate<P>>, mode: BrowserMode) -> (r: Vec<(SortKey, Candidate<P>)>)
    ensures
        browser_order(read@, mode, r@),
{
    let ghost orig = read@;
    let n = read.len();
    let mut rest = read;
    let mut reversed: Vec<Candidate<P>> = Vec::new();
    while rest.len() > 0
        invariant
            rest@.len() + reversed@.len() == n,
            n == orig.len(),
            forall|k: int| 0 <= k < reversed@.len() ==> reversed@[k] == orig[n - 1 - k],
            forall|k: int| 0 <= k < rest@.len() ==> rest@[k] == orig[k],
        decreases rest@.len(),
    {
        let c = rest.pop().unwrap();
        reversed.push(c);
    }
    let mut keyed: Vec<(SortKey, Candidate<P>)> = Vec::new();
    let mut i: usize = 0;
    while reversed.len() > 0
        invariant
            i + reversed@.len() == n,
            n == orig.len(),
            forall|k: int| 0 <= k < reversed@.len() ==> reversed@[k] == orig[n - 1 - k],
            keyed_entries(listed_seq(orig.take(i as int), mode), keyed@),
        decreases reversed@.len(),
    {
        let c = reversed.pop().unwrap();
        proof {
            assert(c == orig[i as int]);
            assert(orig.take(i + 1) =~= orig.take(i as int).push(c));
            lemma_listed_push(orig.take(i as int), c, mode);
        }
        let hidden = c.name.as_str().unicode_len() > 0 && c.name.as_str().get_char(0) == '.';
        if !hidden && (c.is_dir || mode == BrowserMode::Save || c.openable) {
            let key = case_blind_key(if c.is_dir { 0 } else { 1 }, c.name.as_str());
            keyed.push((key, c));
        }
        i = i + 1;
    }
    assert(orig.take(n as int) =~= orig);
    let r = stable_sort(keyed);
    r
}

// ---------------------------------------------------------------------------
// Colour profiles
// ---------------------------------------------------------------------------

/// `keyed` pairs each profile of `items` with its case-blind key.
pub open spec fn keyed_profiles<P>(items: Seq<(String, P)>, keyed: Seq<(SortKey, (String, P))>) -> bool {
    &&& keyed.len() == items.len()
    &&& forall|k: int| 0 <= k < items.len() ==> (#[trigger] keyed[k]).1 == items[k]
        && keyed[k].0.rank == 0
        && keyed[k].0.text@ == lowercase(items[k].0@)
}

/// `s` with every entry whose name repeats the one before it left out, as
/// `dedup_by` on the names leaves it.
pub open spec fn dedup_names<P>(s: Seq<(String, P)>) -> Seq<(String, P)>
    decreases s.len(),
{
    if s.len() == 0 {
        s
    } else {
        let rest = dedup_names(s.drop_last());
        if s.len() >= 2 && s[s.len() - 2].0@ == s.last().0@ { rest } else { rest.push(s.last()) }
    }
}

/// `out` is the profile list for `found`: sorted by case-blind name, stably,
/// then with repeats of a name dropped.
pub open spec fn profile_order<P>(found: Seq<(String, P)>, out: Seq<(String, P)>) -> bool {
    exists|keyed: Seq<(SortKey, (String, P))>, sorted: Seq<(SortKey, (String, P))>, from: Seq<int>|
        keyed_profiles(found, keyed) && sorted_by_key(sorted) && stable_arrangement(keyed, sorted, from)
            && out == dedup_names(sorted.map_values(|e: (SortKey, (String, P))| e.1))
}

/// The profiles to offer, in the order to offer them.
pub fn profile_listing<P>(found: Vec<(String, P)>) -> (out: Vec<(String, P)>)
    ensures
        profile_order(found@, out@),
{
    let ghost orig = found@;
    let n = found.len();
    let mut rest = found;
    let mut reversed: Vec<(String, P)> = Vec::new();
    while rest.len() > 0
        invariant
            rest@.len() + reversed@.len() == n,
            n == orig.len(),
            forall|k: int| 0 <= k < reversed@.len() ==> reversed@[k] == orig[n - 1 - k],
            forall|k: int| 0 <= k < rest@.len() ==> rest@[k] == orig[k],
        decreases rest@.len(),
    {
        let c = rest.pop().unwrap();
        reversed.push(c);
    }
    let mut keyed: Vec<(SortKey, (String, P))> = Vec::new();
    let mut i: usize = 0;
    while reversed.len() > 0
        invariant
            i + reversed@.len() == n,
            n == orig.len(),
            forall|k: int| 0 <= k < reversed@.len() ==> reversed@[k] == orig[n - 1 - k],
            keyed_profiles(orig.take(i as int), keyed@),
        decreases reversed@.len(),
    {
        let c = reversed.pop().unwrap();
        proof {
            assert(c == orig[i as int]);
            assert(orig.take(i + 1) =~= orig.take(i as int).push(c));
        }
        let key = case_blind_key(0, c.0.as_str());
        keyed.push((key, c));
        i = i + 1;
    }
    assert(orig.take(n as int) =~= orig);
    let sorted = stable_sort(keyed);
    let ghost sorted_view = sorted@;
    let ghost items = sorted_view.map_values(|e: (SortKey, (String, P))| e.1);
    // Drop every entry whose name repeats the one before it.
    let m = sorted.len();
    let mut rest2 = sorted;
    let mut back: Vec<(SortKey, (String, P))> = Vec::new();
    while rest2.len() > 0
        invariant
            rest2@.len() + back@.len() == m,
            m == sorted_view.len(),
            forall|k: int| 0 <= k < back@.len() ==> back@[k] == sorted_view[m - 1 - k],
            forall|k: int| 0 <= k < rest2@.len() ==> rest2@[k] == sorted_view[k],
        decreases rest2@.len(),
    {
        let e = rest2.pop().unwrap();
        back.push(e);
    }
    let mut out: Vec<(String, P)> = Vec::new();
    let mut j: usize = 0;
    while back.len() > 0
        invariant
            j + back@.len() == m,
            m == sorted_view.len(),
            items == sorted_view.map_values(|e: (SortKey, (String, P))| e.1),
            forall|k: int| 0 <= k < back@.len() ==> back@[k] == sorted_view[m - 1 - k],
            out@ == dedup_names(items.take(j as int)),
            j > 0 ==> out@.len() > 0 && out@.last().0@ == items[j - 1].0@,
        decreases back@.len(),
    {
        let e = back.pop().unwrap();
        let item = e.1;
        proof {
            assert(item == items[j as int]);
            let t = items.take(j + 1);
            assert(t.drop_last() =~= items.take(j as int));
            assert(t.last() == item);
            if j >= 1 {
                assert(t[t.len() - 2] == items[j - 1]);
            }
        }
        let repeat = out.len() > 0 && out[out.len() - 1].0 == item.0;
        if !repeat {
            out.push(item);
        }
        j = j + 1;
    }
    assert(items.take(m as int) =~= items);
    out
}

proof fn lemma_dedup_last<P>(s: Seq<(String, P)>)
    requires
        s.len() > 0,
    ensures
        dedup_names(s).len() > 0,
        dedup_names(s).last().0@ == s.last().0@,
    decreases s.len(),
{
    if s.len() >= 2 && s[s.len() - 2].0@ == s.last().0@ {
        lemma_dedup_last(s.drop_last());
    }
}

proof fn lemma_dedup_no_repeats<P>(s: Seq<(String, P)>)
    ensures
        forall|i: int| 0 <= i < dedup_names(s).len() - 1
            ==> (#[trigger] dedup_names(s)[i]).0@ != dedup_names(s)[i + 1].0@,
    decreases s.len(),
{
    if s.len() > 0 {
        lemma_dedup_no_repeats(s.drop_last());
        let rest = dedup_names(s.drop_last());
        if !(s.len() >= 2 && s[s.len() - 2].0@ == s.last().0@) {
            if s.len() >= 2 {
                lemma_dedup_last(s.drop_last());
                assert(s.drop_last().last() == s[s.len() - 2]);
            }
            assert forall|i: int| 0 <= i < dedup_names(s).len() - 1
                implies (#[trigger] dedup_names(s)[i]).0@ != dedup_names(s)[i + 1].0@ by {
                assert(dedup_names(s) == rest.push(s.last()));
                if i + 1 < rest.len() {
                    assert(dedup_names(s)[i] == rest[i]);
                    assert(dedup_names(s)[i + 1] == rest[i + 1]);
                } else {
                    assert(dedup_names(s)[i] == rest.last());
                    assert(dedup_names(s)[i + 1] == s.last());
                }
            }
        }
    }
}

/// The profile list never shows a name twice in a row: each repeat of the
/// name before it is dropped.
pub proof fn no_profile_name_repeats_in_a_row<P>(found: Seq<(String, P)>, out: Seq<(String, P)>)
    requires
        profile_order(found, out),
    ensures
        forall|i: int| 0 <= i < out.len() - 1 ==> (#[trigger] out[i]).0@ != out[i + 1].0@,
{
    let (keyed, sorted, from) = choose|keyed: Seq<(SortKey, (String, P))>, sorted: Seq<(SortKey, (String, P))>, from: Seq<int>|
        keyed_profiles(found, keyed) && sorted_by_key(sorted) && stable_arrangement(keyed, sorted, from)
            && out == dedup_names(sorted.map_values(|e: (SortKey, (String, P))| e.1));
    lemma_dedup_no_repeats(sorted.map_values(|e: (SortKey, (String, P))| e.1));
}

/// The browser lists every folder before any file, and lists nothing that is
/// hidden or, when opening, that cannot be opened.
pub proof fn folders_come_first<P>(read: Seq<Candidate<P>>, mode: BrowserMode, r: Seq<(SortKey, Candidate<P>)>)
    requires
        browser_order(read, mode, r),
    ensures
        forall|i: int, j: int| 0 <= i < j < r.len() && (#[trigger] r[j]).1.is_dir ==> (#[trigger] r[i]).1.is_dir,
        forall|i: int| 0 <= i < r.len() ==> listed((#[trigger] r[i]).1, mode),
{
    let (keyed, from) = choose|keyed: Seq<(SortKey, Candidate<P>)>, from: Seq<int>|
        keyed_entries(listed_seq(read, mode), keyed) && stable_arrangement(keyed, r, from);
    let items = listed_seq(read, mode);
    lemma_listed_seq_listed(read, mode);
    assert forall|i: int| 0 <= i < r.len() implies r[i].0.rank == entry_rank(r[i].1) && listed(r[i].1, mode) by {
        let k = from[i];
        assert(r[i] == keyed[k]);
        assert(keyed[k].1 == items[k]);
    }
    assert forall|i: int, j: int| 0 <= i < j < r.len() && (#[trigger] r[j]).1.is_dir implies (#[trigger] r[i]).1.is_dir by {
        assert(key_le(r[i].0, r[j].0));
        assert(r[i].0.rank == entry_rank(r[i].1));
        assert(r[j].0.rank == entry_rank(r[j].1));
    }
}

proof fn lemma_listed_seq_listed<P>(s: Seq<Candidate<P>>, mode: BrowserMode)
    ensures
        forall|i: int| 0 <= i < listed_seq(s, mode).len() ==> listed(#[trigger] listed_seq(s, mode)[i], mode),
    decreases s.len(),
{
    if s.len() > 0 {
        lemma_listed_seq_listed(s.drop_last(), mode);
        let rest = listed_seq(s.drop_last(), mode);
        assert forall|i: int| 0 <= i < listed_seq(s, mode).len() implies listed(#[trigger] listed_seq(s, mode)[i], mode) by {
            if listed(s.last(), mode) {
                assert(listed_seq(s, mode) == rest.push(s.last()));
                if i < rest.len() {
                    assert(listed_seq(s, mode)[i] == rest[i]);
                }
            } else {
                assert(listed_seq(s, mode) == rest);
            }
        }
    }
}

} // verus!

//! Bookkeeping for open documents: which tab is focused after one closes or
//! another is chosen, what a new untitled document is called, and what its
//! tab says.

use vstd::prelude::*;
use crate::text::{dec, is_blank, push_decimal, trimmed};

verus! {

/// The result of closing a tab: which one goes, and which is focused after.
#[derive(Debug, Clone, Copy, PartialEq, Eq, Structural)]
pub struct CloseOutcome {
    /// The index of the tab that is removed.
    pub removed: usize,
    /// The tab focused afterwards, as an index into the shortened list.
    pub active: Option<usize>,
}

/// Which tab `CloseDocument(requested)` closes: `usize::MAX` means the
/// focused one (the first, with none focused).
pub open spec fn close_index(active: Option<usize>, requested: usize) -> int {
    let current = match active { Some(a) => a as int, None => 0 };
    if requested == usize::MAX { current } else { requested as int }
}

pub open spec fn spec_close_tab(active: Option<usize>, requested: usize, count: usize) -> Option<CloseOutcome> {
    let current = match active { Some(a) => a as int, None => 0 };
    let i = close_index(active, requested);
    if i >= count {
        None
    } else {
        Some(CloseOutcome {
            removed: i as usize,
            active: if count == 1 {
                None
            } else if current > i {
                Some((current - 1) as usize)
            } else if current < count - 1 {
                Some(current as usize)
            } else {
                Some((count - 2) as usize)
            },
        })
    }
}

/// Close a tab among `count`. Closing a tab to the left of the focused one
/// keeps the same document focused rather than the one that took its index;
/// closing the focused one moves focus to its right-hand neighbour, or to the
/// new last tab. `None` when the index names no tab.
pub fn close_tab(active: Option<usize>, requested: usize, count: usize) -> (r: Option<CloseOutcome>)
    ensures
        r == spec_close_tab(active, requested, count),
{
    let current = match active { Some(a) => a, None => 0 };
    let i = if requested == usize::MAX { current } else { requested };
    if i >= count {
        return None;
    }
    let remaining = count - 1;
    let next = if remaining == 0 {
        None
    } else if current > i {
        Some(current - 1)
    } else if current < remaining {
        Some(current)
    } else {
        Some(remaining - 1)
    };
    Some(CloseOutcome { removed: i, active: next })
}

/// Closing a tab other than the focused one leaves the same document
/// focused, and focus always lands on a tab that exists.
pub proof fn closing_keeps_focus<T>(docs: Seq<T>, active: usize, requested: usize)
    requires
        active < docs.len(),
        requested < docs.len(),
        docs.len() <= usize::MAX,
    ensures
        ({
            let r = spec_close_tab(Some(active), requested, docs.len() as usize);
            &&& r is Some
            &&& r->0.removed == requested
            &&& match r->0.active {
                Some(k) => k < docs.len() - 1 && (requested != active ==> docs.remove(
                    requested as int,
                )[k as int] == docs[active as int]),
                None => docs.len() == 1,
            }
        }),
{
}

/// Choosing a tab focuses it, if it exists.
pub fn select_tab(requested: usize, count: usize) -> (r: Option<usize>)
    ensures
        r == if requested < count { Some(requested) } else { None::<usize> },
{
    if requested < count { Some(requested) } else { None }
}

pub open spec fn spec_untitled_name(typed: Seq<char>, counter: u32) -> Seq<char> {
    if trimmed(typed).len() == 0 {
        "Untitled-"@ + dec((counter + 1) as nat)
    } else {
        typed
    }
}

/// The name a new document gets, and the untitled counter after it. Every new
/// document counts, named or not; a blank name becomes "Untitled-N".
pub fn untitled_name(typed: String, counter: u32) -> (r: (String, u32))
    requires
        counter < u32::MAX,
    ensures
        r.0@ == spec_untitled_name(typed@, counter),
        r.1 == counter + 1,
{
    let next = counter + 1;
    if is_blank(typed.as_str()) {
        let mut s = String::new();
        s.append("Untitled-");
        push_decimal(&mut s, next as u64);
        (s, next)
    } else {
        (typed, next)
    }
}

/// The name a tab shows: the document's, with a dot after it while it has
/// changes that are not saved.
pub fn tab_name(name: &str, modified: bool) -> (s: String)
    ensures
        s@ == name@ + (if modified { " •"@ } else { ""@ }),
{
    let mut s = String::from_str(name);
    if modified {
        s.append(" •");
    }
    proof {
        if !modified {
            assert(s@ =~= name@ + ""@) by {
                reveal_strlit("");
            }
        }
    }
    s
}

/// Closing the focused tab of several moves focus to its right-hand
/// neighbour, which takes its index, or to the new last tab when it was the
/// last: index `min(active, count - 2)` of the shortened list.
pub proof fn closing_the_focused_tab_focuses_its_neighbour(active: usize, requested: usize, count: usize)
    requires
        1 < count,
        active < count,
        requested == active || requested == usize::MAX,
    ensures
        spec_close_tab(Some(active), requested, count) == Some(CloseOutcome {
            removed: active,
            active: Some(if active <= count - 2 { active } else { (count - 2) as usize }),
        }),
{
}

/// Closing the only tab leaves none focused; a request for a tab that does
/// not exist closes nothing.
pub proof fn closing_the_last_tab_leaves_none(active: Option<usize>, requested: usize, count: usize)
    ensures
        count == 1 && (requested == 0 || (requested == usize::MAX && (active is None || active == Some(0usize))))
            ==> spec_close_tab(active, requested, count) == Some(CloseOutcome { removed: 0, active: None }),
        requested != usize::MAX && requested >= count ==> spec_close_tab(active, requested, count) is None,
{
}

/// A new document keeps the name typed for it; a blank name becomes
/// "Untitled-" and the number of documents made so far, this one included.
pub proof fn a_blank_name_is_numbered(typed: Seq<char>, counter: u32)
    ensures
        trimmed(typed).len() > 0 ==> spec_untitled_name(typed, counter) == typed,
        trimmed(typed).len() == 0 ==> spec_untitled_name(typed, counter) == "Untitled-"@ + dec((counter + 1) as nat),
{
}

/// Closing any tab other than the focused one keeps the focused document:
/// a tab to its left shifts its index down by one, a tab to its right
/// leaves it.
pub proof fn closing_another_tab_keeps_the_focused_one(active: usize, requested: usize, count: usize)
    requires
        active < count,
        requested < count,
        requested != active,
    ensures
        requested < active ==> spec_close_tab(Some(active), requested, count) == Some(CloseOutcome {
            removed: requested,
            active: Some((active - 1) as usize),
        }),
        requested > active ==> spec_close_tab(Some(active), requested, count) == Some(CloseOutcome {
            removed: requested,
            active: Some(active),
        }),
{
}

} // verus!

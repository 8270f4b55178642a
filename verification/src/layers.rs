//! Where layers go: above the active one when made, a step at a time when
//! reordered from the keyboard, and wherever the Layers panel's insertion line
//! says when dragged.

use vstd::prelude::*;

verus! {

/// A layer's identity within its document.
#[derive(Debug, Clone, Copy, PartialEq, Eq, Structural)]
pub struct LayerId(pub u64);

/// A slot in the layer tree: the group it is in (`None` for the top level)
/// and its index among that group's children, counted from the bottom.
#[derive(Debug, Clone, Copy, PartialEq, Eq, Structural)]
pub struct LayerPos {
    pub parent: Option<LayerId>,
    pub index: usize,
}

/// The slot directly above `pos`, in the same group.
pub open spec fn above(pos: LayerPos) -> LayerPos {
    LayerPos { parent: pos.parent, index: (pos.index + 1) as usize }
}

/// Where a new layer goes: directly above the active one, in the same group;
/// at the top of the document when no layer is active.
pub fn new_layer_position(active: Option<LayerPos>, root_len: usize) -> (p: LayerPos)
    requires
        active matches Some(a) ==> a.index < usize::MAX,
    ensures
        p == match active {
            Some(a) => above(a),
            None => LayerPos { parent: None, index: root_len },
        },
{
    match active {
        Some(a) => LayerPos { parent: a.parent, index: a.index + 1 },
        None => LayerPos { parent: None, index: root_len },
    }
}

/// Where a copy of the active layer goes: directly above it, or at the
/// bottom of the document when its position is unknown.
pub fn copy_position(active: Option<LayerPos>) -> (p: LayerPos)
    requires
        active matches Some(a) ==> a.index < usize::MAX,
    ensures
        p == match active {
            Some(a) => above(a),
            None => LayerPos { parent: None, index: 0 },
        },
{
    match active {
        Some(a) => LayerPos { parent: a.parent, index: a.index + 1 },
        None => LayerPos { parent: None, index: 0 },
    }
}

pub open spec fn clamp(x: int, lo: int, hi: int) -> int {
    if x < lo { lo } else if x > hi { hi } else { x }
}

/// The index the layer should end up at when moved `by` rows within a group
/// of `count`: `i32::MAX` is the top, `i32::MIN` the bottom, anything else a
/// clamped step.
pub open spec fn reorder_goal(index: usize, count: usize, by: i32) -> int {
    if by == i32::MAX {
        count - 1
    } else if by == i32::MIN {
        0
    } else {
        clamp(index + by, 0, count - 1)
    }
}

/// What a keyboard reorder asks the tree for: the slot to move to, as
/// `move_to` reads it (a position among the siblings *before* the layer is
/// lifted out, so moving up aims one past where it lands); `None` when the
/// layer is already where it would go.
pub open spec fn spec_reorder(index: usize, count: usize, by: i32) -> Option<usize> {
    let goal = reorder_goal(index, count, by);
    if goal == index {
        None
    } else if goal > index {
        Some((goal + 1) as usize)
    } else {
        Some(goal as usize)
    }
}

pub fn reorder_slot(index: usize, count: usize, by: i32) -> (r: Option<usize>)
    requires
        index < count,
        count <= i64::MAX - 0x8000_0000,
    ensures
        r == spec_reorder(index, count, by),
{
    let goal: usize = if by == i32::MAX {
        count - 1
    } else if by == i32::MIN {
        0
    } else {
        let want: i64 = index as i64 + by as i64;
        if want < 0 {
            0
        } else if want > count as i64 - 1 {
            count - 1
        } else {
            want as usize
        }
    };
    if goal == index {
        None
    } else if goal > index {
        Some(goal + 1)
    } else {
        Some(goal)
    }
}

/// The row a step of `by` rows up the Layers panel lands on, from row `at`
/// of `len`: the panel lists the top of the stack first, so up is back
/// through the rows. `None` when it would stay put.
pub open spec fn spec_step_row(at: usize, len: usize, by: i32) -> Option<usize> {
    let next = clamp(at - by, 0, len - 1);
    if next == at { None } else { Some(next as usize) }
}

pub fn step_row(at: usize, len: usize, by: i32) -> (r: Option<usize>)
    requires
        at < len,
        len <= i64::MAX - 0x8000_0000,
    ensures
        r == spec_step_row(at, len, by),
{
    let want: i64 = at as i64 - by as i64;
    let next: usize = if want < 0 {
        0
    } else if want > len as i64 - 1 {
        len - 1
    } else {
        want as usize
    };
    if next == at { None } else { Some(next) }
}

/// Half of the room a pasted image leaves on a canvas side (`canvas`
/// reinterpreted as an `i32`), rounded toward zero as `/` rounds.
pub open spec fn centred(canvas: u32, size: i32) -> int {
    let d = (canvas as i32) - size;
    d / 2 + (if d < 0 && d % 2 != 0 { 1int } else { 0int })
}

/// Where a pasted layer is placed: where it was copied from for Paste in
/// Place, otherwise centred on the canvas.
pub fn paste_offset(in_place: bool, origin: (i32, i32), canvas: (u32, u32), size: (i32, i32)) -> (o: (i32, i32))
    requires
        !in_place ==> i32::MIN <= (canvas.0 as i32) - size.0 <= i32::MAX,
        !in_place ==> i32::MIN <= (canvas.1 as i32) - size.1 <= i32::MAX,
    ensures
        in_place ==> o == origin,
        !in_place ==> o.0 as int == centred(canvas.0, size.0) && o.1 as int == centred(canvas.1, size.1),
{
    if in_place {
        origin
    } else {
        ((canvas.0 as i32 - size.0) / 2, (canvas.1 as i32 - size.1) / 2)
    }
}

/// A lifted pixel's alpha, faded by the selection's coverage of it (both out
/// of 255), so a feathered selection lifts a feathered layer.
pub fn lifted_alpha(alpha: u8, coverage: u8) -> (a: u8)
    ensures
        a == (alpha as int * coverage as int) / 255,
{
    proof {
        assert(alpha as int * coverage as int <= 255 * 255) by (nonlinear_arith)
            requires alpha <= 255, coverage <= 255;
        assert((alpha as int * coverage as int) / 255 <= 255) by (nonlinear_arith)
            requires alpha as int * coverage as int <= 255 * 255;
    }
    ((alpha as u32 * coverage as u32) / 255) as u8
}

// ---------------------------------------------------------------------------
// Dragging in the Layers panel
// ---------------------------------------------------------------------------

/// Which listed row a gap is read against: the row below the gap, or the last
/// row for the gap past the end; none in an empty list.
pub fn gap_row(row_count: usize, gap: usize) -> (r: Option<usize>)
    ensures
        r == if row_count == 0 {
            None
        } else if gap < row_count {
            Some(gap)
        } else {
            Some((row_count - 1) as usize)
        },
{
    if row_count == 0 {
        None
    } else if gap < row_count {
        Some(gap)
    } else {
        Some(row_count - 1)
    }
}

/// Turn a gap in the panel into a slot in the tree, given the tree position of
/// the row `gap_row` names. A gap above a row is the slot above that row; the
/// gap past the last row is that row's own slot (directly below it); with no
/// rows, or a row the tree does not know, the bottom of the document.
pub fn gap_position(row_count: usize, gap: usize, row_pos: Option<LayerPos>) -> (p: LayerPos)
    requires
        row_pos matches Some(r) ==> r.index < usize::MAX,
    ensures
        p == if row_count == 0 {
            LayerPos { parent: None, index: 0 }
        } else {
            match row_pos {
                Some(r) => if gap < row_count { above(r) } else { r },
                None => LayerPos { parent: None, index: 0 },
            }
        },
{
    let bottom = LayerPos { parent: None, index: 0 };
    if row_count == 0 {
        return bottom;
    }
    match row_pos {
        Some(r) => if gap < row_count {
            LayerPos { parent: r.parent, index: r.index + 1 }
        } else {
            r
        },
        None => bottom,
    }
}

/// A move from `from` to the slot `to` that would leave the layer where it
/// is: the same group, and the slot just below or just above it.
pub open spec fn same_place(from: LayerPos, to: LayerPos) -> bool {
    from.parent == to.parent && (from.index == to.index || from.index + 1 == to.index)
}

/// Whether a drop may happen, and so whether the insertion line is drawn.
/// `from` is where the dragged layer is now (`None` if the tree has lost it);
/// `parent_is_inside` says the target group is inside the dragged layer;
/// `last_is_background` says the last row is a pinned Background.
pub open spec fn spec_drop_allowed(
    dragged: LayerId,
    from: Option<LayerPos>,
    to: LayerPos,
    parent_is_inside: bool,
    gap: usize,
    row_count: usize,
    last_is_background: bool,
) -> bool {
    match from {
        None => false,
        Some(f) => {
            let into_itself = match to.parent {
                Some(p) => p == dragged || parent_is_inside,
                None => false,
            };
            let under_background = row_count > 0 && gap == row_count && last_is_background;
            !same_place(f, to) && !into_itself && !under_background
        },
    }
}

pub fn drop_allowed(
    dragged: LayerId,
    from: Option<LayerPos>,
    to: LayerPos,
    parent_is_inside: bool,
    gap: usize,
    row_count: usize,
    last_is_background: bool,
) -> (b: bool)
    ensures
        b == spec_drop_allowed(dragged, from, to, parent_is_inside, gap, row_count, last_is_background),
{
    match from {
        None => false,
        Some(f) => {
            let same = f.parent == to.parent && (f.index == to.index || (f.index < usize::MAX
                && f.index + 1 == to.index));
            let into_itself = match to.parent {
                Some(p) => p == dragged || parent_is_inside,
                None => false,
            };
            let under_background = row_count > 0 && gap == row_count && last_is_background;
            !same && !into_itself && !under_background
        },
    }
}

/// A keyboard reorder never asks for a move that would leave the layer
/// where it is — the same test the panel applies before drawing a drop.
pub proof fn reorder_always_moves(parent: Option<LayerId>, index: usize, count: usize, by: i32)
    requires
        index < count,
        count <= i64::MAX - 0x8000_0000,
    ensures
        spec_reorder(index, count, by) matches Some(slot) ==> !same_place(
            LayerPos { parent, index },
            LayerPos { parent, index: slot },
        ),
        spec_reorder(index, count, by) matches Some(slot) ==> slot <= count,
{
}

/// A drop is refused only for a reason: it would leave the layer where it
/// is, put it inside itself, or put it under a pinned Background. With no
/// Background pinned at the bottom, every other drop of a layer the tree
/// knows is allowed, the bottom gap included.
pub proof fn drops_are_refused_only_for_a_reason(
    dragged: LayerId,
    f: LayerPos,
    to: LayerPos,
    parent_is_inside: bool,
    gap: usize,
    row_count: usize,
)
    requires
        f.parent != to.parent || (to.index != f.index && to.index != f.index + 1),
        to.parent matches Some(p) ==> p != dragged && !parent_is_inside,
    ensures
        spec_drop_allowed(dragged, Some(f), to, parent_is_inside, gap, row_count, false),
        gap != row_count ==> spec_drop_allowed(dragged, Some(f), to, parent_is_inside, gap, row_count, true),
{
}

/// Each reason does refuse: a drop under a pinned Background, back where the
/// layer is, into the dragged layer or a group inside it, or of a layer the
/// tree has lost.
pub proof fn each_reason_refuses_the_drop(
    dragged: LayerId,
    from: Option<LayerPos>,
    to: LayerPos,
    parent_is_inside: bool,
    gap: usize,
    row_count: usize,
    last_is_background: bool,
)
    ensures
        row_count > 0 && gap == row_count && last_is_background ==> !spec_drop_allowed(
            dragged, from, to, parent_is_inside, gap, row_count, last_is_background),
        from matches Some(f) && f.parent == to.parent && (to.index == f.index || to.index == f.index + 1)
            ==> !spec_drop_allowed(dragged, from, to, parent_is_inside, gap, row_count, last_is_background),
        to.parent == Some(dragged) ==> !spec_drop_allowed(
            dragged, from, to, parent_is_inside, gap, row_count, last_is_background),
        to.parent is Some && parent_is_inside ==> !spec_drop_allowed(
            dragged, from, to, parent_is_inside, gap, row_count, last_is_background),
        from is None ==> !spec_drop_allowed(dragged, from, to, parent_is_inside, gap, row_count, last_is_background),
{
}

/// The slot above a layer is in the same group, one index higher.
pub proof fn above_is_one_higher_in_the_same_group(pos: LayerPos)
    requires
        pos.index < usize::MAX,
    ensures
        above(pos).parent == pos.parent,
        above(pos).index == pos.index + 1,
{
}

/// A keyboard reorder lands the layer on the clamped target: as `move_to`
/// reads the slot before lifting the layer out, a move up asks for one
/// past the landing index. So a step up asks for `index + 2`, a step down
/// for `index - 1`, the top for `count` and the bottom for `0`; at either
/// end a step that would leave the group asks for nothing.
pub proof fn a_reorder_lands_where_asked(index: usize, count: usize, by: i32)
    requires
        index < count,
    ensures
        index + 1 < count ==> spec_reorder(index, count, 1) == Some((index + 2) as usize),
        index > 0 ==> spec_reorder(index, count, -1i32) == Some((index - 1) as usize),
        index + 1 < count ==> spec_reorder(index, count, i32::MAX) == Some(count),
        index > 0 ==> spec_reorder(index, count, i32::MIN) == Some(0usize),
        index + 1 == count ==> spec_reorder(index, count, 1) is None && spec_reorder(index, count, i32::MAX) is None,
        index == 0 ==> spec_reorder(index, count, -1i32) is None && spec_reorder(index, count, i32::MIN) is None,
        spec_reorder(index, count, 0) is None,
        spec_reorder(index, count, by) matches Some(slot) ==> {
            let lands = if slot > index { slot - 1 } else { slot as int };
            &&& 0 <= lands < count
            &&& by > 0 ==> lands > index
            &&& by < 0 ==> lands < index
        },
{
}

/// Stepping through the Layers panel's rows: the panel lists the top of
/// the stack first, so a step up goes to the row before, a step down to the
/// row after, and neither goes past the ends.
pub proof fn a_row_step_moves_one_row(at: usize, len: usize, by: i32)
    requires
        at < len,
    ensures
        at > 0 ==> spec_step_row(at, len, 1) == Some((at - 1) as usize),
        at + 1 < len ==> spec_step_row(at, len, -1i32) == Some((at + 1) as usize),
        at == 0 ==> spec_step_row(at, len, 1) is None,
        at + 1 == len ==> spec_step_row(at, len, -1i32) is None,
        spec_step_row(at, len, by) matches Some(n) ==> n < len && n != at && (by > 0 ==> n < at) && (by < 0 ==> n > at),
{
}

/// A pasted image is centred: the room it leaves is split in two, rounded
/// toward zero, so the two margins differ by at most a pixel.
pub proof fn a_paste_is_centred(canvas: u32, size: i32)
    requires
        i32::MIN <= (canvas as i32) - size <= i32::MAX,
    ensures
        ({
            let d = (canvas as i32) - size;
            let c = centred(canvas, size);
            &&& d >= 0 ==> 0 <= c && c + c <= d && d <= c + c + 1
            &&& d < 0 ==> c <= 0 && d <= c + c && c + c <= d + 1
        }),
{
}

} // verus!

//! Commands as data: what the window is asked to do, the fixed transforms,
//! the anchor a canvas resize grows from, and the Select > Modify operations.

use vstd::prelude::*;
use crate::units::{to_float, to_float_exec, F32_EXACT};

verus! {

/// Something only the window itself can do.
///
/// With the platform's title bar switched off, moving, resizing, minimising
/// and maximising all become the application's job — but the window lives in
/// the event loop, so the interface queues these and the loop carries them out.
#[derive(Debug, Clone, Copy, PartialEq, Eq, Structural)]
pub enum WindowCommand {
    /// Begin an interactive move, as dragging a title bar does.
    StartDrag,
    /// Begin an interactive resize from an edge or corner.
    StartResize(ResizeEdge),
    Minimize,
    ToggleMaximize,
    Close,
}

/// Which edge or corner a resize drag started from.
#[derive(Debug, Clone, Copy, PartialEq, Eq, Structural)]
pub enum ResizeEdge {
    North,
    South,
    East,
    West,
    NorthEast,
    NorthWest,
    SouthEast,
    SouthWest,
}

/// The pointer shape that shows which way a window edge moves.
#[derive(Debug, Clone, Copy, PartialEq, Eq, Structural)]
pub enum ResizeCursor {
    /// Up and down.
    Vertical,
    /// Left and right.
    Horizontal,
    /// Along the diagonal from top left to bottom right.
    NwSe,
    /// Along the diagonal from top right to bottom left.
    NeSw,
}

impl ResizeEdge {
    /// The pointer shape for a resize from this edge or corner.
    pub fn cursor_shape(self) -> (c: ResizeCursor)
        ensures
            c == match self {
                ResizeEdge::North | ResizeEdge::South => ResizeCursor::Vertical,
                ResizeEdge::East | ResizeEdge::West => ResizeCursor::Horizontal,
                ResizeEdge::NorthWest | ResizeEdge::SouthEast => ResizeCursor::NwSe,
                ResizeEdge::NorthEast | ResizeEdge::SouthWest => ResizeCursor::NeSw,
            },
    {
        match self {
            ResizeEdge::North | ResizeEdge::South => ResizeCursor::Vertical,
            ResizeEdge::East | ResizeEdge::West => ResizeCursor::Horizontal,
            ResizeEdge::NorthWest => ResizeCursor::NwSe,
            ResizeEdge::SouthEast => ResizeCursor::NwSe,
            ResizeEdge::NorthEast => ResizeCursor::NeSw,
            ResizeEdge::SouthWest => ResizeCursor::NeSw,
        }
    }
}

/// Whether the window's edges and corners can be dragged to resize it: a
/// maximised window has no edges to drag.
pub fn offers_resize_edges(maximized: bool) -> (b: bool)
    ensures
        b == !maximized,
{
    !maximized
}

/// A fixed rotation or flip, from the Image > Transform menu.
#[derive(Debug, Clone, Copy, PartialEq, Eq, Structural)]
pub enum TransformPreset {
    Rotate90Cw,
    Rotate90Ccw,
    Rotate180,
    FlipHorizontal,
    FlipVertical,
}

impl TransformPreset {
    /// The menu label.
    pub open spec fn spec_name(self) -> Seq<char> {
        match self {
            TransformPreset::Rotate90Cw => "Rotate 90° Clockwise"@,
            TransformPreset::Rotate90Ccw => "Rotate 90° Counter Clockwise"@,
            TransformPreset::Rotate180 => "Rotate 180°"@,
            TransformPreset::FlipHorizontal => "Flip Horizontal"@,
            TransformPreset::FlipVertical => "Flip Vertical"@,
        }
    }

    pub fn name(self) -> (s: &'static str)
        ensures
            s@ == self.spec_name(),
    {
        match self {
            TransformPreset::Rotate90Cw => "Rotate 90° Clockwise",
            TransformPreset::Rotate90Ccw => "Rotate 90° Counter Clockwise",
            TransformPreset::Rotate180 => "Rotate 180°",
            TransformPreset::FlipHorizontal => "Flip Horizontal",
            TransformPreset::FlipVertical => "Flip Vertical",
        }
    }

    pub const ALL: [TransformPreset; 5] = [
        TransformPreset::Rotate90Cw,
        TransformPreset::Rotate90Ccw,
        TransformPreset::Rotate180,
        TransformPreset::FlipHorizontal,
        TransformPreset::FlipVertical,
    ];
}

/// Which corner or edge a canvas resize grows from.
#[derive(Debug, Clone, Copy, PartialEq, Eq, Structural)]
pub enum Anchor {
    TopLeft,
    Top,
    TopRight,
    Left,
    Center,
    Right,
    BottomLeft,
    Bottom,
    BottomRight,
}

impl Default for Anchor {
    fn default() -> (a: Anchor)
        ensures
            a == Anchor::Center,
    {
        Anchor::Center
    }
}

/// The nearest value to `x` that an `i32` holds, as a float-to-int `as` gives it.
pub open spec fn saturate_i32(x: int) -> int {
    if x > i32::MAX { i32::MAX as int } else if x < i32::MIN { i32::MIN as int } else { x }
}

/// Half of `d`, rounded half away from zero, as `f32::round` rounds.
pub open spec fn half_away(d: int) -> int {
    if d >= 0 { (d + 1) / 2 } else { -((-d + 1) / 2) }
}

/// `to as f32 - from as f32`, computed as `f32` arithmetic computes it: each
/// side rounded to the nearest `f32`, then the difference rounded again.
pub open spec fn f32_difference(from: nat, to: nat) -> int {
    let a = to_float(to, F32_EXACT as nat);
    let b = to_float(from, F32_EXACT as nat);
    if a >= b {
        to_float((a - b) as nat, F32_EXACT as nat) as int
    } else {
        -(to_float((b - a) as nat, F32_EXACT as nat) as int)
    }
}

/// The shift along one axis for a weight of `halves` halves of the change.
pub open spec fn axis_shift(halves: int, from: nat, to: nat) -> int {
    if halves == 0 {
        0
    } else if halves == 1 {
        saturate_i32(half_away(f32_difference(from, to)))
    } else {
        saturate_i32(f32_difference(from, to))
    }
}

impl Anchor {
    pub const GRID: [[Anchor; 3]; 3] = [
        [Anchor::TopLeft, Anchor::Top, Anchor::TopRight],
        [Anchor::Left, Anchor::Center, Anchor::Right],
        [Anchor::BottomLeft, Anchor::Bottom, Anchor::BottomRight],
    ];

    /// How many halves of the horizontal change land before the content:
    /// none on the left column, one in the middle, both on the right.
    pub open spec fn x_halves(self) -> int {
        match self {
            Anchor::TopLeft | Anchor::Left | Anchor::BottomLeft => 0,
            Anchor::Top | Anchor::Center | Anchor::Bottom => 1,
            _ => 2,
        }
    }

    /// The same for the vertical change, by row.
    pub open spec fn y_halves(self) -> int {
        match self {
            Anchor::TopLeft | Anchor::Top | Anchor::TopRight => 0,
            Anchor::Left | Anchor::Center | Anchor::Right => 1,
            _ => 2,
        }
    }

    pub open spec fn spec_shift(self, from: (u32, u32), to: (u32, u32)) -> (int, int) {
        (
            axis_shift(self.x_halves(), from.0 as nat, to.0 as nat),
            axis_shift(self.y_halves(), from.1 as nat, to.1 as nat),
        )
    }

    fn halves(self) -> (r: (u8, u8))
        ensures
            r.0 == self.x_halves(),
            r.1 == self.y_halves(),
    {
        let x = match self {
            Anchor::TopLeft | Anchor::Left | Anchor::BottomLeft => 0,
            Anchor::Top | Anchor::Center | Anchor::Bottom => 1,
            _ => 2,
        };
        let y = match self {
            Anchor::TopLeft | Anchor::Top | Anchor::TopRight => 0,
            Anchor::Left | Anchor::Center | Anchor::Right => 1,
            _ => 2,
        };
        (x, y)
    }

    /// How far layers shift when the canvas goes from `from` to `to`: the
    /// anchor's share of the size change, computed in `f32` and rounded to
    /// the nearest pixel, halves away from zero.
    pub fn shift(self, from: (u32, u32), to: (u32, u32)) -> (r: (i32, i32))
        ensures
            (r.0 as int, r.1 as int) == self.spec_shift(from, to),
    {
        let (hx, hy) = self.halves();
        (axis_shift_exec(hx, from.0, to.0), axis_shift_exec(hy, from.1, to.1))
    }
}

fn f32_difference_exec(from: u32, to: u32) -> (d: i64)
    ensures
        d == f32_difference(from as nat, to as nat),
        -0x10_0000_0000 < d < 0x10_0000_0000,
{
    let a = to_float_exec(to as u128, F32_EXACT);
    let b = to_float_exec(from as u128, F32_EXACT);
    if a >= b {
        let r = to_float_exec(a - b, F32_EXACT);
        r as i64
    } else {
        let r = to_float_exec(b - a, F32_EXACT);
        -(r as i64)
    }
}

fn saturate_i32_exec(x: i64) -> (r: i32)
    ensures
        r == saturate_i32(x as int),
{
    if x > i32::MAX as i64 {
        i32::MAX
    } else if x < i32::MIN as i64 {
        i32::MIN
    } else {
        x as i32
    }
}

fn axis_shift_exec(halves: u8, from: u32, to: u32) -> (r: i32)
    requires
        halves <= 2,
    ensures
        r == axis_shift(halves as int, from as nat, to as nat),
{
    if halves == 0 {
        0
    } else if halves == 1 {
        let d = f32_difference_exec(from, to);
        let h = if d >= 0 { (d + 1) / 2 } else { -((-d + 1) / 2) };
        saturate_i32_exec(h)
    } else {
        saturate_i32_exec(f32_difference_exec(from, to))
    }
}

/// Which Modify operation a dialog is collecting an amount for.
#[derive(Debug, Clone, Copy, PartialEq, Eq, Structural)]
pub enum ModifyKind {
    Feather,
    Expand,
    Contract,
    Border,
    Smooth,
}

impl ModifyKind {
    pub open spec fn spec_title(self) -> Seq<char> {
        match self {
            ModifyKind::Feather => "Feather Selection"@,
            ModifyKind::Expand => "Expand Selection"@,
            ModifyKind::Contract => "Contract Selection"@,
            ModifyKind::Border => "Border Selection"@,
            ModifyKind::Smooth => "Smooth Selection"@,
        }
    }

    pub open spec fn spec_field(self) -> Seq<char> {
        match self {
            ModifyKind::Feather => "Feather Radius:"@,
            ModifyKind::Expand => "Expand By:"@,
            ModifyKind::Contract => "Contract By:"@,
            ModifyKind::Border => "Width:"@,
            ModifyKind::Smooth => "Sample Radius:"@,
        }
    }

    /// The dialog's title.
    pub fn title(self) -> (s: &'static str)
        ensures
            s@ == self.spec_title(),
    {
        match self {
            ModifyKind::Feather => "Feather Selection",
            ModifyKind::Expand => "Expand Selection",
            ModifyKind::Contract => "Contract Selection",
            ModifyKind::Border => "Border Selection",
            ModifyKind::Smooth => "Smooth Selection",
        }
    }

    /// The label beside the amount.
    pub fn field(self) -> (s: &'static str)
        ensures
            s@ == self.spec_field(),
    {
        match self {
            ModifyKind::Feather => "Feather Radius:",
            ModifyKind::Expand => "Expand By:",
            ModifyKind::Contract => "Contract By:",
            ModifyKind::Border => "Width:",
            ModifyKind::Smooth => "Sample Radius:",
        }
    }
}

proof fn lemma_small_is_exact(x: nat)
    requires
        x < F32_EXACT,
    ensures
        to_float(x, F32_EXACT as nat) == x,
{
    assert(crate::units::float_spacing(x, F32_EXACT as nat) == 1);
}

/// Resizing the canvas to the size it already has moves nothing, whatever
/// the anchor.
pub proof fn shift_to_same_size_is_zero(anchor: Anchor, size: (u32, u32))
    ensures
        anchor.spec_shift(size, size) == (0int, 0int),
{
    lemma_small_is_exact(0);
}

/// For canvases under 2^24 pixels a side, where `f32` holds every size
/// exactly, the shift is the anchor's share of the exact change: none for
/// the near edge, half (rounded away from zero) for the middle, all of it for
/// the far edge.
pub proof fn shift_is_exact_for_real_sizes(anchor: Anchor, from: (u32, u32), to: (u32, u32))
    requires
        from.0 < F32_EXACT,
        from.1 < F32_EXACT,
        to.0 < F32_EXACT,
        to.1 < F32_EXACT,
    ensures
        anchor.spec_shift(from, to).0 == if anchor.x_halves() == 0 {
            0
        } else if anchor.x_halves() == 1 {
            half_away(to.0 - from.0)
        } else {
            to.0 - from.0
        },
        anchor.spec_shift(from, to).1 == if anchor.y_halves() == 0 {
            0
        } else if anchor.y_halves() == 1 {
            half_away(to.1 - from.1)
        } else {
            to.1 - from.1
        },
{
    lemma_small_is_exact(from.0 as nat);
    lemma_small_is_exact(from.1 as nat);
    lemma_small_is_exact(to.0 as nat);
    lemma_small_is_exact(to.1 as nat);
    if to.0 >= from.0 { lemma_small_is_exact((to.0 - from.0) as nat); } else { lemma_small_is_exact((from.0 - to.0) as nat); }
    if to.1 >= from.1 { lemma_small_is_exact((to.1 - from.1) as nat); } else { lemma_small_is_exact((from.1 - to.1) as nat); }
}

/// The titles of the Modify dialogs name different operations.
pub proof fn modify_titles_are_distinct(a: ModifyKind, b: ModifyKind)
    requires
        a != b,
    ensures
        a.spec_title() != b.spec_title(),
{
    reveal_strlit("Feather Selection");
    reveal_strlit("Expand Selection");
    reveal_strlit("Contract Selection");
    reveal_strlit("Border Selection");
    reveal_strlit("Smooth Selection");
    if a.spec_title() == b.spec_title() {
        assert(a.spec_title()[0] == b.spec_title()[0]);
    }
}

/// Every preset has a label of its own.
pub proof fn preset_names_are_distinct(a: TransformPreset, b: TransformPreset)
    requires
        a != b,
    ensures
        a.spec_name() != b.spec_name(),
{
    reveal_strlit("Rotate 90° Clockwise");
    reveal_strlit("Rotate 90° Counter Clockwise");
    reveal_strlit("Rotate 180°");
    reveal_strlit("Flip Horizontal");
    reveal_strlit("Flip Vertical");
    if a.spec_name() == b.spec_name() {
        assert(a.spec_name().len() == b.spec_name().len());
        assert(a.spec_name()[5] == b.spec_name()[5]);
        assert(a.spec_name()[7] == b.spec_name()[7]);
    }
}

} // verus!

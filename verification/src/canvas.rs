//! The document viewport's pointer interaction: which handler takes a
//! pointer event, and what the active tool does with it.
//!
//! The window measures the event (where it is, whether it closes a polygon,
//! what text is under it) and hands over the outcomes as plain values;
//! [`canvas_step`] decides, and returns the commands to carry out in order.
//! The geometry itself (positions, distances, zoom) stays with the window.

use vstd::prelude::*;

verus! {

/// The tools the canvas knows.
#[derive(Debug, Clone, Copy, PartialEq, Eq, Structural)]
pub enum Tool {
    Move,
    RectangularMarquee,
    EllipticalMarquee,
    Lasso,
    PolygonalLasso,
    MagicWand,
    Crop,
    Eyedropper,
    SpotHealing,
    HealingBrush,
    Brush,
    Pencil,
    CloneStamp,
    HistoryBrush,
    Eraser,
    Gradient,
    PaintBucket,
    Blur,
    Sharpen,
    Smudge,
    Dodge,
    Burn,
    Sponge,
    Pen,
    DirectSelect,
    Text,
    Shape,
    Hand,
    Zoom,
    /// A tool the canvas has no handler for.
    Other,
}

/// The retouching brushes' kinds.
#[derive(Debug, Clone, Copy, PartialEq, Eq, Structural)]
pub enum RetouchKind {
    Dodge,
    Burn,
    Sponge,
}

/// What a stroke does to the pixels.
#[derive(Debug, Clone, Copy, PartialEq, Eq, Structural)]
pub enum PaintMode {
    Paint,
    Erase,
    /// Dodge, burn or sponge; `soak` is the sponge's saturate (rather than
    /// desaturate) switch.
    Retouch { kind: RetouchKind, soak: bool },
}

/// Where a stroke takes its pixels from.
#[derive(Debug, Clone, Copy, PartialEq, Eq, Structural)]
pub enum StrokeSource {
    /// The brush colour; `clone` copies from the Clone Stamp's anchor.
    Colour { clone: bool },
    Heal,
    HealSpot,
    History,
    /// The brush's filter (Blur, Sharpen).
    Filter,
}

/// Which dialog is open, as far as the canvas cares.
#[derive(Debug, Clone, Copy, PartialEq, Eq, Structural)]
pub enum CanvasDialog {
    Closed,
    /// Colour Range: a click samples a colour.
    ColorRange,
    /// Segment: a click gives a hint, unless a run is still going.
    Segment { busy: bool },
    /// Any other dialog: the canvas can still be panned, but the tools
    /// take no clicks.
    Other,
}

/// The selection being dragged out, if any.
#[derive(Debug, Clone, Copy, PartialEq, Eq, Structural)]
pub enum DragKind {
    NoDrag,
    Marquee,
    Lasso,
    Polygon,
}

/// What the Type tool's click landed on.
#[derive(Debug, Clone, Copy, PartialEq, Eq, Structural)]
pub enum TextHit {
    /// The type being edited.
    Editing,
    /// Another text layer.
    TextLayer,
    Nothing,
}

/// How a new selection combines with the current one: the mode chosen in
/// the options bar, or, when that is Replace, the one the modifiers held at
/// the start of the gesture pick.
#[derive(Debug, Clone, Copy, PartialEq, Eq, Structural)]
pub enum ModeChoice {
    Chosen,
    FromModifiers { shift: bool, alt: bool },
}

/// What the canvas knows when a pointer event arrives.
#[derive(Debug, Clone, Copy, PartialEq, Eq, Structural)]
pub struct CanvasState {
    pub has_doc: bool,
    pub dialog: CanvasDialog,
    pub tool: Tool,
    pub tool_implemented: bool,
    /// The retouch kind the tool applies, if it is a retouching brush.
    pub retouch: Option<RetouchKind>,
    /// The sponge's saturate switch in the options bar.
    pub soak: bool,
    /// The brush has a filter (Blur, Sharpen).
    pub brush_filter: bool,
    pub space_held: bool,
    pub middle_drag: bool,
    pub transforming: bool,
    pub painting: bool,
    pub alt: bool,
    pub shift: bool,
    /// The options bar's selection mode is Replace.
    pub replace_mode: bool,
    /// A drag for a shape or a text box has started.
    pub has_drag_start: bool,
    pub drag: DragKind,
    /// A click now would close the polygon (it is back on the first point).
    pub polygon_closes: bool,
    /// A Pen path is being drawn.
    pub pen_active: bool,
    /// A click now would close the Pen's path (it is on the first anchor).
    pub pen_would_close: bool,
    pub text_hit: TextHit,
}

/// The primary button's doings in this frame, and whether the pointer is
/// over the canvas.
#[derive(Debug, Clone, Copy, PartialEq, Eq, Structural)]
pub struct PointerEvent {
    pub on_canvas: bool,
    pub clicked: bool,
    pub double_clicked: bool,
    pub drag_started: bool,
    pub dragged: bool,
    pub drag_stopped: bool,
    pub pressed: bool,
    pub released: bool,
}

/// What the window does for the event.
#[derive(Debug, Clone, Copy, PartialEq, Eq, Structural)]
pub enum CanvasCommand {
    /// Sample the colour under the pointer for Colour Range; `adding` adds
    /// it to the samples already taken.
    SampleColour { adding: bool },
    /// Give Segment a hint at the pointer (wanted, or not wanted), and ask
    /// for a preview.
    SegmentHint { wanted: bool },
    /// Move the view by the drag.
    Pan,
    /// Hand the event to the live transform.
    Transform,
    /// Hand the event to the crop.
    Crop,
    SetCloneAnchor,
    BeginStroke { mode: PaintMode, source: StrokeSource },
    /// Begin a smudge at the brush's filter strength.
    BeginSmudge,
    ContinueStroke,
    EndStroke,
    /// Remember where a shape or text-box drag started.
    StartDrag,
    DrawShape { from_centre: bool, constrain: bool },
    /// Press on a path: pick an anchor or handle (Shift toggles the anchor
    /// in the selection), or, on nothing, clear the selection unless Shift.
    PathPress { shift: bool },
    /// Drag what was picked; Alt breaks the handles' symmetry.
    PathDrag { alt: bool },
    PathRelease,
    /// Close the Pen's path.
    FinishPath,
    /// Place a Pen anchor at the pointer.
    AddAnchor,
    /// Pull the last anchor's handle out to the pointer.
    PenDrag,
    PenRelease,
    PenCursor,
    /// Start a paragraph box over the dragged rectangle.
    BeginTextBox,
    ClearDragStart,
    CaretAt,
    EditTextLayer,
    BeginPointText,
    PickColour,
    /// Zoom to the next stop in (or out) at the pointer.
    ZoomStep { zoom_in: bool },
    MarqueeStart { ellipse: bool, mode: ModeChoice },
    /// Follow the pointer: Shift keeps it square, Alt grows it from the centre.
    MarqueeUpdate { square: bool, from_centre: bool },
    FinishSelection,
    Deselect,
    LassoStart { mode: ModeChoice },
    LassoAdd,
    PolygonStart { mode: ModeChoice },
    PolygonAdd,
    PolygonCursor,
    BucketFill,
    GradientStart,
    /// Follow the pointer, in 45-degree steps with Shift.
    GradientUpdate { constrain: bool },
    CommitGradient,
    MagicWand { mode: ModeChoice },
    /// Move the active layer by the drag, in whole pixels.
    MoveLayer,
    /// Select the tool again, which says it is not implemented yet.
    AnnounceTool,
}

pub open spec fn mode_choice(s: CanvasState) -> ModeChoice {
    if s.replace_mode { ModeChoice::FromModifiers { shift: s.shift, alt: s.alt } } else { ModeChoice::Chosen }
}

/// The tools that paint with the brush.
pub open spec fn is_brush(t: Tool) -> bool {
    matches!(t, Tool::Brush | Tool::Pencil | Tool::Eraser | Tool::CloneStamp | Tool::Dodge | Tool::Burn
        | Tool::Sponge | Tool::Blur | Tool::Sharpen | Tool::Smudge | Tool::HealingBrush | Tool::SpotHealing
        | Tool::HistoryBrush)
}

/// A brush's paint mode: Alt swaps dodge and burn, and flips the sponge's
/// switch; the eraser erases; anything else paints.
pub open spec fn paint_mode(s: CanvasState) -> PaintMode {
    match s.retouch {
        Some(kind) => {
            let k = match (kind, s.alt) {
                (RetouchKind::Dodge, true) => RetouchKind::Burn,
                (RetouchKind::Burn, true) => RetouchKind::Dodge,
                (k, _) => k,
            };
            PaintMode::Retouch { kind: k, soak: if k == RetouchKind::Sponge && s.alt { !s.soak } else { s.soak } }
        },
        None => if s.tool == Tool::Eraser { PaintMode::Erase } else { PaintMode::Paint },
    }
}

/// How a brush stroke begins.
pub open spec fn stroke_start(s: CanvasState) -> CanvasCommand {
    let mode = paint_mode(s);
    match s.tool {
        Tool::Smudge => CanvasCommand::BeginSmudge,
        Tool::HealingBrush => CanvasCommand::BeginStroke { mode, source: StrokeSource::Heal },
        Tool::SpotHealing => CanvasCommand::BeginStroke { mode, source: StrokeSource::HealSpot },
        Tool::HistoryBrush => CanvasCommand::BeginStroke { mode, source: StrokeSource::History },
        _ => if s.brush_filter {
            CanvasCommand::BeginStroke { mode, source: StrokeSource::Filter }
        } else {
            CanvasCommand::BeginStroke { mode, source: StrokeSource::Colour { clone: s.tool == Tool::CloneStamp } }
        },
    }
}

pub open spec fn when(b: bool, c: CanvasCommand) -> Seq<CanvasCommand> {
    if b { seq![c] } else { seq![] }
}

/// What the active tool does with an event over the canvas.
pub open spec fn tool_step(s: CanvasState, e: PointerEvent) -> Seq<CanvasCommand> {
    let t = s.tool;
    if is_brush(t) {
        if (t == Tool::CloneStamp || t == Tool::HealingBrush) && s.alt {
            when(e.clicked || e.drag_started, CanvasCommand::SetCloneAnchor)
        } else {
            (if e.drag_started || (e.clicked && !s.painting) {
                seq![stroke_start(s)]
            } else {
                when(e.dragged && s.painting, CanvasCommand::ContinueStroke)
            }) + when(e.drag_stopped || e.released, CanvasCommand::EndStroke)
        }
    } else {
        match t {
            Tool::Shape => when(e.drag_started, CanvasCommand::StartDrag) + when(
                e.drag_stopped && (s.has_drag_start || e.drag_started),
                CanvasCommand::DrawShape { from_centre: s.alt, constrain: s.shift },
            ),
            Tool::DirectSelect => when(e.pressed, CanvasCommand::PathPress { shift: s.shift })
                + when(e.dragged, CanvasCommand::PathDrag { alt: s.alt })
                + when(e.released, CanvasCommand::PathRelease),
            Tool::Pen => (if e.drag_started || e.clicked {
                if s.pen_would_close { seq![CanvasCommand::FinishPath] } else { seq![CanvasCommand::AddAnchor] }
            } else {
                seq![]
            }) + when(e.dragged, CanvasCommand::PenDrag) + when(e.drag_stopped || e.clicked, CanvasCommand::PenRelease)
                + when(s.pen_active || e.drag_started || e.clicked, CanvasCommand::PenCursor),
            Tool::Text => when(e.drag_started, CanvasCommand::StartDrag) + (if e.drag_stopped {
                seq![CanvasCommand::BeginTextBox]
            } else if e.clicked {
                seq![
                    CanvasCommand::ClearDragStart,
                    match s.text_hit {
                        TextHit::Editing => CanvasCommand::CaretAt,
                        TextHit::TextLayer => CanvasCommand::EditTextLayer,
                        TextHit::Nothing => CanvasCommand::BeginPointText,
                    },
                ]
            } else {
                seq![]
            }),
            Tool::Eyedropper => when(e.dragged || e.clicked, CanvasCommand::PickColour),
            Tool::Zoom => when(e.clicked, CanvasCommand::ZoomStep { zoom_in: !s.alt }),
            Tool::RectangularMarquee | Tool::EllipticalMarquee => (if e.drag_started {
                seq![CanvasCommand::MarqueeStart { ellipse: t == Tool::EllipticalMarquee, mode: mode_choice(s) }]
            } else {
                when(e.dragged, CanvasCommand::MarqueeUpdate { square: s.shift, from_centre: s.alt })
            }) + (if e.drag_stopped {
                seq![CanvasCommand::FinishSelection]
            } else {
                when(e.clicked && s.drag == DragKind::NoDrag && !e.drag_started, CanvasCommand::Deselect)
            }),
            Tool::Lasso => (if e.drag_started {
                seq![CanvasCommand::LassoStart { mode: mode_choice(s) }]
            } else {
                when(e.dragged, CanvasCommand::LassoAdd)
            }) + when(e.drag_stopped, CanvasCommand::FinishSelection),
            Tool::PolygonalLasso => if e.clicked {
                if s.drag == DragKind::Polygon {
                    if s.polygon_closes || e.double_clicked {
                        seq![CanvasCommand::FinishSelection]
                    } else {
                        seq![CanvasCommand::PolygonAdd, CanvasCommand::PolygonCursor]
                    }
                } else {
                    seq![CanvasCommand::PolygonStart { mode: mode_choice(s) }, CanvasCommand::PolygonCursor]
                }
            } else {
                when(s.drag == DragKind::Polygon, CanvasCommand::PolygonCursor)
            },
            Tool::PaintBucket => when(e.clicked, CanvasCommand::BucketFill),
            Tool::Gradient => (if e.drag_started {
                seq![CanvasCommand::GradientStart]
            } else {
                when(e.dragged, CanvasCommand::GradientUpdate { constrain: s.shift })
            }) + when(e.drag_stopped, CanvasCommand::CommitGradient),
            Tool::MagicWand => when(e.clicked, CanvasCommand::MagicWand { mode: mode_choice(s) }),
            Tool::Move => when(e.dragged, CanvasCommand::MoveLayer),
            _ => when(e.clicked && !s.tool_implemented, CanvasCommand::AnnounceTool),
        }
    }
}

/// What the canvas does with a pointer event, in order of precedence:
/// Colour Range and Segment take clicks while open; Space, the Hand tool
/// and a middle drag pan; any other open dialog stops the tools; a live
/// transform, then the Crop tool, take the event; off the canvas, a release
/// still ends a stroke; otherwise the active tool has it.
pub open spec fn spec_canvas_step(s: CanvasState, e: PointerEvent) -> Seq<CanvasCommand> {
    if !s.has_doc {
        seq![]
    } else {
        match s.dialog {
            CanvasDialog::ColorRange => when(e.clicked && e.on_canvas, CanvasCommand::SampleColour { adding: s.alt }),
            CanvasDialog::Segment { busy } => when(
                e.clicked && e.on_canvas && !busy,
                CanvasCommand::SegmentHint { wanted: !s.alt },
            ),
            _ => if s.space_held || s.tool == Tool::Hand || s.middle_drag {
                when(e.dragged, CanvasCommand::Pan)
            } else if s.dialog != CanvasDialog::Closed {
                seq![]
            } else if s.transforming {
                seq![CanvasCommand::Transform]
            } else if s.tool == Tool::Crop {
                seq![CanvasCommand::Crop]
            } else if !e.on_canvas {
                when(s.painting && e.released, CanvasCommand::EndStroke)
            } else {
                tool_step(s, e)
            },
        }
    }
}

fn push_when(v: &mut Vec<CanvasCommand>, b: bool, c: CanvasCommand)
    ensures
        final(v)@ == old(v)@ + when(b, c),
{
    if b {
        v.push(c);
    }
    assert(final(v)@ =~= old(v)@ + when(b, c));
}

fn mode_choice_exec(s: CanvasState) -> (m: ModeChoice)
    ensures
        m == mode_choice(s),
{
    if s.replace_mode { ModeChoice::FromModifiers { shift: s.shift, alt: s.alt } } else { ModeChoice::Chosen }
}

fn is_brush_exec(t: Tool) -> (b: bool)
    ensures
        b == is_brush(t),
{
    match t {
        Tool::Brush | Tool::Pencil | Tool::Eraser | Tool::CloneStamp | Tool::Dodge | Tool::Burn | Tool::Sponge
        | Tool::Blur | Tool::Sharpen | Tool::Smudge | Tool::HealingBrush | Tool::SpotHealing
        | Tool::HistoryBrush => true,
        _ => false,
    }
}

/// A brush's paint mode.
pub fn paint_mode_exec(s: CanvasState) -> (m: PaintMode)
    ensures
        m == paint_mode(s),
{
    match s.retouch {
        Some(kind) => {
            let k = match (kind, s.alt) {
                (RetouchKind::Dodge, true) => RetouchKind::Burn,
                (RetouchKind::Burn, true) => RetouchKind::Dodge,
                (k, _) => k,
            };
            let sponge = match k {
                RetouchKind::Sponge => true,
                _ => false,
            };
            PaintMode::Retouch { kind: k, soak: if sponge && s.alt { !s.soak } else { s.soak } }
        },
        None => match s.tool {
            Tool::Eraser => PaintMode::Erase,
            _ => PaintMode::Paint,
        },
    }
}

fn stroke_start_exec(s: CanvasState) -> (c: CanvasCommand)
    ensures
        c == stroke_start(s),
{
    let mode = paint_mode_exec(s);
    match s.tool {
        Tool::Smudge => CanvasCommand::BeginSmudge,
        Tool::HealingBrush => CanvasCommand::BeginStroke { mode, source: StrokeSource::Heal },
        Tool::SpotHealing => CanvasCommand::BeginStroke { mode, source: StrokeSource::HealSpot },
        Tool::HistoryBrush => CanvasCommand::BeginStroke { mode, source: StrokeSource::History },
        Tool::CloneStamp => if s.brush_filter {
            CanvasCommand::BeginStroke { mode, source: StrokeSource::Filter }
        } else {
            CanvasCommand::BeginStroke { mode, source: StrokeSource::Colour { clone: true } }
        },
        _ => if s.brush_filter {
            CanvasCommand::BeginStroke { mode, source: StrokeSource::Filter }
        } else {
            CanvasCommand::BeginStroke { mode, source: StrokeSource::Colour { clone: false } }
        },
    }
}

#[verifier::rlimit(40)]
fn tool_step_exec(s: CanvasState, e: PointerEvent) -> (r: Vec<CanvasCommand>)
    ensures
        r@ == tool_step(s, e),
{
    let mut v: Vec<CanvasCommand> = Vec::new();
    let t = s.tool;
    if is_brush_exec(t) {
        let anchors = match t {
            Tool::CloneStamp | Tool::HealingBrush => true,
            _ => false,
        };
        if anchors && s.alt {
            push_when(&mut v, e.clicked || e.drag_started, CanvasCommand::SetCloneAnchor);
        } else {
            if e.drag_started || (e.clicked && !s.painting) {
                v.push(stroke_start_exec(s));
            } else {
                push_when(&mut v, e.dragged && s.painting, CanvasCommand::ContinueStroke);
            }
            push_when(&mut v, e.drag_stopped || e.released, CanvasCommand::EndStroke);
        }
        assert(v@ =~= tool_step(s, e));
        return v;
    }
    match t {
        Tool::Shape => {
            push_when(&mut v, e.drag_started, CanvasCommand::StartDrag);
            push_when(
                &mut v,
                e.drag_stopped && (s.has_drag_start || e.drag_started),
                CanvasCommand::DrawShape { from_centre: s.alt, constrain: s.shift },
            );
        },
        Tool::DirectSelect => {
            push_when(&mut v, e.pressed, CanvasCommand::PathPress { shift: s.shift });
            push_when(&mut v, e.dragged, CanvasCommand::PathDrag { alt: s.alt });
            push_when(&mut v, e.released, CanvasCommand::PathRelease);
        },
        Tool::Pen => {
            if e.drag_started || e.clicked {
                if s.pen_would_close {
                    v.push(CanvasCommand::FinishPath);
                } else {
                    v.push(CanvasCommand::AddAnchor);
                }
            }
            push_when(&mut v, e.dragged, CanvasCommand::PenDrag);
            push_when(&mut v, e.drag_stopped || e.clicked, CanvasCommand::PenRelease);
            push_when(&mut v, s.pen_active || e.drag_started || e.clicked, CanvasCommand::PenCursor);
        },
        Tool::Text => {
            push_when(&mut v, e.drag_started, CanvasCommand::StartDrag);
            if e.drag_stopped {
                v.push(CanvasCommand::BeginTextBox);
            } else if e.clicked {
                v.push(CanvasCommand::ClearDragStart);
                v.push(match s.text_hit {
                    TextHit::Editing => CanvasCommand::CaretAt,
                    TextHit::TextLayer => CanvasCommand::EditTextLayer,
                    TextHit::Nothing => CanvasCommand::BeginPointText,
                });
            }
        },
        Tool::Eyedropper => push_when(&mut v, e.dragged || e.clicked, CanvasCommand::PickColour),
        Tool::Zoom => push_when(&mut v, e.clicked, CanvasCommand::ZoomStep { zoom_in: !s.alt }),
        Tool::RectangularMarquee | Tool::EllipticalMarquee => {
            let ellipse = match t {
                Tool::EllipticalMarquee => true,
                _ => false,
            };
            if e.drag_started {
                v.push(CanvasCommand::MarqueeStart { ellipse, mode: mode_choice_exec(s) });
            } else {
                push_when(&mut v, e.dragged, CanvasCommand::MarqueeUpdate { square: s.shift, from_centre: s.alt });
            }
            if e.drag_stopped {
                v.push(CanvasCommand::FinishSelection);
            } else {
                let none = match s.drag {
                    DragKind::NoDrag => true,
                    _ => false,
                };
                push_when(&mut v, e.clicked && none && !e.drag_started, CanvasCommand::Deselect);
            }
        },
        Tool::Lasso => {
            if e.drag_started {
                v.push(CanvasCommand::LassoStart { mode: mode_choice_exec(s) });
            } else {
                push_when(&mut v, e.dragged, CanvasCommand::LassoAdd);
            }
            push_when(&mut v, e.drag_stopped, CanvasCommand::FinishSelection);
        },
        Tool::PolygonalLasso => {
            let polygon = match s.drag {
                DragKind::Polygon => true,
                _ => false,
            };
            if e.clicked {
                if polygon {
                    if s.polygon_closes || e.double_clicked {
                        v.push(CanvasCommand::FinishSelection);
                    } else {
                        v.push(CanvasCommand::PolygonAdd);
                        v.push(CanvasCommand::PolygonCursor);
                    }
                } else {
                    v.push(CanvasCommand::PolygonStart { mode: mode_choice_exec(s) });
                    v.push(CanvasCommand::PolygonCursor);
                }
            } else {
                push_when(&mut v, polygon, CanvasCommand::PolygonCursor);
            }
        },
        Tool::PaintBucket => push_when(&mut v, e.clicked, CanvasCommand::BucketFill),
        Tool::Gradient => {
            if e.drag_started {
                v.push(CanvasCommand::GradientStart);
            } else {
                push_when(&mut v, e.dragged, CanvasCommand::GradientUpdate { constrain: s.shift });
            }
            push_when(&mut v, e.drag_stopped, CanvasCommand::CommitGradient);
        },
        Tool::MagicWand => push_when(&mut v, e.clicked, CanvasCommand::MagicWand { mode: mode_choice_exec(s) }),
        Tool::Move => push_when(&mut v, e.dragged, CanvasCommand::MoveLayer),
        _ => push_when(&mut v, e.clicked && !s.tool_implemented, CanvasCommand::AnnounceTool),
    }
    assert(v@ =~= tool_step(s, e));
    v
}

/// Decide what the canvas does with a pointer event.
pub fn canvas_step(s: CanvasState, e: PointerEvent) -> (r: Vec<CanvasCommand>)
    ensures
        r@ == spec_canvas_step(s, e),
{
    let mut v: Vec<CanvasCommand> = Vec::new();
    if !s.has_doc {
        assert(v@ =~= spec_canvas_step(s, e));
        return v;
    }
    match s.dialog {
        CanvasDialog::ColorRange => {
            push_when(&mut v, e.clicked && e.on_canvas, CanvasCommand::SampleColour { adding: s.alt });
        },
        CanvasDialog::Segment { busy } => {
            push_when(&mut v, e.clicked && e.on_canvas && !busy, CanvasCommand::SegmentHint { wanted: !s.alt });
        },
        _ => {
            let hand = match s.tool {
                Tool::Hand => true,
                _ => false,
            };
            let crop = match s.tool {
                Tool::Crop => true,
                _ => false,
            };
            let other_dialog = match s.dialog {
                CanvasDialog::Closed => false,
                _ => true,
            };
            if s.space_held || hand || s.middle_drag {
                push_when(&mut v, e.dragged, CanvasCommand::Pan);
            } else if other_dialog {
            } else if s.transforming {
                v.push(CanvasCommand::Transform);
            } else if crop {
                v.push(CanvasCommand::Crop);
            } else if !e.on_canvas {
                push_when(&mut v, s.painting && e.released, CanvasCommand::EndStroke);
            } else {
                v = tool_step_exec(s, e);
            }
        },
    }
    assert(v@ =~= spec_canvas_step(s, e));
    v
}

/// The wheel and the pinch this frame, while the pointer is over the canvas.
#[derive(Debug, Clone, Copy, PartialEq, Eq, Structural)]
pub struct WheelEvent {
    pub hovered: bool,
    /// A pinch (or the platform's zoom gesture) changed the zoom.
    pub pinched: bool,
    /// The wheel or the touchpad scrolled.
    pub scrolled: bool,
    /// Ctrl (Cmd on a Mac), Alt and Shift.
    pub command: bool,
    pub alt: bool,
    pub shift: bool,
}

/// What the wheel does.
#[derive(Debug, Clone, Copy, PartialEq, Eq, Structural)]
pub enum WheelCommand {
    Ignore,
    /// Zoom by the pinch, about the pointer.
    PinchZoom,
    /// Zoom by the wheel, about the pointer.
    WheelZoom,
    /// Grow or shrink the brush by the wheel.
    BrushSize,
    /// Move the view; `swap_axes` turns a vertical wheel into a horizontal
    /// scroll.
    Scroll { swap_axes: bool },
}

/// A pinch zooms; Ctrl with the wheel zooms, Alt resizes the brush, and
/// otherwise the wheel scrolls, sideways with Shift. Colour Range and
/// Segment keep the canvas to themselves while open.
pub open spec fn spec_wheel_step(s: CanvasState, w: WheelEvent) -> WheelCommand {
    if !s.has_doc || s.dialog == CanvasDialog::ColorRange || s.dialog is Segment || !w.hovered {
        WheelCommand::Ignore
    } else if w.pinched {
        WheelCommand::PinchZoom
    } else if !w.scrolled {
        WheelCommand::Ignore
    } else if w.command {
        WheelCommand::WheelZoom
    } else if w.alt {
        WheelCommand::BrushSize
    } else {
        WheelCommand::Scroll { swap_axes: w.shift }
    }
}

/// Decide what the wheel does.
pub fn wheel_step(s: CanvasState, w: WheelEvent) -> (r: WheelCommand)
    ensures
        r == spec_wheel_step(s, w),
{
    let taken = match s.dialog {
        CanvasDialog::ColorRange | CanvasDialog::Segment { .. } => true,
        _ => false,
    };
    if !s.has_doc || taken || !w.hovered {
        WheelCommand::Ignore
    } else if w.pinched {
        WheelCommand::PinchZoom
    } else if !w.scrolled {
        WheelCommand::Ignore
    } else if w.command {
        WheelCommand::WheelZoom
    } else if w.alt {
        WheelCommand::BrushSize
    } else {
        WheelCommand::Scroll { swap_axes: w.shift }
    }
}

/// Panning comes before everything but Colour Range and Segment: while
/// Space is held, the Hand tool is active or the middle button drags, a drag
/// pans the view and nothing else happens.
pub proof fn panning_comes_first(s: CanvasState, e: PointerEvent)
    requires
        s.has_doc,
        s.dialog == CanvasDialog::Closed || s.dialog == CanvasDialog::Other,
        s.space_held || s.tool == Tool::Hand || s.middle_drag,
    ensures
        spec_canvas_step(s, e) == when(e.dragged, CanvasCommand::Pan),
{
}

/// An open dialog other than Colour Range and Segment stops the tools: the
/// canvas does nothing unless it is being panned.
pub proof fn an_open_dialog_stops_the_tools(s: CanvasState, e: PointerEvent)
    requires
        s.dialog == CanvasDialog::Other,
        !(s.space_held || s.tool == Tool::Hand || s.middle_drag),
    ensures
        spec_canvas_step(s, e) == Seq::<CanvasCommand>::empty(),
{
}

/// A stroke never outlives the button: releasing it off the canvas ends the
/// stroke being painted.
pub proof fn a_release_off_the_canvas_ends_the_stroke(s: CanvasState, e: PointerEvent)
    requires
        s.has_doc,
        s.dialog == CanvasDialog::Closed,
        !(s.space_held || s.tool == Tool::Hand || s.middle_drag),
        !s.transforming,
        s.tool != Tool::Crop,
        !e.on_canvas,
        s.painting,
        e.released,
    ensures
        spec_canvas_step(s, e) == seq![CanvasCommand::EndStroke],
{
}

/// Alt swaps Dodge and Burn, and flips the Sponge's switch.
pub proof fn alt_inverts_the_retouch(s: CanvasState)
    requires
        s.alt,
    ensures
        s.retouch == Some(RetouchKind::Dodge) ==> paint_mode(s) == (PaintMode::Retouch { kind: RetouchKind::Burn, soak: s.soak }),
        s.retouch == Some(RetouchKind::Burn) ==> paint_mode(s) == (PaintMode::Retouch { kind: RetouchKind::Dodge, soak: s.soak }),
        s.retouch == Some(RetouchKind::Sponge) ==> paint_mode(s) == (PaintMode::Retouch { kind: RetouchKind::Sponge, soak: !s.soak }),
{
}

/// The Clone Stamp paints from its clone source and no other brush does:
/// a stroke begun without a brush filter by any tool but the Smudge, the
/// healing brushes and the History Brush takes its colour from the clone
/// source exactly when the tool is the Clone Stamp.
pub proof fn only_the_clone_stamp_clones(s: CanvasState)
    ensures
        stroke_start(s) matches CanvasCommand::BeginStroke { source: StrokeSource::Colour { clone }, .. }
            ==> clone == (s.tool == Tool::CloneStamp),
        (!s.brush_filter && s.tool != Tool::Smudge && s.tool != Tool::HealingBrush && s.tool != Tool::SpotHealing
            && s.tool != Tool::HistoryBrush) ==> (stroke_start(s) matches CanvasCommand::BeginStroke {
            source: StrokeSource::Colour { clone },
            ..
        } && clone == (s.tool == Tool::CloneStamp)),
{
}

/// Dragging the Clone Stamp over the canvas (without Alt, with no dialog,
/// pan, transform or crop in the way) begins a stroke that clones.
pub proof fn dragging_the_clone_stamp_clones(s: CanvasState, e: PointerEvent)
    requires
        s.has_doc,
        s.dialog == CanvasDialog::Closed,
        !s.space_held && !s.middle_drag && !s.transforming,
        s.tool == Tool::CloneStamp,
        !s.alt,
        !s.brush_filter,
        e.on_canvas,
        e.drag_started,
    ensures
        spec_canvas_step(s, e)[0] matches CanvasCommand::BeginStroke { source, .. }
            && source == (StrokeSource::Colour { clone: true }),
{
}

/// The event reaches the active tool: a document is open, no dialog is,
/// nothing pans, no transform is live, the tool is not the Crop tool, and
/// the pointer is over the canvas.
pub open spec fn reaches_the_tool(s: CanvasState, e: PointerEvent) -> bool {
    &&& s.has_doc
    &&& s.dialog == CanvasDialog::Closed
    &&& !s.space_held && !s.middle_drag && s.tool != Tool::Hand
    &&& !s.transforming
    &&& s.tool != Tool::Crop
    &&& e.on_canvas
}

/// Before the tools: with no document nothing happens; Colour Range and
/// Segment take only clicks over the canvas (Alt adds a sample, or marks a
/// hint as unwanted; a busy Segment takes none); a live transform, then the
/// Crop tool, take every event the panning and dialogs leave.
pub proof fn what_comes_before_the_tools(s: CanvasState, e: PointerEvent)
    ensures
        !s.has_doc ==> spec_canvas_step(s, e).len() == 0,
        s.has_doc && s.dialog == CanvasDialog::ColorRange ==> spec_canvas_step(s, e) == (if e.clicked && e.on_canvas {
            seq![CanvasCommand::SampleColour { adding: s.alt }]
        } else {
            Seq::<CanvasCommand>::empty()
        }),
        s.has_doc && s.dialog == (CanvasDialog::Segment { busy: false }) ==> spec_canvas_step(s, e) == (if e.clicked
            && e.on_canvas {
            seq![CanvasCommand::SegmentHint { wanted: !s.alt }]
        } else {
            Seq::<CanvasCommand>::empty()
        }),
        s.has_doc && s.dialog == (CanvasDialog::Segment { busy: true }) ==> spec_canvas_step(s, e).len() == 0,
        s.has_doc && s.dialog == CanvasDialog::Closed && !s.space_held && !s.middle_drag && s.tool != Tool::Hand
            && s.transforming ==> spec_canvas_step(s, e) == seq![CanvasCommand::Transform],
        s.has_doc && s.dialog == CanvasDialog::Closed && !s.space_held && !s.middle_drag && !s.transforming
            && s.tool == Tool::Crop ==> spec_canvas_step(s, e) == seq![CanvasCommand::Crop],
        s.has_doc && s.dialog == CanvasDialog::Closed && !s.space_held && !s.middle_drag && s.tool != Tool::Hand
            && !s.transforming && s.tool != Tool::Crop && !e.on_canvas ==> spec_canvas_step(s, e) == (if s.painting
            && e.released {
            seq![CanvasCommand::EndStroke]
        } else {
            Seq::<CanvasCommand>::empty()
        }),
{
}

/// A brush's stroke: a drag (or a click while not painting) begins it, a
/// drag while painting continues it, and letting go ends it; the Eraser
/// erases, a brush without a retouch kind paints, and with Alt the Clone
/// Stamp and the Healing Brush only set their source.
pub proof fn a_brush_stroke_begins_continues_and_ends(s: CanvasState, e: PointerEvent)
    requires
        reaches_the_tool(s, e),
        s.tool == Tool::Brush || s.tool == Tool::Pencil || s.tool == Tool::Eraser,
        !s.brush_filter,
    ensures
        ({
            let mode = if s.retouch is Some { paint_mode(s) } else if s.tool == Tool::Eraser { PaintMode::Erase } else { PaintMode::Paint };
            let begin = CanvasCommand::BeginStroke { mode, source: StrokeSource::Colour { clone: false } };
            let end = if e.drag_stopped || e.released { seq![CanvasCommand::EndStroke] } else { Seq::empty() };
            &&& e.drag_started ==> spec_canvas_step(s, e) == seq![begin] + end
            &&& !e.drag_started && e.clicked && !s.painting ==> spec_canvas_step(s, e) == seq![begin] + end
            &&& !e.drag_started && !e.clicked && e.dragged && s.painting ==> spec_canvas_step(s, e)
                == seq![CanvasCommand::ContinueStroke] + end
            &&& !e.drag_started && !e.clicked && !e.dragged ==> spec_canvas_step(s, e) == end
        }),
{
}

/// With Alt, the Clone Stamp and the Healing Brush set their source on a
/// click or at the start of a drag, and paint nothing.
pub proof fn alt_sets_the_source(s: CanvasState, e: PointerEvent)
    requires
        reaches_the_tool(s, e),
        s.tool == Tool::CloneStamp || s.tool == Tool::HealingBrush,
        s.alt,
    ensures
        spec_canvas_step(s, e) == (if e.clicked || e.drag_started {
            seq![CanvasCommand::SetCloneAnchor]
        } else {
            Seq::<CanvasCommand>::empty()
        }),
{
}

/// Where the other brushes take their paint from: the Smudge smudges, the
/// healing brushes heal, the History Brush paints from history, and a brush
/// with a filter (Blur, Sharpen) filters.
pub proof fn each_brush_paints_from_its_own_source(s: CanvasState)
    ensures
        s.tool == Tool::Smudge ==> stroke_start(s) == CanvasCommand::BeginSmudge,
        s.tool == Tool::HealingBrush ==> (stroke_start(s) matches CanvasCommand::BeginStroke { source, .. }
            && source == StrokeSource::Heal),
        s.tool == Tool::SpotHealing ==> (stroke_start(s) matches CanvasCommand::BeginStroke { source, .. }
            && source == StrokeSource::HealSpot),
        s.tool == Tool::HistoryBrush ==> (stroke_start(s) matches CanvasCommand::BeginStroke { source, .. }
            && source == StrokeSource::History),
        s.brush_filter && s.tool != Tool::Smudge && s.tool != Tool::HealingBrush && s.tool != Tool::SpotHealing
            && s.tool != Tool::HistoryBrush ==> (stroke_start(s) matches CanvasCommand::BeginStroke { source, .. }
            && source == StrokeSource::Filter),
        s.retouch is None && s.tool == Tool::Eraser ==> paint_mode(s) == PaintMode::Erase,
        s.retouch is None && s.tool != Tool::Eraser ==> paint_mode(s) == PaintMode::Paint,
        s.retouch is Some && !s.alt ==> paint_mode(s) == (PaintMode::Retouch { kind: s.retouch.unwrap(), soak: s.soak }),
{
}

/// The selection tools: a marquee or lasso drag starts a selection in the
/// mode chosen (or, in Replace, the one the modifiers pick), follows the
/// pointer and finishes when the drag stops; a marquee click with nothing
/// being dragged deselects; the Magic Wand selects on a click.
pub proof fn selection_tools_start_follow_and_finish(s: CanvasState, e: PointerEvent)
    requires
        reaches_the_tool(s, e),
    ensures
        s.tool == Tool::RectangularMarquee && e.drag_started && !e.drag_stopped ==> spec_canvas_step(s, e)
            == seq![CanvasCommand::MarqueeStart {
                ellipse: false,
                mode: if s.replace_mode { ModeChoice::FromModifiers { shift: s.shift, alt: s.alt } } else { ModeChoice::Chosen },
            }],
        s.tool == Tool::EllipticalMarquee && !e.drag_started && e.dragged && !e.drag_stopped && !e.clicked ==> spec_canvas_step(s, e)
            == seq![CanvasCommand::MarqueeUpdate { square: s.shift, from_centre: s.alt }],
        (s.tool == Tool::RectangularMarquee || s.tool == Tool::EllipticalMarquee) && !e.drag_started && !e.dragged
            && e.drag_stopped ==> spec_canvas_step(s, e) == seq![CanvasCommand::FinishSelection],
        s.tool == Tool::RectangularMarquee && !e.drag_started && !e.dragged && !e.drag_stopped && e.clicked
            ==> spec_canvas_step(s, e) == (if s.drag == DragKind::NoDrag {
            seq![CanvasCommand::Deselect]
        } else {
            Seq::<CanvasCommand>::empty()
        }),
        s.tool == Tool::Lasso && e.drag_started && !e.drag_stopped ==> spec_canvas_step(s, e) == seq![
            CanvasCommand::LassoStart {
                mode: if s.replace_mode { ModeChoice::FromModifiers { shift: s.shift, alt: s.alt } } else { ModeChoice::Chosen },
            },
        ],
        s.tool == Tool::Lasso && !e.drag_started && e.dragged && !e.drag_stopped ==> spec_canvas_step(s, e)
            == seq![CanvasCommand::LassoAdd],
        s.tool == Tool::Lasso && !e.drag_started && !e.dragged && e.drag_stopped ==> spec_canvas_step(s, e)
            == seq![CanvasCommand::FinishSelection],
        s.tool == Tool::MagicWand ==> spec_canvas_step(s, e) == (if e.clicked {
            seq![CanvasCommand::MagicWand {
                mode: if s.replace_mode { ModeChoice::FromModifiers { shift: s.shift, alt: s.alt } } else { ModeChoice::Chosen },
            }]
        } else {
            Seq::<CanvasCommand>::empty()
        }),
{
}

/// The Polygonal Lasso: the first click starts a polygon, later clicks add
/// points, and a click back on the first point, or a double click, closes
/// it.
pub proof fn the_polygon_closes_where_it_began(s: CanvasState, e: PointerEvent)
    requires
        reaches_the_tool(s, e),
        s.tool == Tool::PolygonalLasso,
        e.clicked,
    ensures
        s.drag != DragKind::Polygon ==> spec_canvas_step(s, e)[0] is PolygonStart,
        s.drag == DragKind::Polygon && (s.polygon_closes || e.double_clicked) ==> spec_canvas_step(s, e)
            == seq![CanvasCommand::FinishSelection],
        s.drag == DragKind::Polygon && !s.polygon_closes && !e.double_clicked ==> spec_canvas_step(s, e)
            == seq![CanvasCommand::PolygonAdd, CanvasCommand::PolygonCursor],
{
}

/// The one-click tools: Zoom steps in, or out with Alt; the Paint Bucket
/// fills; the Eyedropper picks on a click or while dragged; the Move tool
/// moves the layer while dragged; a tool without a handler says so on a
/// click.
pub proof fn one_click_tools_do_their_one_thing(s: CanvasState, e: PointerEvent)
    requires
        reaches_the_tool(s, e),
    ensures
        s.tool == Tool::Zoom ==> spec_canvas_step(s, e) == (if e.clicked {
            seq![CanvasCommand::ZoomStep { zoom_in: !s.alt }]
        } else {
            Seq::<CanvasCommand>::empty()
        }),
        s.tool == Tool::PaintBucket ==> spec_canvas_step(s, e) == (if e.clicked {
            seq![CanvasCommand::BucketFill]
        } else {
            Seq::<CanvasCommand>::empty()
        }),
        s.tool == Tool::Eyedropper ==> spec_canvas_step(s, e) == (if e.clicked || e.dragged {
            seq![CanvasCommand::PickColour]
        } else {
            Seq::<CanvasCommand>::empty()
        }),
        s.tool == Tool::Move ==> spec_canvas_step(s, e) == (if e.dragged {
            seq![CanvasCommand::MoveLayer]
        } else {
            Seq::<CanvasCommand>::empty()
        }),
        s.tool == Tool::Other ==> spec_canvas_step(s, e) == (if e.clicked && !s.tool_implemented {
            seq![CanvasCommand::AnnounceTool]
        } else {
            Seq::<CanvasCommand>::empty()
        }),
{
}

/// Type: a click on the type being edited moves the caret, on another type
/// layer edits it, and elsewhere starts new point text; a drag that stops
/// makes a paragraph box.
pub proof fn a_type_click_edits_what_it_lands_on(s: CanvasState, e: PointerEvent)
    requires
        reaches_the_tool(s, e),
        s.tool == Tool::Text,
        !e.drag_started,
    ensures
        e.drag_stopped ==> spec_canvas_step(s, e) == seq![CanvasCommand::BeginTextBox],
        !e.drag_stopped && e.clicked && s.text_hit == TextHit::Editing ==> spec_canvas_step(s, e)
            == seq![CanvasCommand::ClearDragStart, CanvasCommand::CaretAt],
        !e.drag_stopped && e.clicked && s.text_hit == TextHit::TextLayer ==> spec_canvas_step(s, e)
            == seq![CanvasCommand::ClearDragStart, CanvasCommand::EditTextLayer],
        !e.drag_stopped && e.clicked && s.text_hit == TextHit::Nothing ==> spec_canvas_step(s, e)
            == seq![CanvasCommand::ClearDragStart, CanvasCommand::BeginPointText],
{
}

/// The Pen: a click (or the start of a drag) on the first anchor closes the
/// path, and anywhere else adds an anchor.
pub proof fn the_pen_closes_on_its_first_anchor(s: CanvasState, e: PointerEvent)
    requires
        reaches_the_tool(s, e),
        s.tool == Tool::Pen,
        e.clicked || e.drag_started,
    ensures
        s.pen_would_close ==> spec_canvas_step(s, e)[0] == CanvasCommand::FinishPath,
        !s.pen_would_close ==> spec_canvas_step(s, e)[0] == CanvasCommand::AddAnchor,
{
}

/// A shape is drawn when its drag stops, from the centre with Alt and
/// constrained with Shift; a gradient is committed when its drag stops.
pub proof fn shapes_and_gradients_finish_when_the_drag_stops(s: CanvasState, e: PointerEvent)
    requires
        reaches_the_tool(s, e),
        !e.drag_started,
        e.drag_stopped,
        !e.dragged,
    ensures
        s.tool == Tool::Shape && s.has_drag_start ==> spec_canvas_step(s, e)
            == seq![CanvasCommand::DrawShape { from_centre: s.alt, constrain: s.shift }],
        s.tool == Tool::Shape && !s.has_drag_start ==> spec_canvas_step(s, e).len() == 0,
        s.tool == Tool::Gradient ==> spec_canvas_step(s, e) == seq![CanvasCommand::CommitGradient],
{
}

/// The wheel: a pinch always zooms; otherwise Ctrl zooms, Alt resizes the
/// brush, and plain scrolling scrolls, sideways with Shift. Nothing happens
/// with no document, off the canvas, or while Colour Range or Segment is
/// open.
pub proof fn the_wheel_zooms_resizes_or_scrolls(s: CanvasState, w: WheelEvent)
    ensures
        (!s.has_doc || !w.hovered || s.dialog == CanvasDialog::ColorRange || s.dialog is Segment)
            ==> spec_wheel_step(s, w) == WheelCommand::Ignore,
        s.has_doc && w.hovered && (s.dialog == CanvasDialog::Closed || s.dialog == CanvasDialog::Other) ==> {
            &&& w.pinched ==> spec_wheel_step(s, w) == WheelCommand::PinchZoom
            &&& !w.pinched && !w.scrolled ==> spec_wheel_step(s, w) == WheelCommand::Ignore
            &&& !w.pinched && w.scrolled && w.command ==> spec_wheel_step(s, w) == WheelCommand::WheelZoom
            &&& !w.pinched && w.scrolled && !w.command && w.alt ==> spec_wheel_step(s, w) == WheelCommand::BrushSize
            &&& !w.pinched && w.scrolled && !w.command && !w.alt ==> spec_wheel_step(s, w)
                == (WheelCommand::Scroll { swap_axes: w.shift })
        },
{
}

} // verus!

//! The user operations, as data, and the one place they are applied.
//!
//! Menus, keyboard shortcuts, toolbar buttons and panel controls all produce
//! an [`Action`] rather than changing anything where they are drawn. [`run`]
//! takes the shell's own state and what the window knows about the focused
//! document, decides what the action means, and returns the shell's next
//! state with the work the window must carry out on the document, in order,
//! as [`Effect`]s.
//!
//! Operations whose settings are floating-point or the core's own values
//! (filter and adjustment settings, typed text, shape geometry, layer
//! styles, resampling) are not among them: the window dispatches those
//! itself. Operations the shell decides nothing about are handed to the
//! window unchanged as a [`Task`].
//!
//! `P` is how the window names a file (a path); the library only carries it.

use vstd::prelude::*;
use crate::brush::{brush_size, spec_step_stop, step_stop, BRUSH_SIZES, LADDER_LEN};
use crate::canvas::Tool;
use crate::commands::{shift_to_same_size_is_zero, Anchor, ModifyKind, TransformPreset};
use crate::dialogs::{BackgroundChoice, PickerTarget, Rgba8};
use crate::documents::{close_tab, select_tab, spec_close_tab, spec_untitled_name, untitled_name, CloseOutcome};
use crate::input::TextStep;
use crate::layers::{
    above, new_layer_position, reorder_slot, spec_reorder, spec_step_row, step_row, LayerId, LayerPos,
};
use crate::menus::{can_delete, can_merge_down, delete_allowed, merge_down_allowed, spec_layer_buttons};

verus! {

/// Something the user asked for.
#[derive(Debug, PartialEq, Eq)]
pub enum Action<P> {
    // --- documents ---
    /// Make the document the New dialog describes, or open that dialog.
    NewDocument,
    ShowOpenDialog,
    OpenPath(P),
    Save,
    ShowSaveAsDialog,
    /// Save to this path; `deep` writes sixteen bits a channel.
    SavePath { path: P, deep: bool },
    /// Close a tab; `usize::MAX` means the focused one.
    CloseDocument(usize),
    SelectDocument(usize),
    // --- history ---
    Undo,
    Redo,
    /// Jump to a state in the History panel; 0 is the document as opened.
    HistoryJump(usize),
    /// Mark a history state as what the History Brush paints from.
    SetHistorySource(usize),
    // --- tools and colour ---
    /// Pick a tool; `implemented` says whether the canvas has a handler for it.
    SelectTool { tool: Tool, implemented: bool },
    SwapColors,
    ResetColors,
    ShowColorPicker(PickerTarget),
    SetColor(PickerTarget, Rgba8),
    ShowFillDialog,
    /// Fill with a swatch, as the Backspace family of shortcuts does.
    FillSwatch { background: bool, preserve_transparency: bool },
    ClearLayer,
    // --- view ---
    ZoomIn,
    ZoomOut,
    ZoomFit,
    ZoomActual,
    TogglePanels,
    ToggleRulers,
    ToggleGuides,
    ToggleGrid,
    ToggleSnap,
    // --- layers ---
    NewLayer,
    NewGroup,
    DeleteLayer,
    DuplicateLayer,
    LayerViaCopy,
    MergeDown,
    FlattenImage,
    SelectLayer(LayerId),
    MoveLayer(LayerId, LayerPos),
    ToggleClippingMask,
    /// Move the active layer within its group; `i32::MAX` and `i32::MIN`
    /// mean all the way to the top and the bottom.
    ReorderActiveLayer(i32),
    /// Select the layer this many rows above (positive) or below the active
    /// one in the Layers panel.
    StepActiveLayer(i32),
    /// Nudge the active layer by whole pixels.
    NudgeLayer(i32, i32),
    // --- editing ---
    Copy,
    CopyMerged,
    Cut,
    Paste,
    PasteInPlace,
    /// Step along the brush-size ladder.
    StepBrushSize(i32),
    /// Step the brush hardness one notch.
    StepBrushHardness(i32),
    // --- type, shapes and paths ---
    /// Re-open an existing type layer for editing.
    EditTextLayer(LayerId),
    /// An editing step while type is being edited, with what was typed for
    /// an insert; the window applies it with [`crate::text_edit::text_step`].
    TextInput { step: TextStep, text: Vec<char> },
    CommitText,
    CancelText,
    /// Wrap the active layer's pixels so its placement stops being an edit.
    ConvertToSmartObject,
    /// Open the Layer Style dialog for the active layer.
    ShowLayerStyle,
    /// Remove every effect from a layer.
    ClearLayerEffects(LayerId),
    /// Turn the Pen's draft into a shape layer; closed paths get a fill.
    FinishPath { closed: bool },
    /// Remove the anchors the Direct Selection tool has selected.
    DeletePathAnchors,
    ShowSegment,
    SegmentDetect,
    SegmentPreview,
    SegmentCancel,
    // --- selections ---
    SelectAll,
    Deselect,
    Reselect,
    InverseSelection,
    ToggleQuickMask,
    ShowModifyDialog(ModifyKind),
    // --- transform, crop, size ---
    BeginTransform,
    CommitTransform,
    CancelTransform,
    TransformPreset(TransformPreset),
    CommitCrop,
    CancelCrop,
    CropToSelection,
    CancelPath,
    ShowImageSize,
    ShowCanvasSize,
    /// Change the canvas size, keeping the layers where the anchor says.
    ResizeCanvas { width: u32, height: u32, anchor: Anchor },
    /// Resize by carving seams rather than by resampling.
    ContentAwareScale { width: u32, height: u32, protect_selection: bool },
    // --- picture tools that run on a worker ---
    ShowRelight,
    RelightPreview,
    RelightKeep,
    RelightCancel,
    /// Make what is selected disappear, inventing what was behind it.
    FillInSelection,
    ShowSeparate,
    RunSeparate,
    ShowUpscale,
    RunUpscale,
    ShowDenoise,
    RunDenoise,
    DenoiseRestrength,
    DenoiseKeep,
    DenoiseCancel,
    ShowLens,
    ApplyLens,
    ReplaceSky,
    RetouchSkin,
    ShowDepthFx,
    PreviewDepthFx,
    KeepDepthFx,
    CancelDepthFx,
    // --- colour management and depth ---
    ShowColorProfile,
    /// Change the working space (`None`: the built-in sRGB), converting the
    /// pixels or relabelling them.
    SetColorProfile { path: Option<P>, convert: bool },
    /// Move every raster layer to eight or sixteen bits a channel.
    SetDepth(u8),
    // --- guides, recent files, animation ---
    ClearGuides,
    /// Forget the list of recently opened files.
    ClearRecent,
    ShowFrame(usize),
    TogglePlayback,
    ToggleTimeline,
    /// Set every frame's duration.
    SetFrameDelay(u16),
    /// Set one frame's duration.
    SetOneFrameDelay(usize, u16),
    /// Move every layer onto the bottom one, fitting this motion.
    AlignLayers { motion: AlignMotion },
    /// Align the layers, then average them.
    StackLayers,
    // --- warps ---
    BeginWarp { puppet: bool },
    CommitWarp,
    CancelWarp,
    // --- attached filters ---
    RemoveAttachedFilter(usize),
    ToggleAttachedFilter(usize),
    ToggleAttachedFilters,
    EditAttachedFilter(usize),
    ApplyAttachedFilters,
    // --- selections from other things ---
    ShowColorRange,
    ShowRefineEdge,
    SelectionFromPath,
    PathFromSelection,
    // --- layer states ---
    SaveLayerState(String),
    ApplyLayerState(usize),
    UpdateLayerState(usize),
    DeleteLayerState(usize),
    // --- masks ---
    AddLayerMaskFromDepth { invert: bool },
    AddVectorMask { invert: bool },
    /// Turn the active layer into a mask on the one below it.
    LayerToMask,
    /// Load the active layer's mask as the selection.
    SelectionFromMask,
    AddLayerMask { hide_all: bool },
    AddLayerMaskFromSelection { invert: bool },
    DeleteLayerMask,
    ApplyLayerMask,
    ToggleMaskEnabled,
    /// Paint on the layer's pixels or on its mask.
    SetEditTarget(EditTarget),
    // --- more layer, selection and filter commands ---
    RenameLayer(LayerId),
    RasterizeLayer,
    GrowSelection,
    SimilarSelection,
    RepeatLastFilter,
    SaveSelectionAsChannel,
    LoadChannelAsSelection(usize),
    DeleteChannel(usize),
    ToggleChannelVisible(usize),
    /// Abandon the selection being dragged out, or finish it.
    CancelDrag,
    CloseDrag,
    CloseDialog,
    Quit,
}

/// An operation the shell decides nothing about: it hands it to the window
/// as it came, and the window carries it out on the focused document or on
/// its own panels and worker windows.
#[derive(Debug, PartialEq, Eq)]
pub enum Task<P> {
    TextInput { step: TextStep, text: Vec<char> },
    SetHistorySource(usize),
    StepBrushHardness(i32),
    ConvertToSmartObject,
    DeletePathAnchors,
    ShowSegment,
    SegmentDetect,
    SegmentPreview,
    SegmentCancel,
    ContentAwareScale { width: u32, height: u32, protect_selection: bool },
    ShowRelight,
    RelightPreview,
    RelightKeep,
    RelightCancel,
    FillInSelection,
    ShowSeparate,
    RunSeparate,
    ShowUpscale,
    RunUpscale,
    ShowDenoise,
    RunDenoise,
    DenoiseRestrength,
    DenoiseKeep,
    DenoiseCancel,
    ShowLens,
    ApplyLens,
    ReplaceSky,
    RetouchSkin,
    ShowDepthFx,
    PreviewDepthFx,
    KeepDepthFx,
    CancelDepthFx,
    ShowColorProfile,
    SetColorProfile { path: Option<P>, convert: bool },
    SetDepth(u8),
    ClearGuides,
    ClearRecent,
    ShowFrame(usize),
    TogglePlayback,
    ToggleTimeline,
    SetFrameDelay(u16),
    SetOneFrameDelay(usize, u16),
    AlignLayers { motion: AlignMotion },
    StackLayers,
    BeginWarp { puppet: bool },
    CommitWarp,
    CancelWarp,
    RemoveAttachedFilter(usize),
    ToggleAttachedFilter(usize),
    ToggleAttachedFilters,
    EditAttachedFilter(usize),
    ApplyAttachedFilters,
    ShowColorRange,
    ShowRefineEdge,
    SelectionFromPath,
    PathFromSelection,
    SaveLayerState(String),
    ApplyLayerState(usize),
    UpdateLayerState(usize),
    DeleteLayerState(usize),
    AddLayerMaskFromDepth { invert: bool },
    AddVectorMask { invert: bool },
    LayerToMask,
    SelectionFromMask,
}

/// How Align Layers fits each layer onto the bottom one.
#[derive(Debug, Clone, Copy, PartialEq, Eq, Structural)]
pub enum AlignMotion {
    /// A shift only.
    Translation,
    /// Shift, turn and scale.
    Similarity,
    /// The full projective fit, for a camera that turned.
    Homography,
}

/// What painting on a layer changes.
#[derive(Debug, Clone, Copy, PartialEq, Eq, Structural)]
pub enum EditTarget {
    Pixels,
    Mask,
}

/// Which dialog to open.
#[derive(Debug, Clone, Copy, PartialEq, Eq, Structural)]
pub enum DialogKind {
    NewDocument,
    Open,
    SaveAs,
    ColorPicker(PickerTarget),
    Fill,
    Modify(ModifyKind),
    ImageSize,
    CanvasSize,
    /// Layer Style, for this layer.
    LayerStyle(LayerId),
}

/// A message for the status bar.
#[derive(Debug, Clone, Copy, PartialEq, Eq, Structural)]
pub enum Notice {
    NothingSelected,
    NoSelectionToRestore,
    /// Groups cannot be duplicated yet.
    GroupNotDuplicated,
    /// Quick Mask was switched on (`true`) or off.
    QuickMask(bool),
    AlreadyMasked,
    NoMask,
    /// Only type and shape layers can be rasterised.
    NotVector,
    NoFilterYet,
    /// The tool was picked, but the canvas has no handler for it yet.
    ToolNotImplemented(Tool),
    /// Layer effects need a layer with pixels.
    NeedsPixels,
}

/// How to change the zoom.
#[derive(Debug, Clone, Copy, PartialEq, Eq, Structural)]
pub enum Zoom {
    StepIn,
    StepOut,
    Fit,
    Actual,
}

/// Work on the focused document, or on the window, that the window carries
/// out in the order given.
#[derive(Debug, PartialEq, Eq)]
pub enum Effect<P> {
    /// Make a new document.
    CreateDocument { name: String, width: u32, height: u32, background: BackgroundChoice },
    ShowDialog(DialogKind),
    Open(P),
    /// Save to the path the focused document came from.
    SaveInPlace,
    SaveTo { path: P, deep: bool },
    /// Remove the document at this index from the tabs.
    RemoveDocument(usize),
    /// Redraw the document at this index in full: it was hidden.
    Invalidate(usize),
    Undo,
    Redo,
    HistoryJump(usize),
    Zoom(Zoom),
    /// Add a layer (or a group) at this slot.
    AddLayer { group: bool, at: LayerPos },
    DeleteLayer(LayerId),
    DuplicateLayer(LayerId),
    LayerViaCopy,
    MergeDown(LayerId),
    Flatten,
    SelectLayer(LayerId),
    /// Select the layer on this row of the Layers panel.
    SelectRow(usize),
    MoveLayer(LayerId, LayerPos),
    SetClipping(LayerId, bool),
    OffsetLayer(LayerId, i32, i32),
    /// Fill the active layer (within the selection) with a colour at full
    /// opacity in Normal mode.
    Fill { color: Rgba8, preserve_transparency: bool },
    Copy { merged: bool, cut: bool },
    Paste { in_place: bool },
    SetBrushSize(u32),
    SelectAll,
    Deselect,
    Reselect,
    InvertSelection,
    /// Select the whole canvas without recording a step, as entering Quick
    /// Mask with nothing selected does.
    SelectAllQuietly,
    Notify(Notice),
    BeginTransform,
    CommitTransform,
    CancelTransform,
    TransformPreset(TransformPreset),
    CommitCrop,
    CancelCrop,
    CropToSelection,
    CancelPath,
    /// Add a mask to the active layer: cut from the selection (inverted or
    /// not), or revealing or hiding everything.
    AddMask { from_selection: bool, invert: bool, hide_all: bool },
    /// Remove the active layer's mask, applying it to the pixels first when
    /// `apply`, and go back to painting on pixels.
    RemoveMask { apply: bool },
    SetMaskEnabled(LayerId, bool),
    SetEditTarget(EditTarget),
    /// Open the rename dialog for this layer, with its current name.
    ShowRename(LayerId),
    /// Commit whatever text is being typed.
    CommitText,
    /// Throw away whatever text is being typed.
    CancelText,
    /// Start editing this type layer.
    EditText(LayerId),
    FinishPath { closed: bool },
    /// Remove every effect from this layer.
    ClearEffects(LayerId),
    /// Give the canvas this size, moving every layer by this offset.
    ResizeCanvas { width: u32, height: u32, dx: i32, dy: i32 },
    /// Carry out an operation the shell decided nothing about.
    Forward(Task<P>),
    Rasterize(LayerId),
    /// Grow the selection to neighbouring similar pixels, or to every
    /// similar pixel (`similar`).
    Grow { similar: bool },
    ApplyLastFilter,
    SaveChannel,
    LoadChannel(usize),
    DeleteChannel(usize),
    ToggleChannel(usize),
    CancelDrag,
    CloseDrag,
    CloseDialog,
}

/// What the window knows about the focused document's active layer.
#[derive(Debug, Clone, Copy, PartialEq, Eq, Structural)]
pub struct ActiveFacts {
    pub id: LayerId,
    /// Where it is in the tree.
    pub pos: LayerPos,
    /// How many layers its group holds, itself included.
    pub siblings: usize,
    /// Its row in the Layers panel, when it is listed there.
    pub row: Option<usize>,
    pub is_group: bool,
    pub clipping: bool,
    /// No lock stops it from being moved.
    pub movable: bool,
    pub has_mask: bool,
    pub mask_enabled: bool,
    /// It is type or a shape, drawn from a description.
    pub is_vector: bool,
    /// It holds pixels (it is not a group or an adjustment).
    pub has_pixels: bool,
}

/// What the window knows about the focused document.
#[derive(Debug, Clone, Copy, PartialEq, Eq, Structural)]
pub struct DocFacts {
    /// Layers in the whole tree.
    pub layer_count: usize,
    /// Layers at the top level.
    pub root_len: usize,
    /// Rows in the Layers panel.
    pub rows: usize,
    pub active: Option<ActiveFacts>,
    pub has_selection: bool,
    /// There is a previous selection that Reselect brings back.
    pub can_reselect: bool,
    /// It was opened from, or saved to, a file.
    pub has_path: bool,
    /// How many saved selections (channels) it holds.
    pub channels: usize,
    /// The canvas size.
    pub width: u32,
    pub height: u32,
}

impl DocFacts {
    /// The facts describe a real tree: the active layer sits inside its
    /// group and on a listed row, and the counts leave room for an `i32`
    /// step in an `i64`.
    pub open spec fn well_formed(self) -> bool {
        &&& self.rows <= i64::MAX - 0x8000_0000
        &&& match self.active {
            Some(a) => {
                &&& a.pos.index < a.siblings
                &&& a.siblings <= i64::MAX - 0x8000_0000
                &&& a.pos.index < usize::MAX
                &&& (a.row matches Some(r) ==> r < self.rows)
            },
            None => true,
        }
    }
}

/// What the New dialog asks for: the name as typed, the size, and what the
/// background layer starts as.
#[derive(Debug, PartialEq, Eq)]
pub struct NewDocRequest {
    pub name: String,
    pub width: u32,
    pub height: u32,
    pub background: BackgroundChoice,
}

/// The state the shell owns, apart from the documents themselves.
#[derive(Debug, PartialEq, Eq)]
pub struct ShellState {
    /// How many documents are open.
    pub docs: usize,
    /// The focused tab.
    pub active: Option<usize>,
    pub foreground: Rgba8,
    pub background: Rgba8,
    /// The rung of the brush-size ladder the brush is on.
    pub brush_rung: usize,
    pub show_panels: bool,
    pub show_rulers: bool,
    pub show_guides: bool,
    pub show_grid: bool,
    /// Dragging snaps to guides.
    pub snap: bool,
    pub quick_mask: bool,
    /// How many documents have been made new this session.
    pub untitled_count: u32,
    /// What a confirmed New dialog asked for.
    pub pending_new: Option<NewDocRequest>,
    /// The active tool.
    pub tool: Tool,
    /// A filter has been applied this session.
    pub last_filter: bool,
    /// The window has been asked to close.
    pub quit: bool,
}

impl ShellState {
    /// A focused tab exists, and the brush is on the ladder.
    pub open spec fn well_formed(self) -> bool {
        &&& (self.active matches Some(a) ==> a < self.docs)
        &&& self.brush_rung < LADDER_LEN
    }
}

pub open spec fn black() -> Rgba8 {
    Rgba8 { r: 0, g: 0, b: 0, a: 255 }
}

pub open spec fn white() -> Rgba8 {
    Rgba8 { r: 255, g: 255, b: 255, a: 255 }
}

pub open spec fn transparent() -> Rgba8 {
    Rgba8 { r: 0, g: 0, b: 0, a: 0 }
}

/// The task an action hands over unchanged, if it is one of those.
pub open spec fn forwarded<P>(a: Action<P>) -> Option<Task<P>> {
    match a {
        Action::TextInput { step, text } => Some(Task::TextInput { step, text }),
        Action::SetHistorySource(x) => Some(Task::SetHistorySource(x)),
        Action::StepBrushHardness(x) => Some(Task::StepBrushHardness(x)),
        Action::ConvertToSmartObject => Some(Task::ConvertToSmartObject),
        Action::DeletePathAnchors => Some(Task::DeletePathAnchors),
        Action::ShowSegment => Some(Task::ShowSegment),
        Action::SegmentDetect => Some(Task::SegmentDetect),
        Action::SegmentPreview => Some(Task::SegmentPreview),
        Action::SegmentCancel => Some(Task::SegmentCancel),
        Action::ContentAwareScale { width, height, protect_selection } => Some(Task::ContentAwareScale { width, height, protect_selection }),
        Action::ShowRelight => Some(Task::ShowRelight),
        Action::RelightPreview => Some(Task::RelightPreview),
        Action::RelightKeep => Some(Task::RelightKeep),
        Action::RelightCancel => Some(Task::RelightCancel),
        Action::FillInSelection => Some(Task::FillInSelection),
        Action::ShowSeparate => Some(Task::ShowSeparate),
        Action::RunSeparate => Some(Task::RunSeparate),
        Action::ShowUpscale => Some(Task::ShowUpscale),
        Action::RunUpscale => Some(Task::RunUpscale),
        Action::ShowDenoise => Some(Task::ShowDenoise),
        Action::RunDenoise => Some(Task::RunDenoise),
        Action::DenoiseRestrength => Some(Task::DenoiseRestrength),
        Action::DenoiseKeep => Some(Task::DenoiseKeep),
        Action::DenoiseCancel => Some(Task::DenoiseCancel),
        Action::ShowLens => Some(Task::ShowLens),
        Action::ApplyLens => Some(Task::ApplyLens),
        Action::ReplaceSky => Some(Task::ReplaceSky),
        Action::RetouchSkin => Some(Task::RetouchSkin),
        Action::ShowDepthFx => Some(Task::ShowDepthFx),
        Action::PreviewDepthFx => Some(Task::PreviewDepthFx),
        Action::KeepDepthFx => Some(Task::KeepDepthFx),
        Action::CancelDepthFx => Some(Task::CancelDepthFx),
        Action::ShowColorProfile => Some(Task::ShowColorProfile),
        Action::SetColorProfile { path, convert } => Some(Task::SetColorProfile { path, convert }),
        Action::SetDepth(x) => Some(Task::SetDepth(x)),
        Action::ClearGuides => Some(Task::ClearGuides),
        Action::ClearRecent => Some(Task::ClearRecent),
        Action::ShowFrame(x) => Some(Task::ShowFrame(x)),
        Action::TogglePlayback => Some(Task::TogglePlayback),
        Action::ToggleTimeline => Some(Task::ToggleTimeline),
        Action::SetFrameDelay(x) => Some(Task::SetFrameDelay(x)),
        Action::SetOneFrameDelay(x, y) => Some(Task::SetOneFrameDelay(x, y)),
        Action::AlignLayers { motion } => Some(Task::AlignLayers { motion }),
        Action::StackLayers => Some(Task::StackLayers),
        Action::BeginWarp { puppet } => Some(Task::BeginWarp { puppet }),
        Action::CommitWarp => Some(Task::CommitWarp),
        Action::CancelWarp => Some(Task::CancelWarp),
        Action::RemoveAttachedFilter(x) => Some(Task::RemoveAttachedFilter(x)),
        Action::ToggleAttachedFilter(x) => Some(Task::ToggleAttachedFilter(x)),
        Action::ToggleAttachedFilters => Some(Task::ToggleAttachedFilters),
        Action::EditAttachedFilter(x) => Some(Task::EditAttachedFilter(x)),
        Action::ApplyAttachedFilters => Some(Task::ApplyAttachedFilters),
        Action::ShowColorRange => Some(Task::ShowColorRange),
        Action::ShowRefineEdge => Some(Task::ShowRefineEdge),
        Action::SelectionFromPath => Some(Task::SelectionFromPath),
        Action::PathFromSelection => Some(Task::PathFromSelection),
        Action::SaveLayerState(x) => Some(Task::SaveLayerState(x)),
        Action::ApplyLayerState(x) => Some(Task::ApplyLayerState(x)),
        Action::UpdateLayerState(x) => Some(Task::UpdateLayerState(x)),
        Action::DeleteLayerState(x) => Some(Task::DeleteLayerState(x)),
        Action::AddLayerMaskFromDepth { invert } => Some(Task::AddLayerMaskFromDepth { invert }),
        Action::AddVectorMask { invert } => Some(Task::AddVectorMask { invert }),
        Action::LayerToMask => Some(Task::LayerToMask),
        Action::SelectionFromMask => Some(Task::SelectionFromMask),
        _ => None,
    }
}

/// Whether `a` changes the shell's own state (and how): every action not
/// listed here leaves it as it was.
pub open spec fn next_state<P>(s: ShellState, a: Action<P>) -> ShellState {
    match a {
        Action::NewDocument => match s.pending_new {
            Some(_) => ShellState { pending_new: None, untitled_count: (s.untitled_count + 1) as u32, ..s },
            None => s,
        },
        Action::CloseDocument(i) => match spec_close_tab(s.active, i, s.docs) {
            Some(o) => ShellState { docs: (s.docs - 1) as usize, active: o.active, ..s },
            None => s,
        },
        Action::SelectDocument(i) => if i < s.docs { ShellState { active: Some(i), ..s } } else { s },
        Action::SelectTool { tool, .. } => ShellState { tool, ..s },
        Action::SwapColors => ShellState { foreground: s.background, background: s.foreground, ..s },
        Action::ResetColors => ShellState { foreground: black(), background: white(), ..s },
        Action::SetColor(PickerTarget::Foreground, c) => ShellState { foreground: c, ..s },
        Action::SetColor(PickerTarget::Background, c) => ShellState { background: c, ..s },
        Action::TogglePanels => ShellState { show_panels: !s.show_panels, ..s },
        Action::ToggleRulers => ShellState { show_rulers: !s.show_rulers, ..s },
        Action::ToggleGuides => ShellState { show_guides: !s.show_guides, ..s },
        Action::ToggleGrid => ShellState { show_grid: !s.show_grid, ..s },
        Action::ToggleSnap => ShellState { snap: !s.snap, ..s },
        Action::Quit => ShellState { quit: true, ..s },
        Action::ToggleQuickMask => ShellState { quick_mask: !s.quick_mask, ..s },
        Action::StepBrushSize(dir) => ShellState {
            brush_rung: spec_step_stop(s.brush_rung as int, dir as int) as usize,
            ..s
        },
        _ => s,
    }
}

/// An effect on the focused document, when there is one; nothing otherwise.
pub open spec fn with_doc<P>(d: Option<DocFacts>, e: Effect<P>) -> Seq<Effect<P>> {
    if d is Some { seq![e] } else { seq![] }
}

/// The focused document's active layer, when there is one.
pub open spec fn active_layer(d: Option<DocFacts>) -> Option<ActiveFacts> {
    match d {
        Some(doc) => doc.active,
        None => None,
    }
}

/// The work `a` hands the window, for every action but a confirmed New
/// Document, whose name is a string and is stated by `run` itself.
pub open spec fn effects<P>(s: ShellState, d: Option<DocFacts>, a: Action<P>) -> Seq<Effect<P>> {
    match a {
        Action::NewDocument => if s.pending_new is None {
            seq![Effect::ShowDialog(DialogKind::NewDocument)]
        } else {
            seq![]
        },
        Action::ShowOpenDialog => seq![Effect::ShowDialog(DialogKind::Open)],
        Action::OpenPath(p) => seq![Effect::Open(p)],
        Action::Save => match d {
            Some(doc) => if doc.has_path {
                seq![Effect::SaveInPlace]
            } else {
                seq![Effect::ShowDialog(DialogKind::SaveAs)]
            },
            None => seq![],
        },
        Action::ShowSaveAsDialog => with_doc(d, Effect::ShowDialog(DialogKind::SaveAs)),
        Action::SavePath { path, deep } => with_doc(d, Effect::SaveTo { path, deep }),
        Action::CloseDocument(i) => match spec_close_tab(s.active, i, s.docs) {
            Some(o) => match o.active {
                Some(k) => seq![Effect::RemoveDocument(o.removed), Effect::Invalidate(k)],
                None => seq![Effect::RemoveDocument(o.removed)],
            },
            None => seq![],
        },
        Action::SelectDocument(i) => if i < s.docs { seq![Effect::Invalidate(i)] } else { seq![] },
        Action::Undo => with_doc(d, Effect::Undo),
        Action::Redo => with_doc(d, Effect::Redo),
        Action::HistoryJump(t) => with_doc(d, Effect::HistoryJump(t)),
        Action::SelectTool { tool, implemented } => (if tool != Tool::Text {
            seq![Effect::CommitText]
        } else {
            seq![]
        }) + (if implemented { seq![] } else { seq![Effect::Notify(Notice::ToolNotImplemented(tool))] }),
        Action::SwapColors | Action::ResetColors | Action::SetColor(..) | Action::TogglePanels
        | Action::ToggleRulers | Action::ToggleGuides | Action::ToggleGrid | Action::ToggleSnap => seq![],
        Action::ShowColorPicker(t) => seq![Effect::ShowDialog(DialogKind::ColorPicker(t))],
        Action::ShowFillDialog => seq![Effect::ShowDialog(DialogKind::Fill)],
        Action::FillSwatch { background, preserve_transparency } => with_doc(
            d,
            Effect::Fill { color: if background { s.background } else { s.foreground }, preserve_transparency },
        ),
        Action::ClearLayer => with_doc(d, Effect::Fill { color: transparent(), preserve_transparency: false }),
        Action::ZoomIn => with_doc(d, Effect::Zoom(Zoom::StepIn)),
        Action::ZoomOut => with_doc(d, Effect::Zoom(Zoom::StepOut)),
        Action::ZoomFit => with_doc(d, Effect::Zoom(Zoom::Fit)),
        Action::ZoomActual => with_doc(d, Effect::Zoom(Zoom::Actual)),
        Action::NewLayer | Action::NewGroup => match d {
            Some(doc) => seq![Effect::AddLayer {
                group: a is NewGroup,
                at: match doc.active {
                    Some(l) => above(l.pos),
                    None => LayerPos { parent: None, index: doc.root_len },
                },
            }],
            None => seq![],
        },
        Action::DeleteLayer => match active_layer(d) {
            Some(l) => if can_delete(d.unwrap().layer_count) { seq![Effect::DeleteLayer(l.id)] } else { seq![] },
            None => seq![],
        },
        Action::DuplicateLayer => match active_layer(d) {
            Some(l) => if l.is_group {
                seq![Effect::Notify(Notice::GroupNotDuplicated)]
            } else {
                seq![Effect::DuplicateLayer(l.id)]
            },
            None => seq![],
        },
        Action::LayerViaCopy => with_doc(d, Effect::LayerViaCopy),
        Action::MergeDown => match active_layer(d) {
            Some(l) => if can_merge_down(Some(l.pos.index)) { seq![Effect::MergeDown(l.id)] } else { seq![] },
            None => seq![],
        },
        Action::FlattenImage => with_doc(d, Effect::Flatten),
        Action::SelectLayer(id) => with_doc(d, Effect::SelectLayer(id)),
        Action::MoveLayer(id, pos) => with_doc(d, Effect::MoveLayer(id, pos)),
        Action::ToggleClippingMask => match active_layer(d) {
            Some(l) => seq![Effect::SetClipping(l.id, !l.clipping)],
            None => seq![],
        },
        Action::ReorderActiveLayer(by) => match active_layer(d) {
            Some(l) => match spec_reorder(l.pos.index, l.siblings, by) {
                Some(slot) => seq![Effect::MoveLayer(l.id, LayerPos { parent: l.pos.parent, index: slot })],
                None => seq![],
            },
            None => seq![],
        },
        Action::StepActiveLayer(by) => match active_layer(d) {
            Some(l) => match l.row {
                Some(r) => match spec_step_row(r, d.unwrap().rows, by) {
                    Some(n) => seq![Effect::SelectRow(n)],
                    None => seq![],
                },
                None => seq![],
            },
            None => seq![],
        },
        Action::NudgeLayer(dx, dy) => match active_layer(d) {
            Some(l) => if l.movable { seq![Effect::OffsetLayer(l.id, dx, dy)] } else { seq![] },
            None => seq![],
        },
        Action::Copy => with_doc(d, Effect::Copy { merged: false, cut: false }),
        Action::CopyMerged => with_doc(d, Effect::Copy { merged: true, cut: false }),
        Action::Cut => with_doc(d, Effect::Copy { merged: false, cut: true }),
        Action::Paste => seq![Effect::Paste { in_place: false }],
        Action::PasteInPlace => seq![Effect::Paste { in_place: true }],
        Action::StepBrushSize(dir) => seq![
            Effect::SetBrushSize(BRUSH_SIZES[spec_step_stop(s.brush_rung as int, dir as int)]),
        ],
        Action::SelectAll => with_doc(d, Effect::SelectAll),
        Action::Deselect => match d {
            Some(doc) => if doc.has_selection { seq![Effect::Deselect] } else { seq![] },
            None => seq![],
        },
        Action::Reselect => match d {
            Some(doc) => if doc.can_reselect {
                seq![Effect::Reselect]
            } else {
                seq![Effect::Notify(Notice::NoSelectionToRestore)]
            },
            None => seq![],
        },
        Action::InverseSelection => with_doc(d, Effect::InvertSelection),
        Action::ToggleQuickMask => {
            let on = !s.quick_mask;
            let notice = seq![Effect::Notify(Notice::QuickMask(on))];
            match d {
                Some(doc) => if on && !doc.has_selection { seq![Effect::SelectAllQuietly] + notice } else { notice },
                None => notice,
            }
        },
        Action::ShowModifyDialog(k) => seq![Effect::ShowDialog(DialogKind::Modify(k))],
        Action::BeginTransform => with_doc(d, Effect::BeginTransform),
        Action::CommitTransform => with_doc(d, Effect::CommitTransform),
        Action::CancelTransform => seq![Effect::CancelTransform],
        Action::TransformPreset(p) => with_doc(d, Effect::TransformPreset(p)),
        Action::CommitCrop => with_doc(d, Effect::CommitCrop),
        Action::CancelCrop => seq![Effect::CancelCrop],
        Action::CropToSelection => match d {
            Some(doc) => if doc.has_selection {
                seq![Effect::CropToSelection]
            } else {
                seq![Effect::Notify(Notice::NothingSelected)]
            },
            None => seq![Effect::Notify(Notice::NothingSelected)],
        },
        Action::CancelPath => seq![Effect::CancelPath],
        Action::ShowImageSize => with_doc(d, Effect::ShowDialog(DialogKind::ImageSize)),
        Action::ShowCanvasSize => with_doc(d, Effect::ShowDialog(DialogKind::CanvasSize)),
        Action::ResizeCanvas { width, height, anchor } => match d {
            Some(doc) => {
                let shift = anchor.spec_shift((doc.width, doc.height), (width, height));
                seq![Effect::ResizeCanvas { width, height, dx: shift.0 as i32, dy: shift.1 as i32 }]
            },
            None => seq![],
        },
        Action::EditTextLayer(id) => seq![Effect::CommitText] + with_doc(d, Effect::EditText(id)),
        Action::CommitText => seq![Effect::CommitText],
        Action::CancelText => seq![Effect::CancelText],
        Action::ShowLayerStyle => match active_layer(d) {
            Some(l) => if l.has_pixels {
                seq![Effect::ShowDialog(DialogKind::LayerStyle(l.id))]
            } else {
                seq![Effect::Notify(Notice::NeedsPixels)]
            },
            None => seq![],
        },
        Action::ClearLayerEffects(id) => with_doc(d, Effect::ClearEffects(id)),
        Action::FinishPath { closed } => seq![Effect::FinishPath { closed }],
        Action::AddLayerMask { hide_all } => match active_layer(d) {
            Some(l) => if l.has_mask {
                seq![Effect::Notify(Notice::AlreadyMasked)]
            } else {
                seq![Effect::AddMask { from_selection: false, invert: false, hide_all }]
            },
            None => seq![],
        },
        Action::AddLayerMaskFromSelection { invert } => match active_layer(d) {
            Some(l) => if l.has_mask {
                seq![Effect::Notify(Notice::AlreadyMasked)]
            } else if !d.unwrap().has_selection {
                seq![Effect::Notify(Notice::NothingSelected)]
            } else {
                seq![Effect::AddMask { from_selection: true, invert, hide_all: false }]
            },
            None => seq![],
        },
        Action::DeleteLayerMask => match active_layer(d) {
            Some(l) => if l.has_mask { seq![Effect::RemoveMask { apply: false }] } else { seq![Effect::Notify(Notice::NoMask)] },
            None => seq![],
        },
        Action::ApplyLayerMask => match active_layer(d) {
            Some(l) => if l.has_mask { seq![Effect::RemoveMask { apply: true }] } else { seq![Effect::Notify(Notice::NoMask)] },
            None => seq![],
        },
        Action::ToggleMaskEnabled => match active_layer(d) {
            Some(l) => if l.has_mask { seq![Effect::SetMaskEnabled(l.id, !l.mask_enabled)] } else { seq![] },
            None => seq![],
        },
        Action::SetEditTarget(t) => with_doc(d, Effect::SetEditTarget(t)),
        Action::RenameLayer(id) => with_doc(d, Effect::ShowRename(id)),
        Action::RasterizeLayer => seq![Effect::CommitText] + match active_layer(d) {
            Some(l) => if l.is_vector { seq![Effect::Rasterize(l.id)] } else { seq![Effect::Notify(Notice::NotVector)] },
            None => seq![],
        },
        Action::GrowSelection => with_doc(d, Effect::Grow { similar: false }),
        Action::SimilarSelection => with_doc(d, Effect::Grow { similar: true }),
        Action::RepeatLastFilter => if s.last_filter {
            with_doc(d, Effect::ApplyLastFilter)
        } else {
            seq![Effect::Notify(Notice::NoFilterYet)]
        },
        Action::SaveSelectionAsChannel => match d {
            Some(doc) => if doc.has_selection { seq![Effect::SaveChannel] } else { seq![Effect::Notify(Notice::NothingSelected)] },
            None => seq![],
        },
        Action::LoadChannelAsSelection(i) => match d {
            Some(doc) => if i < doc.channels { seq![Effect::LoadChannel(i)] } else { seq![] },
            None => seq![],
        },
        Action::DeleteChannel(i) => match d {
            Some(doc) => if i < doc.channels { seq![Effect::DeleteChannel(i)] } else { seq![] },
            None => seq![],
        },
        Action::ToggleChannelVisible(i) => match d {
            Some(doc) => if i < doc.channels { seq![Effect::ToggleChannel(i)] } else { seq![] },
            None => seq![],
        },
        Action::CancelDrag => seq![Effect::CancelDrag],
        Action::CloseDrag => seq![Effect::CloseDrag],
        Action::CloseDialog => seq![Effect::CloseDialog],
        Action::Quit => seq![],
        _ => match forwarded(a) {
            Some(t) => seq![Effect::Forward(t)],
            None => seq![],
        },
    }
}

/// Split off the actions that are handed over unchanged.
fn forward<P>(a: Action<P>) -> (r: Result<Task<P>, Action<P>>)
    ensures
        match r {
            Ok(t) => forwarded(a) == Some(t),
            Err(b) => b == a && forwarded(a) is None,
        },
{
    match a {
        Action::TextInput { step, text } => Ok(Task::TextInput { step, text }),
        Action::SetHistorySource(x) => Ok(Task::SetHistorySource(x)),
        Action::StepBrushHardness(x) => Ok(Task::StepBrushHardness(x)),
        Action::ConvertToSmartObject => Ok(Task::ConvertToSmartObject),
        Action::DeletePathAnchors => Ok(Task::DeletePathAnchors),
        Action::ShowSegment => Ok(Task::ShowSegment),
        Action::SegmentDetect => Ok(Task::SegmentDetect),
        Action::SegmentPreview => Ok(Task::SegmentPreview),
        Action::SegmentCancel => Ok(Task::SegmentCancel),
        Action::ContentAwareScale { width, height, protect_selection } => Ok(Task::ContentAwareScale { width, height, protect_selection }),
        Action::ShowRelight => Ok(Task::ShowRelight),
        Action::RelightPreview => Ok(Task::RelightPreview),
        Action::RelightKeep => Ok(Task::RelightKeep),
        Action::RelightCancel => Ok(Task::RelightCancel),
        Action::FillInSelection => Ok(Task::FillInSelection),
        Action::ShowSeparate => Ok(Task::ShowSeparate),
        Action::RunSeparate => Ok(Task::RunSeparate),
        Action::ShowUpscale => Ok(Task::ShowUpscale),
        Action::RunUpscale => Ok(Task::RunUpscale),
        Action::ShowDenoise => Ok(Task::ShowDenoise),
        Action::RunDenoise => Ok(Task::RunDenoise),
        Action::DenoiseRestrength => Ok(Task::DenoiseRestrength),
        Action::DenoiseKeep => Ok(Task::DenoiseKeep),
        Action::DenoiseCancel => Ok(Task::DenoiseCancel),
        Action::ShowLens => Ok(Task::ShowLens),
        Action::ApplyLens => Ok(Task::ApplyLens),
        Action::ReplaceSky => Ok(Task::ReplaceSky),
        Action::RetouchSkin => Ok(Task::RetouchSkin),
        Action::ShowDepthFx => Ok(Task::ShowDepthFx),
        Action::PreviewDepthFx => Ok(Task::PreviewDepthFx),
        Action::KeepDepthFx => Ok(Task::KeepDepthFx),
        Action::CancelDepthFx => Ok(Task::CancelDepthFx),
        Action::ShowColorProfile => Ok(Task::ShowColorProfile),
        Action::SetColorProfile { path, convert } => Ok(Task::SetColorProfile { path, convert }),
        Action::SetDepth(x) => Ok(Task::SetDepth(x)),
        Action::ClearGuides => Ok(Task::ClearGuides),
        Action::ClearRecent => Ok(Task::ClearRecent),
        Action::ShowFrame(x) => Ok(Task::ShowFrame(x)),
        Action::TogglePlayback => Ok(Task::TogglePlayback),
        Action::ToggleTimeline => Ok(Task::ToggleTimeline),
        Action::SetFrameDelay(x) => Ok(Task::SetFrameDelay(x)),
        Action::SetOneFrameDelay(x, y) => Ok(Task::SetOneFrameDelay(x, y)),
        Action::AlignLayers { motion } => Ok(Task::AlignLayers { motion }),
        Action::StackLayers => Ok(Task::StackLayers),
        Action::BeginWarp { puppet } => Ok(Task::BeginWarp { puppet }),
        Action::CommitWarp => Ok(Task::CommitWarp),
        Action::CancelWarp => Ok(Task::CancelWarp),
        Action::RemoveAttachedFilter(x) => Ok(Task::RemoveAttachedFilter(x)),
        Action::ToggleAttachedFilter(x) => Ok(Task::ToggleAttachedFilter(x)),
        Action::ToggleAttachedFilters => Ok(Task::ToggleAttachedFilters),
        Action::EditAttachedFilter(x) => Ok(Task::EditAttachedFilter(x)),
        Action::ApplyAttachedFilters => Ok(Task::ApplyAttachedFilters),
        Action::ShowColorRange => Ok(Task::ShowColorRange),
        Action::ShowRefineEdge => Ok(Task::ShowRefineEdge),
        Action::SelectionFromPath => Ok(Task::SelectionFromPath),
        Action::PathFromSelection => Ok(Task::PathFromSelection),
        Action::SaveLayerState(x) => Ok(Task::SaveLayerState(x)),
        Action::ApplyLayerState(x) => Ok(Task::ApplyLayerState(x)),
        Action::UpdateLayerState(x) => Ok(Task::UpdateLayerState(x)),
        Action::DeleteLayerState(x) => Ok(Task::DeleteLayerState(x)),
        Action::AddLayerMaskFromDepth { invert } => Ok(Task::AddLayerMaskFromDepth { invert }),
        Action::AddVectorMask { invert } => Ok(Task::AddVectorMask { invert }),
        Action::LayerToMask => Ok(Task::LayerToMask),
        Action::SelectionFromMask => Ok(Task::SelectionFromMask),
        other => Err(other),
    }
}

fn doc_effect<P>(d: Option<DocFacts>, e: Effect<P>) -> (r: Vec<Effect<P>>)
    ensures
        r@ == with_doc(d, e),
{
    let mut v: Vec<Effect<P>> = Vec::new();
    if d.is_some() {
        v.push(e);
    }
    assert(v@ =~= with_doc(d, e));
    v
}

fn one<P>(e: Effect<P>) -> (r: Vec<Effect<P>>)
    ensures
        r@ == seq![e],
{
    let mut v: Vec<Effect<P>> = Vec::new();
    v.push(e);
    assert(v@ =~= seq![e]);
    v
}

fn none<P>() -> (r: Vec<Effect<P>>)
    ensures
        r@ == Seq::<Effect<P>>::empty(),
{
    let v: Vec<Effect<P>> = Vec::new();
    assert(v@ =~= Seq::<Effect<P>>::empty());
    v
}

fn remove_mask<P>(d: Option<DocFacts>, apply: bool) -> (r: Vec<Effect<P>>)
    ensures
        r@ == match active_layer(d) {
            Some(l) => if l.has_mask { seq![Effect::RemoveMask { apply }] } else { seq![Effect::Notify(Notice::NoMask)] },
            None => Seq::<Effect<P>>::empty(),
        },
{
    match d {
        Some(doc) => match doc.active {
            Some(l) => if l.has_mask { one(Effect::RemoveMask { apply }) } else { one(Effect::Notify(Notice::NoMask)) },
            None => none(),
        },
        None => none(),
    }
}

/// The actions [`run_documents_and_colour`] applies.
spec fn in_documents_and_colour<P>(a: Action<P>) -> bool {
    match a {
        Action::NewDocument | Action::ShowOpenDialog | Action::OpenPath(..) | Action::Save | Action::ShowSaveAsDialog | Action::SavePath { .. } | Action::CloseDocument(..) | Action::SelectDocument(..) | Action::Undo | Action::Redo | Action::HistoryJump(..) | Action::SelectTool { .. } | Action::SwapColors | Action::ResetColors | Action::ShowColorPicker(..) | Action::SetColor(..) | Action::ShowFillDialog | Action::FillSwatch { .. } | Action::ClearLayer | Action::ZoomIn | Action::ZoomOut | Action::ZoomFit | Action::ZoomActual | Action::TogglePanels | Action::ToggleRulers | Action::ToggleGuides | Action::ToggleGrid | Action::ToggleSnap | Action::NewLayer | Action::NewGroup => true,
        _ => false,
    }
}

fn is_documents_and_colour<P>(a: &Action<P>) -> (b: bool)
    ensures
        b == in_documents_and_colour(*a),
{
    match a {
        Action::NewDocument | Action::ShowOpenDialog | Action::OpenPath(..) | Action::Save | Action::ShowSaveAsDialog | Action::SavePath { .. } | Action::CloseDocument(..) | Action::SelectDocument(..) | Action::Undo | Action::Redo | Action::HistoryJump(..) | Action::SelectTool { .. } | Action::SwapColors | Action::ResetColors | Action::ShowColorPicker(..) | Action::SetColor(..) | Action::ShowFillDialog | Action::FillSwatch { .. } | Action::ClearLayer | Action::ZoomIn | Action::ZoomOut | Action::ZoomFit | Action::ZoomActual | Action::TogglePanels | Action::ToggleRulers | Action::ToggleGuides | Action::ToggleGrid | Action::ToggleSnap | Action::NewLayer | Action::NewGroup => true,
        _ => false,
    }
}

/// Documents, history, tools, colour, view and new layers.
#[verifier::rlimit(100)]
fn run_documents_and_colour<P>(s: ShellState, d: Option<DocFacts>, a: Action<P>) -> (r: (ShellState, Vec<Effect<P>>))
    requires
        s.well_formed(),
        d is Some <==> s.active is Some,
        d matches Some(doc) ==> doc.well_formed(),
        s.pending_new is Some ==> s.untitled_count < u32::MAX,
        in_documents_and_colour(a),
    ensures
        r.0 == next_state(s, a),
        r.0.well_formed(),
        a is NewDocument && s.pending_new is Some ==> {
            let p = s.pending_new.unwrap();
            &&& r.1@.len() == 1
            &&& r.1@[0] matches Effect::CreateDocument { name, width, height, background }
                && name@ == spec_untitled_name(p.name@, s.untitled_count) && width == p.width
                && height == p.height && background == p.background
        },
        !(a is NewDocument && s.pending_new is Some) ==> r.1@ == effects(s, d, a),
{
    let ghost s0 = s;
    let ghost a0 = a;
    match a {
        Action::NewDocument => {
            let ShellState {
                docs, active, foreground, background, brush_rung, show_panels, show_rulers, show_guides,
                show_grid, snap, quick_mask, untitled_count, pending_new, tool, last_filter, quit,
            } = s;
            match pending_new {
                Some(NewDocRequest { name: typed, width, height, background: fill }) => {
                    let (name, next) = untitled_name(typed, untitled_count);
                    let s2 = ShellState {
                        docs, active, foreground, background, brush_rung, show_panels, show_rulers,
                        show_guides, show_grid, snap, quick_mask, untitled_count: next, pending_new: None,
                        tool, last_filter, quit,
                    };
                    (s2, one(Effect::CreateDocument { name, width, height, background: fill }))
                },
                None => {
                    let s2 = ShellState {
                        docs, active, foreground, background, brush_rung, show_panels, show_rulers,
                        show_guides, show_grid, snap, quick_mask, untitled_count, pending_new: None,
                        tool, last_filter, quit,
                    };
                    (s2, one(Effect::ShowDialog(DialogKind::NewDocument)))
                },
            }
        },
        Action::ShowOpenDialog => (s, one(Effect::ShowDialog(DialogKind::Open))),
        Action::OpenPath(p) => (s, one(Effect::Open(p))),
        Action::Save => {
            let e = match d {
                Some(doc) => if doc.has_path {
                    one(Effect::SaveInPlace)
                } else {
                    one(Effect::ShowDialog(DialogKind::SaveAs))
                },
                None => none(),
            };
            (s, e)
        },
        Action::ShowSaveAsDialog => (s, doc_effect(d, Effect::ShowDialog(DialogKind::SaveAs))),
        Action::SavePath { path, deep } => (s, doc_effect(d, Effect::SaveTo { path, deep })),
        Action::CloseDocument(i) => {
            match close_tab(s.active, i, s.docs) {
                Some(CloseOutcome { removed, active }) => {
                    let mut e = one(Effect::RemoveDocument(removed));
                    match active {
                        Some(k) => {
                            e.push(Effect::Invalidate(k));
                        },
                        None => {},
                    }
                    assert(e@ =~= effects(s0, d, a0));
                    (ShellState { docs: s.docs - 1, active, ..s }, e)
                },
                None => (s, none()),
            }
        },
        Action::SelectDocument(i) => {
            match select_tab(i, s.docs) {
                Some(k) => (ShellState { active: Some(k), ..s }, one(Effect::Invalidate(k))),
                None => (s, none()),
            }
        },
        Action::Undo => (s, doc_effect(d, Effect::Undo)),
        Action::Redo => (s, doc_effect(d, Effect::Redo)),
        Action::HistoryJump(t) => (s, doc_effect(d, Effect::HistoryJump(t))),
        Action::SelectTool { tool, implemented } => {
            let text = match tool {
                Tool::Text => true,
                _ => false,
            };
            let mut e = none();
            if !text {
                e.push(Effect::CommitText);
            }
            if !implemented {
                e.push(Effect::Notify(Notice::ToolNotImplemented(tool)));
            }
            assert(e@ =~= effects(s0, d, a0));
            (ShellState { tool, ..s }, e)
        },
        Action::SwapColors => {
            let (f, b) = (s.foreground, s.background);
            (ShellState { foreground: b, background: f, ..s }, none())
        },
        Action::ResetColors => (
            ShellState { foreground: Rgba8::opaque(0, 0, 0), background: Rgba8::opaque(255, 255, 255), ..s },
            none(),
        ),
        Action::ShowColorPicker(t) => (s, one(Effect::ShowDialog(DialogKind::ColorPicker(t)))),
        Action::SetColor(t, c) => match t {
            PickerTarget::Foreground => (ShellState { foreground: c, ..s }, none()),
            PickerTarget::Background => (ShellState { background: c, ..s }, none()),
        },
        Action::ShowFillDialog => (s, one(Effect::ShowDialog(DialogKind::Fill))),
        Action::FillSwatch { background, preserve_transparency } => {
            let color = if background { s.background } else { s.foreground };
            (s, doc_effect(d, Effect::Fill { color, preserve_transparency }))
        },
        Action::ClearLayer => (
            s,
            doc_effect(d, Effect::Fill { color: Rgba8 { r: 0, g: 0, b: 0, a: 0 }, preserve_transparency: false }),
        ),
        Action::ZoomIn => (s, doc_effect(d, Effect::Zoom(Zoom::StepIn))),
        Action::ZoomOut => (s, doc_effect(d, Effect::Zoom(Zoom::StepOut))),
        Action::ZoomFit => (s, doc_effect(d, Effect::Zoom(Zoom::Fit))),
        Action::ZoomActual => (s, doc_effect(d, Effect::Zoom(Zoom::Actual))),
        Action::TogglePanels => {
            let v = !s.show_panels;
            (ShellState { show_panels: v, ..s }, none())
        },
        Action::ToggleRulers => {
            let v = !s.show_rulers;
            (ShellState { show_rulers: v, ..s }, none())
        },
        Action::ToggleGuides => {
            let v = !s.show_guides;
            (ShellState { show_guides: v, ..s }, none())
        },
        Action::ToggleGrid => {
            let v = !s.show_grid;
            (ShellState { show_grid: v, ..s }, none())
        },
        Action::ToggleSnap => {
            let v = !s.snap;
            (ShellState { snap: v, ..s }, none())
        },
        Action::NewLayer => {
            let e = match d {
                Some(doc) => {
                    let at = new_layer_position(
                        match doc.active { Some(l) => Some(l.pos), None => None },
                        doc.root_len,
                    );
                    one(Effect::AddLayer { group: false, at })
                },
                None => none(),
            };
            (s, e)
        },
        Action::NewGroup => {
            let e = match d {
                Some(doc) => {
                    let at = new_layer_position(
                        match doc.active { Some(l) => Some(l.pos), None => None },
                        doc.root_len,
                    );
                    one(Effect::AddLayer { group: true, at })
                },
                None => none(),
            };
            (s, e)
        },
        _ => (s, none()),
    }
}

/// The actions [`run_layers_and_editing`] applies.
spec fn in_layers_and_editing<P>(a: Action<P>) -> bool {
    match a {
        Action::DeleteLayer | Action::DuplicateLayer | Action::LayerViaCopy | Action::MergeDown | Action::FlattenImage | Action::SelectLayer(..) | Action::MoveLayer(..) | Action::ToggleClippingMask | Action::ReorderActiveLayer(..) | Action::StepActiveLayer(..) | Action::NudgeLayer(..) | Action::Copy | Action::CopyMerged | Action::Cut | Action::Paste | Action::PasteInPlace | Action::StepBrushSize(..) | Action::SelectAll | Action::Deselect | Action::Reselect | Action::InverseSelection | Action::ToggleQuickMask | Action::ShowModifyDialog(..) | Action::BeginTransform | Action::CommitTransform | Action::CancelTransform | Action::TransformPreset(..) | Action::CommitCrop | Action::CancelCrop | Action::CropToSelection => true,
        _ => false,
    }
}

fn is_layers_and_editing<P>(a: &Action<P>) -> (b: bool)
    ensures
        b == in_layers_and_editing(*a),
{
    match a {
        Action::DeleteLayer | Action::DuplicateLayer | Action::LayerViaCopy | Action::MergeDown | Action::FlattenImage | Action::SelectLayer(..) | Action::MoveLayer(..) | Action::ToggleClippingMask | Action::ReorderActiveLayer(..) | Action::StepActiveLayer(..) | Action::NudgeLayer(..) | Action::Copy | Action::CopyMerged | Action::Cut | Action::Paste | Action::PasteInPlace | Action::StepBrushSize(..) | Action::SelectAll | Action::Deselect | Action::Reselect | Action::InverseSelection | Action::ToggleQuickMask | Action::ShowModifyDialog(..) | Action::BeginTransform | Action::CommitTransform | Action::CancelTransform | Action::TransformPreset(..) | Action::CommitCrop | Action::CancelCrop | Action::CropToSelection => true,
        _ => false,
    }
}

/// Layers, editing, the brush, selections, transforms and crops.
#[verifier::rlimit(100)]
fn run_layers_and_editing<P>(s: ShellState, d: Option<DocFacts>, a: Action<P>) -> (r: (ShellState, Vec<Effect<P>>))
    requires
        s.well_formed(),
        d is Some <==> s.active is Some,
        d matches Some(doc) ==> doc.well_formed(),
        s.pending_new is Some ==> s.untitled_count < u32::MAX,
        in_layers_and_editing(a),
    ensures
        r.0 == next_state(s, a),
        r.0.well_formed(),
        a is NewDocument && s.pending_new is Some ==> {
            let p = s.pending_new.unwrap();
            &&& r.1@.len() == 1
            &&& r.1@[0] matches Effect::CreateDocument { name, width, height, background }
                && name@ == spec_untitled_name(p.name@, s.untitled_count) && width == p.width
                && height == p.height && background == p.background
        },
        !(a is NewDocument && s.pending_new is Some) ==> r.1@ == effects(s, d, a),
{
    let ghost s0 = s;
    let ghost a0 = a;
    match a {
        Action::DeleteLayer => {
            let e = match d {
                Some(doc) => match doc.active {
                    Some(l) => if delete_allowed(doc.layer_count) { one(Effect::DeleteLayer(l.id)) } else { none() },
                    None => none(),
                },
                None => none(),
            };
            (s, e)
        },
        Action::DuplicateLayer => {
            let e = match d {
                Some(doc) => match doc.active {
                    Some(l) => if l.is_group {
                        one(Effect::Notify(Notice::GroupNotDuplicated))
                    } else {
                        one(Effect::DuplicateLayer(l.id))
                    },
                    None => none(),
                },
                None => none(),
            };
            (s, e)
        },
        Action::LayerViaCopy => (s, doc_effect(d, Effect::LayerViaCopy)),
        Action::MergeDown => {
            let e = match d {
                Some(doc) => match doc.active {
                    Some(l) => if merge_down_allowed(Some(l.pos.index)) {
                        one(Effect::MergeDown(l.id))
                    } else {
                        none()
                    },
                    None => none(),
                },
                None => none(),
            };
            (s, e)
        },
        Action::FlattenImage => (s, doc_effect(d, Effect::Flatten)),
        Action::SelectLayer(id) => (s, doc_effect(d, Effect::SelectLayer(id))),
        Action::MoveLayer(id, pos) => (s, doc_effect(d, Effect::MoveLayer(id, pos))),
        Action::ToggleClippingMask => {
            let e = match d {
                Some(doc) => match doc.active {
                    Some(l) => one(Effect::SetClipping(l.id, !l.clipping)),
                    None => none(),
                },
                None => none(),
            };
            (s, e)
        },
        Action::ReorderActiveLayer(by) => {
            let e = match d {
                Some(doc) => match doc.active {
                    Some(l) => match reorder_slot(l.pos.index, l.siblings, by) {
                        Some(slot) => one(Effect::MoveLayer(l.id, LayerPos { parent: l.pos.parent, index: slot })),
                        None => none(),
                    },
                    None => none(),
                },
                None => none(),
            };
            (s, e)
        },
        Action::StepActiveLayer(by) => {
            let e = match d {
                Some(doc) => match doc.active {
                    Some(l) => match l.row {
                        Some(row) => match step_row(row, doc.rows, by) {
                            Some(n) => one(Effect::SelectRow(n)),
                            None => none(),
                        },
                        None => none(),
                    },
                    None => none(),
                },
                None => none(),
            };
            (s, e)
        },
        Action::NudgeLayer(dx, dy) => {
            let e = match d {
                Some(doc) => match doc.active {
                    Some(l) => if l.movable { one(Effect::OffsetLayer(l.id, dx, dy)) } else { none() },
                    None => none(),
                },
                None => none(),
            };
            (s, e)
        },
        Action::Copy => (s, doc_effect(d, Effect::Copy { merged: false, cut: false })),
        Action::CopyMerged => (s, doc_effect(d, Effect::Copy { merged: true, cut: false })),
        Action::Cut => (s, doc_effect(d, Effect::Copy { merged: false, cut: true })),
        Action::Paste => (s, one(Effect::Paste { in_place: false })),
        Action::PasteInPlace => (s, one(Effect::Paste { in_place: true })),
        Action::StepBrushSize(dir) => {
            let rung = step_stop(s.brush_rung, dir);
            let size = brush_size(rung);
            (ShellState { brush_rung: rung, ..s }, one(Effect::SetBrushSize(size)))
        },
        Action::SelectAll => (s, doc_effect(d, Effect::SelectAll)),
        Action::Deselect => {
            let e = match d {
                Some(doc) => if doc.has_selection { one(Effect::Deselect) } else { none() },
                None => none(),
            };
            (s, e)
        },
        Action::Reselect => {
            let e = match d {
                Some(doc) => if doc.can_reselect {
                    one(Effect::Reselect)
                } else {
                    one(Effect::Notify(Notice::NoSelectionToRestore))
                },
                None => none(),
            };
            (s, e)
        },
        Action::InverseSelection => (s, doc_effect(d, Effect::InvertSelection)),
        Action::ToggleQuickMask => {
            let on = !s.quick_mask;
            let mut e = none();
            match d {
                Some(doc) => if on && !doc.has_selection {
                    e.push(Effect::SelectAllQuietly);
                },
                None => {},
            }
            e.push(Effect::Notify(Notice::QuickMask(on)));
            assert(e@ =~= effects(s0, d, a0));
            (ShellState { quick_mask: on, ..s }, e)
        },
        Action::ShowModifyDialog(k) => (s, one(Effect::ShowDialog(DialogKind::Modify(k)))),
        Action::BeginTransform => (s, doc_effect(d, Effect::BeginTransform)),
        Action::CommitTransform => (s, doc_effect(d, Effect::CommitTransform)),
        Action::CancelTransform => (s, one(Effect::CancelTransform)),
        Action::TransformPreset(p) => (s, doc_effect(d, Effect::TransformPreset(p))),
        Action::CommitCrop => (s, doc_effect(d, Effect::CommitCrop)),
        Action::CancelCrop => (s, one(Effect::CancelCrop)),
        Action::CropToSelection => {
            let e = match d {
                Some(doc) => if doc.has_selection {
                    one(Effect::CropToSelection)
                } else {
                    one(Effect::Notify(Notice::NothingSelected))
                },
                None => one(Effect::Notify(Notice::NothingSelected)),
            };
            (s, e)
        },
        _ => (s, none()),
    }
}

/// The actions [`run_selections_masks_and_size`] applies.
spec fn in_selections_masks_and_size<P>(a: Action<P>) -> bool {
    match a {
        Action::CancelPath | Action::ShowImageSize | Action::ShowCanvasSize | Action::ResizeCanvas { .. } | Action::EditTextLayer(..) | Action::CommitText | Action::CancelText | Action::ShowLayerStyle | Action::ClearLayerEffects(..) | Action::FinishPath { .. } | Action::AddLayerMask { .. } | Action::AddLayerMaskFromSelection { .. } | Action::DeleteLayerMask | Action::ApplyLayerMask | Action::ToggleMaskEnabled | Action::SetEditTarget(..) | Action::RenameLayer(..) | Action::RasterizeLayer | Action::GrowSelection | Action::SimilarSelection | Action::RepeatLastFilter | Action::SaveSelectionAsChannel | Action::LoadChannelAsSelection(..) | Action::DeleteChannel(..) | Action::ToggleChannelVisible(..) | Action::CancelDrag | Action::CloseDrag | Action::CloseDialog | Action::Quit => true,
        _ => false,
    }
}

fn is_selections_masks_and_size<P>(a: &Action<P>) -> (b: bool)
    ensures
        b == in_selections_masks_and_size(*a),
{
    match a {
        Action::CancelPath | Action::ShowImageSize | Action::ShowCanvasSize | Action::ResizeCanvas { .. } | Action::EditTextLayer(..) | Action::CommitText | Action::CancelText | Action::ShowLayerStyle | Action::ClearLayerEffects(..) | Action::FinishPath { .. } | Action::AddLayerMask { .. } | Action::AddLayerMaskFromSelection { .. } | Action::DeleteLayerMask | Action::ApplyLayerMask | Action::ToggleMaskEnabled | Action::SetEditTarget(..) | Action::RenameLayer(..) | Action::RasterizeLayer | Action::GrowSelection | Action::SimilarSelection | Action::RepeatLastFilter | Action::SaveSelectionAsChannel | Action::LoadChannelAsSelection(..) | Action::DeleteChannel(..) | Action::ToggleChannelVisible(..) | Action::CancelDrag | Action::CloseDrag | Action::CloseDialog | Action::Quit => true,
        _ => false,
    }
}

/// Paths, sizes, type, layer styles, masks, channels and the rest.
#[verifier::rlimit(100)]
fn run_selections_masks_and_size<P>(s: ShellState, d: Option<DocFacts>, a: Action<P>) -> (r: (ShellState, Vec<Effect<P>>))
    requires
        s.well_formed(),
        d is Some <==> s.active is Some,
        d matches Some(doc) ==> doc.well_formed(),
        s.pending_new is Some ==> s.untitled_count < u32::MAX,
        in_selections_masks_and_size(a),
    ensures
        r.0 == next_state(s, a),
        r.0.well_formed(),
        a is NewDocument && s.pending_new is Some ==> {
            let p = s.pending_new.unwrap();
            &&& r.1@.len() == 1
            &&& r.1@[0] matches Effect::CreateDocument { name, width, height, background }
                && name@ == spec_untitled_name(p.name@, s.untitled_count) && width == p.width
                && height == p.height && background == p.background
        },
        !(a is NewDocument && s.pending_new is Some) ==> r.1@ == effects(s, d, a),
{
    let ghost s0 = s;
    let ghost a0 = a;
    match a {
        Action::CancelPath => (s, one(Effect::CancelPath)),
        Action::ShowImageSize => (s, doc_effect(d, Effect::ShowDialog(DialogKind::ImageSize))),
        Action::ShowCanvasSize => (s, doc_effect(d, Effect::ShowDialog(DialogKind::CanvasSize))),
        Action::ResizeCanvas { width, height, anchor } => {
            let e = match d {
                Some(doc) => {
                    let (dx, dy) = anchor.shift((doc.width, doc.height), (width, height));
                    one(Effect::ResizeCanvas { width, height, dx, dy })
                },
                None => none(),
            };
            (s, e)
        },
        Action::EditTextLayer(id) => {
            let mut e = one(Effect::CommitText);
            if d.is_some() {
                e.push(Effect::EditText(id));
            }
            assert(e@ =~= effects(s0, d, a0));
            (s, e)
        },
        Action::CommitText => (s, one(Effect::CommitText)),
        Action::CancelText => (s, one(Effect::CancelText)),
        Action::ShowLayerStyle => {
            let e = match d {
                Some(doc) => match doc.active {
                    Some(l) => if l.has_pixels {
                        one(Effect::ShowDialog(DialogKind::LayerStyle(l.id)))
                    } else {
                        one(Effect::Notify(Notice::NeedsPixels))
                    },
                    None => none(),
                },
                None => none(),
            };
            (s, e)
        },
        Action::ClearLayerEffects(id) => (s, doc_effect(d, Effect::ClearEffects(id))),
        Action::FinishPath { closed } => (s, one(Effect::FinishPath { closed })),
        Action::AddLayerMask { hide_all } => {
            let e = match d {
                Some(doc) => match doc.active {
                    Some(l) => if l.has_mask {
                        one(Effect::Notify(Notice::AlreadyMasked))
                    } else {
                        one(Effect::AddMask { from_selection: false, invert: false, hide_all })
                    },
                    None => none(),
                },
                None => none(),
            };
            (s, e)
        },
        Action::AddLayerMaskFromSelection { invert } => {
            let e = match d {
                Some(doc) => match doc.active {
                    Some(l) => if l.has_mask {
                        one(Effect::Notify(Notice::AlreadyMasked))
                    } else if !doc.has_selection {
                        one(Effect::Notify(Notice::NothingSelected))
                    } else {
                        one(Effect::AddMask { from_selection: true, invert, hide_all: false })
                    },
                    None => none(),
                },
                None => none(),
            };
            (s, e)
        },
        Action::DeleteLayerMask => (s, remove_mask(d, false)),
        Action::ApplyLayerMask => (s, remove_mask(d, true)),
        Action::ToggleMaskEnabled => {
            let e = match d {
                Some(doc) => match doc.active {
                    Some(l) => if l.has_mask { one(Effect::SetMaskEnabled(l.id, !l.mask_enabled)) } else { none() },
                    None => none(),
                },
                None => none(),
            };
            (s, e)
        },
        Action::SetEditTarget(t) => (s, doc_effect(d, Effect::SetEditTarget(t))),
        Action::RenameLayer(id) => (s, doc_effect(d, Effect::ShowRename(id))),
        Action::RasterizeLayer => {
            let mut e = one(Effect::CommitText);
            match d {
                Some(doc) => match doc.active {
                    Some(l) => if l.is_vector {
                        e.push(Effect::Rasterize(l.id));
                    } else {
                        e.push(Effect::Notify(Notice::NotVector));
                    },
                    None => {},
                },
                None => {},
            }
            assert(e@ =~= effects(s0, d, a0));
            (s, e)
        },
        Action::GrowSelection => (s, doc_effect(d, Effect::Grow { similar: false })),
        Action::SimilarSelection => (s, doc_effect(d, Effect::Grow { similar: true })),
        Action::RepeatLastFilter => {
            let e = if s.last_filter { doc_effect(d, Effect::ApplyLastFilter) } else { one(Effect::Notify(Notice::NoFilterYet)) };
            (s, e)
        },
        Action::SaveSelectionAsChannel => {
            let e = match d {
                Some(doc) => if doc.has_selection { one(Effect::SaveChannel) } else { one(Effect::Notify(Notice::NothingSelected)) },
                None => none(),
            };
            (s, e)
        },
        Action::LoadChannelAsSelection(i) => {
            let e = match d {
                Some(doc) => if i < doc.channels { one(Effect::LoadChannel(i)) } else { none() },
                None => none(),
            };
            (s, e)
        },
        Action::DeleteChannel(i) => {
            let e = match d {
                Some(doc) => if i < doc.channels { one(Effect::DeleteChannel(i)) } else { none() },
                None => none(),
            };
            (s, e)
        },
        Action::ToggleChannelVisible(i) => {
            let e = match d {
                Some(doc) => if i < doc.channels { one(Effect::ToggleChannel(i)) } else { none() },
                None => none(),
            };
            (s, e)
        },
        Action::CancelDrag => (s, one(Effect::CancelDrag)),
        Action::CloseDrag => (s, one(Effect::CloseDrag)),
        Action::CloseDialog => (s, one(Effect::CloseDialog)),
        Action::Quit => (ShellState { quit: true, ..s }, none()),
        _ => (s, none()),
    }
}

/// Apply `a`: the shell's next state, and the work the window carries out on
/// the focused document (described by `d`), in order.
///
/// Every branch is stated by `next_state` and `effects`, except the name a
/// confirmed New dialog gives its document, which is stated here.
pub fn run<P>(s: ShellState, d: Option<DocFacts>, a: Action<P>) -> (r: (ShellState, Vec<Effect<P>>))
    requires
        s.well_formed(),
        d is Some <==> s.active is Some,
        d matches Some(doc) ==> doc.well_formed(),
        s.pending_new is Some ==> s.untitled_count < u32::MAX,
    ensures
        r.0 == next_state(s, a),
        r.0.well_formed(),
        a is NewDocument && s.pending_new is Some ==> {
            let p = s.pending_new.unwrap();
            &&& r.1@.len() == 1
            &&& r.1@[0] matches Effect::CreateDocument { name, width, height, background }
                && name@ == spec_untitled_name(p.name@, s.untitled_count) && width == p.width
                && height == p.height && background == p.background
        },
        !(a is NewDocument && s.pending_new is Some) ==> r.1@ == effects(s, d, a),
{
    let a = match forward(a) {
        Ok(t) => {
            return (s, one(Effect::Forward(t)));
        },
        Err(b) => b,
    };
    if is_documents_and_colour(&a) {
        run_documents_and_colour(s, d, a)
    } else if is_layers_and_editing(&a) {
        run_layers_and_editing(s, d, a)
    } else if is_selections_masks_and_size(&a) {
        run_selections_masks_and_size(s, d, a)
    } else {
        (s, none())
    }
}

/// Delete Layer and Merge Down do something exactly when the Layers panel's
/// buttons for them are live.
pub proof fn layer_commands_run_when_their_buttons_are_live<P>(s: ShellState, doc: DocFacts, l: ActiveFacts)
    requires
        doc.active == Some(l),
    ensures
        effects::<P>(s, Some(doc), Action::DeleteLayer).len() > 0
            <==> spec_layer_buttons(true, doc.layer_count, Some(l.pos.index), doc.has_selection).delete,
        effects::<P>(s, Some(doc), Action::MergeDown).len() > 0
            <==> spec_layer_buttons(true, doc.layer_count, Some(l.pos.index), doc.has_selection).merge_down,
{
}

/// Swapping the colours twice, or switching the panels twice, leaves the
/// shell as it was.
pub proof fn toggles_undo_themselves<P>(s: ShellState)
    ensures
        next_state(next_state(s, Action::<P>::SwapColors), Action::<P>::SwapColors) == s,
        next_state(next_state(s, Action::<P>::TogglePanels), Action::<P>::TogglePanels) == s,
        next_state(next_state(s, Action::<P>::ToggleQuickMask), Action::<P>::ToggleQuickMask) == s,
{
}

/// Swapping the colours exchanges the two swatches, changes nothing else in
/// the shell, and hands the window no work.
pub proof fn swapping_exchanges_only_the_swatches<P>(s: ShellState, d: Option<DocFacts>)
    ensures
        next_state(s, Action::<P>::SwapColors) == (ShellState {
            foreground: s.background,
            background: s.foreground,
            ..s
        }),
        effects(s, d, Action::<P>::SwapColors) == Seq::<Effect<P>>::empty(),
{
}

/// A document never loses its last layer: with one layer (or none), Delete
/// Layer does nothing; with more, it deletes exactly the active layer, as
/// one step.
pub proof fn the_last_layer_is_never_deleted<P>(s: ShellState, doc: DocFacts)
    ensures
        next_state(s, Action::<P>::DeleteLayer) == s,
        doc.layer_count <= 1 ==> effects(s, Some(doc), Action::<P>::DeleteLayer) == Seq::<Effect<P>>::empty(),
        doc.layer_count > 1 ==> match doc.active {
            Some(l) => effects(s, Some(doc), Action::<P>::DeleteLayer) == seq![Effect::<P>::DeleteLayer(l.id)],
            None => effects(s, Some(doc), Action::<P>::DeleteLayer) == Seq::<Effect<P>>::empty(),
        },
{
}

/// Picking any tool but Type first commits the text being typed, and the
/// tool picked becomes the active one.
pub proof fn leaving_the_type_tool_commits_text<P>(s: ShellState, d: Option<DocFacts>, tool: Tool, implemented: bool)
    ensures
        next_state(s, Action::<P>::SelectTool { tool, implemented }).tool == tool,
        tool != Tool::Text ==> effects(s, d, Action::<P>::SelectTool { tool, implemented })[0] == Effect::<P>::CommitText,
{
}

/// Resizing the canvas to the size it already has moves no layer.
pub proof fn resizing_to_the_same_size_moves_nothing<P>(s: ShellState, doc: DocFacts, anchor: Anchor)
    ensures
        effects(s, Some(doc), Action::<P>::ResizeCanvas { width: doc.width, height: doc.height, anchor })
            == seq![Effect::<P>::ResizeCanvas { width: doc.width, height: doc.height, dx: 0, dy: 0 }],
{
    shift_to_same_size_is_zero(anchor, (doc.width, doc.height));
}

/// An operation the shell decides nothing about changes nothing in the
/// shell and reaches the window exactly as it came.
pub proof fn handed_over_operations_reach_the_window_unchanged<P>(s: ShellState, d: Option<DocFacts>, a: Action<P>)
    requires
        forwarded(a) is Some,
    ensures
        next_state(s, a) == s,
        effects(s, d, a) == seq![Effect::Forward(forwarded(a).unwrap())],
{
}

/// Copy leaves the layer alone: with a document open, Copy asks the window
/// to copy from the active layer, Copy Merged to copy from everything
/// visible, and only Cut clears what was copied. With none open, none of
/// them asks for anything, and none changes the shell.
pub proof fn only_cut_removes_what_it_copies<P>(s: ShellState, doc: DocFacts)
    ensures
        effects(s, Some(doc), Action::<P>::Copy) == seq![Effect::<P>::Copy { merged: false, cut: false }],
        effects(s, Some(doc), Action::<P>::CopyMerged) == seq![Effect::<P>::Copy { merged: true, cut: false }],
        effects(s, Some(doc), Action::<P>::Cut) == seq![Effect::<P>::Copy { merged: false, cut: true }],
        effects(s, None, Action::<P>::Copy).len() == 0,
        effects(s, None, Action::<P>::CopyMerged).len() == 0,
        effects(s, None, Action::<P>::Cut).len() == 0,
        next_state(s, Action::<P>::Copy) == s,
        next_state(s, Action::<P>::Cut) == s,
{
}

/// No action but Cut ever asks the window to clear the pixels it copies.
pub proof fn nothing_but_cut_asks_to_cut<P>(s: ShellState, d: Option<DocFacts>, a: Action<P>, i: int)
    requires
        0 <= i < effects(s, d, a).len(),
        effects(s, d, a)[i] matches Effect::Copy { cut, .. } && cut,
    ensures
        a is Cut,
{
}

/// With a document open, each of these commands hands the window exactly
/// its own piece of work, and none of them changes the shell's state; with
/// none open, they ask for nothing.
pub proof fn document_commands_ask_for_their_own_work<P>(s: ShellState, doc: DocFacts)
    ensures
        effects(s, Some(doc), Action::<P>::Undo) == seq![Effect::<P>::Undo],
        effects(s, Some(doc), Action::<P>::Redo) == seq![Effect::<P>::Redo],
        effects(s, Some(doc), Action::<P>::ZoomIn) == seq![Effect::<P>::Zoom(Zoom::StepIn)],
        effects(s, Some(doc), Action::<P>::ZoomOut) == seq![Effect::<P>::Zoom(Zoom::StepOut)],
        effects(s, Some(doc), Action::<P>::ZoomFit) == seq![Effect::<P>::Zoom(Zoom::Fit)],
        effects(s, Some(doc), Action::<P>::ZoomActual) == seq![Effect::<P>::Zoom(Zoom::Actual)],
        effects(s, Some(doc), Action::<P>::LayerViaCopy) == seq![Effect::<P>::LayerViaCopy],
        effects(s, Some(doc), Action::<P>::FlattenImage) == seq![Effect::<P>::Flatten],
        effects(s, Some(doc), Action::<P>::SelectAll) == seq![Effect::<P>::SelectAll],
        effects(s, Some(doc), Action::<P>::InverseSelection) == seq![Effect::<P>::InvertSelection],
        effects(s, Some(doc), Action::<P>::BeginTransform) == seq![Effect::<P>::BeginTransform],
        effects(s, Some(doc), Action::<P>::CommitTransform) == seq![Effect::<P>::CommitTransform],
        effects(s, Some(doc), Action::<P>::CommitCrop) == seq![Effect::<P>::CommitCrop],
        effects(s, Some(doc), Action::<P>::GrowSelection) == seq![Effect::<P>::Grow { similar: false }],
        effects(s, Some(doc), Action::<P>::SimilarSelection) == seq![Effect::<P>::Grow { similar: true }],
        effects(s, Some(doc), Action::<P>::ShowImageSize) == seq![Effect::<P>::ShowDialog(DialogKind::ImageSize)],
        effects(s, Some(doc), Action::<P>::ShowCanvasSize) == seq![Effect::<P>::ShowDialog(DialogKind::CanvasSize)],
        effects(s, Some(doc), Action::<P>::ShowSaveAsDialog) == seq![Effect::<P>::ShowDialog(DialogKind::SaveAs)],
        effects(s, Some(doc), Action::<P>::ClearLayer)
            == seq![Effect::<P>::Fill { color: Rgba8 { r: 0, g: 0, b: 0, a: 0 }, preserve_transparency: false }],
        effects(s, None, Action::<P>::Undo).len() == 0,
        effects(s, None, Action::<P>::ZoomIn).len() == 0,
        effects(s, None, Action::<P>::SelectAll).len() == 0,
        effects(s, None, Action::<P>::FlattenImage).len() == 0,
        effects(s, None, Action::<P>::ClearLayer).len() == 0,
        effects(s, None, Action::<P>::BeginTransform).len() == 0,
        next_state(s, Action::<P>::Undo) == s,
        next_state(s, Action::<P>::SelectAll) == s,
        next_state(s, Action::<P>::FlattenImage) == s,
{
}

/// Paste never needs a document (it can make one from the clipboard), and
/// only Paste in Place keeps the copied position; cancelling a transform, a
/// crop, a path, a drag or a dialog asks for exactly that.
pub proof fn paste_and_cancel_need_no_document<P>(s: ShellState, d: Option<DocFacts>)
    ensures
        effects(s, d, Action::<P>::Paste) == seq![Effect::<P>::Paste { in_place: false }],
        effects(s, d, Action::<P>::PasteInPlace) == seq![Effect::<P>::Paste { in_place: true }],
        effects(s, d, Action::<P>::CancelTransform) == seq![Effect::<P>::CancelTransform],
        effects(s, d, Action::<P>::CancelCrop) == seq![Effect::<P>::CancelCrop],
        effects(s, d, Action::<P>::CancelPath) == seq![Effect::<P>::CancelPath],
        effects(s, d, Action::<P>::CancelDrag) == seq![Effect::<P>::CancelDrag],
        effects(s, d, Action::<P>::CloseDrag) == seq![Effect::<P>::CloseDrag],
        effects(s, d, Action::<P>::CloseDialog) == seq![Effect::<P>::CloseDialog],
        effects(s, d, Action::<P>::ShowOpenDialog) == seq![Effect::<P>::ShowDialog(DialogKind::Open)],
        effects(s, d, Action::<P>::ShowFillDialog) == seq![Effect::<P>::ShowDialog(DialogKind::Fill)],
{
}

/// Filling with a swatch uses the background swatch exactly when asked to,
/// keeps transparency exactly when asked to, and fills at all only with a
/// document open.
pub proof fn a_swatch_fill_uses_the_swatch_asked_for<P>(
    s: ShellState,
    doc: DocFacts,
    background: bool,
    preserve_transparency: bool,
)
    ensures
        effects(s, Some(doc), Action::<P>::FillSwatch { background, preserve_transparency }) == seq![
            Effect::<P>::Fill { color: if background { s.background } else { s.foreground }, preserve_transparency },
        ],
        effects(s, None, Action::<P>::FillSwatch { background, preserve_transparency }).len() == 0,
        next_state(s, Action::<P>::FillSwatch { background, preserve_transparency }) == s,
{
}

/// Resetting the colours makes the foreground opaque black and the
/// background opaque white; setting one swatch leaves the other.
pub proof fn colours_are_set_where_asked<P>(s: ShellState, d: Option<DocFacts>, c: Rgba8)
    ensures
        next_state(s, Action::<P>::ResetColors).foreground == (Rgba8 { r: 0, g: 0, b: 0, a: 255 }),
        next_state(s, Action::<P>::ResetColors).background == (Rgba8 { r: 255, g: 255, b: 255, a: 255 }),
        next_state(s, Action::<P>::SetColor(PickerTarget::Foreground, c)) == (ShellState { foreground: c, ..s }),
        next_state(s, Action::<P>::SetColor(PickerTarget::Background, c)) == (ShellState { background: c, ..s }),
        effects(s, d, Action::<P>::ResetColors).len() == 0,
        effects(s, d, Action::<P>::SetColor(PickerTarget::Foreground, c)).len() == 0,
        effects(s, d, Action::<P>::ShowColorPicker(PickerTarget::Background))
            == seq![Effect::<P>::ShowDialog(DialogKind::ColorPicker(PickerTarget::Background))],
{
}

/// The active layer's commands act on the active layer: a new layer or
/// group goes directly above it, in its group (at the top of the document
/// when none is active); Duplicate copies it unless it is a group; Merge Down
/// merges it only when a layer lies below it; the clipping switch flips; a
/// nudge moves it by exactly the amount asked, unless it is locked.
pub proof fn layer_commands_act_on_the_active_layer<P>(s: ShellState, doc: DocFacts, l: ActiveFacts, dx: i32, dy: i32)
    requires
        doc.active == Some(l),
        l.pos.index < usize::MAX,
    ensures
        effects(s, Some(doc), Action::<P>::NewLayer) == seq![
            Effect::<P>::AddLayer { group: false, at: LayerPos { parent: l.pos.parent, index: (l.pos.index + 1) as usize } },
        ],
        effects(s, Some(doc), Action::<P>::NewGroup) == seq![
            Effect::<P>::AddLayer { group: true, at: LayerPos { parent: l.pos.parent, index: (l.pos.index + 1) as usize } },
        ],
        !l.is_group ==> effects(s, Some(doc), Action::<P>::DuplicateLayer) == seq![Effect::<P>::DuplicateLayer(l.id)],
        l.is_group ==> effects(s, Some(doc), Action::<P>::DuplicateLayer)
            == seq![Effect::<P>::Notify(Notice::GroupNotDuplicated)],
        l.pos.index > 0 ==> effects(s, Some(doc), Action::<P>::MergeDown) == seq![Effect::<P>::MergeDown(l.id)],
        l.pos.index == 0 ==> effects(s, Some(doc), Action::<P>::MergeDown).len() == 0,
        effects(s, Some(doc), Action::<P>::ToggleClippingMask) == seq![Effect::<P>::SetClipping(l.id, !l.clipping)],
        l.movable ==> effects(s, Some(doc), Action::<P>::NudgeLayer(dx, dy)) == seq![Effect::<P>::OffsetLayer(l.id, dx, dy)],
        !l.movable ==> effects(s, Some(doc), Action::<P>::NudgeLayer(dx, dy)).len() == 0,
{
}

/// With no active layer, a new layer goes on top of the document, and the
/// commands that need an active layer do nothing.
pub proof fn without_an_active_layer<P>(s: ShellState, doc: DocFacts, dx: i32, dy: i32)
    requires
        doc.active is None,
    ensures
        effects(s, Some(doc), Action::<P>::NewLayer) == seq![
            Effect::<P>::AddLayer { group: false, at: LayerPos { parent: None, index: doc.root_len } },
        ],
        effects(s, Some(doc), Action::<P>::DeleteLayer).len() == 0,
        effects(s, Some(doc), Action::<P>::DuplicateLayer).len() == 0,
        effects(s, Some(doc), Action::<P>::MergeDown).len() == 0,
        effects(s, Some(doc), Action::<P>::ToggleClippingMask).len() == 0,
        effects(s, Some(doc), Action::<P>::NudgeLayer(dx, dy)).len() == 0,
        effects(s, Some(doc), Action::<P>::AddLayerMask { hide_all: false }).len() == 0,
{
}

/// Selections: Deselect acts only on a selection; Reselect restores the
/// previous one or says there is none; Crop to Selection crops only to a
/// selection and otherwise says nothing is selected.
pub proof fn selection_commands_need_their_selection<P>(s: ShellState, doc: DocFacts)
    ensures
        doc.has_selection ==> effects(s, Some(doc), Action::<P>::Deselect) == seq![Effect::<P>::Deselect],
        !doc.has_selection ==> effects(s, Some(doc), Action::<P>::Deselect).len() == 0,
        doc.can_reselect ==> effects(s, Some(doc), Action::<P>::Reselect) == seq![Effect::<P>::Reselect],
        !doc.can_reselect ==> effects(s, Some(doc), Action::<P>::Reselect)
            == seq![Effect::<P>::Notify(Notice::NoSelectionToRestore)],
        doc.has_selection ==> effects(s, Some(doc), Action::<P>::CropToSelection) == seq![Effect::<P>::CropToSelection],
        !doc.has_selection ==> effects(s, Some(doc), Action::<P>::CropToSelection)
            == seq![Effect::<P>::Notify(Notice::NothingSelected)],
        effects(s, None, Action::<P>::CropToSelection) == seq![Effect::<P>::Notify(Notice::NothingSelected)],
        doc.has_selection ==> effects(s, Some(doc), Action::<P>::SaveSelectionAsChannel) == seq![Effect::<P>::SaveChannel],
        !doc.has_selection ==> effects(s, Some(doc), Action::<P>::SaveSelectionAsChannel)
            == seq![Effect::<P>::Notify(Notice::NothingSelected)],
{
}

/// Quick Mask flips, says which way it went, and on the way in with nothing
/// selected first selects everything, without a history step.
pub proof fn quick_mask_says_which_way_it_went<P>(s: ShellState, doc: DocFacts)
    ensures
        next_state(s, Action::<P>::ToggleQuickMask).quick_mask == !s.quick_mask,
        !s.quick_mask && !doc.has_selection ==> effects(s, Some(doc), Action::<P>::ToggleQuickMask)
            == seq![Effect::<P>::SelectAllQuietly, Effect::<P>::Notify(Notice::QuickMask(true))],
        !s.quick_mask && doc.has_selection ==> effects(s, Some(doc), Action::<P>::ToggleQuickMask)
            == seq![Effect::<P>::Notify(Notice::QuickMask(true))],
        s.quick_mask ==> effects(s, Some(doc), Action::<P>::ToggleQuickMask)
            == seq![Effect::<P>::Notify(Notice::QuickMask(false))],
        effects(s, None, Action::<P>::ToggleQuickMask) == seq![Effect::<P>::Notify(Notice::QuickMask(!s.quick_mask))],
{
}

/// Save writes to the document's own file when it has one and asks where
/// otherwise; Save As always asks; a chosen path is saved to as given.
pub proof fn save_goes_where_the_document_came_from<P>(s: ShellState, doc: DocFacts, path: P, deep: bool)
    ensures
        doc.has_path ==> effects(s, Some(doc), Action::<P>::Save) == seq![Effect::<P>::SaveInPlace],
        !doc.has_path ==> effects(s, Some(doc), Action::<P>::Save) == seq![Effect::<P>::ShowDialog(DialogKind::SaveAs)],
        effects(s, None, Action::<P>::Save).len() == 0,
        effects(s, Some(doc), Action::<P>::SavePath { path, deep }) == seq![Effect::<P>::SaveTo { path, deep }],
        effects(s, Some(doc), Action::<P>::OpenPath(path)) == seq![Effect::<P>::Open(path)],
{
}

/// Closing a tab removes exactly the tab closed and redraws the one focused
/// after, which the shell then records; choosing a tab that exists focuses
/// and redraws it, and choosing one that does not changes nothing.
pub proof fn tabs_close_and_focus_as_the_tab_bar_says<P>(s: ShellState, d: Option<DocFacts>, i: usize)
    requires
        s.active matches Some(a) && a < s.docs,
    ensures
        i < s.docs ==> next_state(s, Action::<P>::SelectDocument(i)) == (ShellState { active: Some(i), ..s }),
        i < s.docs ==> effects(s, d, Action::<P>::SelectDocument(i)) == seq![Effect::<P>::Invalidate(i)],
        i >= s.docs ==> next_state(s, Action::<P>::SelectDocument(i)) == s,
        i >= s.docs ==> effects(s, d, Action::<P>::SelectDocument(i)).len() == 0,
        s.docs > 1 ==> next_state(s, Action::<P>::CloseDocument(usize::MAX)).docs == s.docs - 1,
        s.docs > 1 ==> effects(s, d, Action::<P>::CloseDocument(usize::MAX))[0]
            == Effect::<P>::RemoveDocument(s.active.unwrap()),
        s.docs > 1 ==> effects(s, d, Action::<P>::CloseDocument(usize::MAX)).len() == 2,
        s.docs == 1 ==> effects(s, d, Action::<P>::CloseDocument(usize::MAX)) == seq![Effect::<P>::RemoveDocument(0)],
        s.docs == 1 ==> next_state(s, Action::<P>::CloseDocument(usize::MAX)).active is None,
{
}

/// The masks: a layer gets a mask only if it has none, and a mask from the
/// selection only with a selection; deleting, applying and switching a mask
/// need one, and applying is the only one of them that keeps its effect on
/// the pixels.
pub proof fn a_layer_has_at_most_one_mask<P>(s: ShellState, doc: DocFacts, l: ActiveFacts, hide_all: bool, invert: bool)
    requires
        doc.active == Some(l),
    ensures
        l.has_mask ==> effects(s, Some(doc), Action::<P>::AddLayerMask { hide_all })
            == seq![Effect::<P>::Notify(Notice::AlreadyMasked)],
        !l.has_mask ==> effects(s, Some(doc), Action::<P>::AddLayerMask { hide_all })
            == seq![Effect::<P>::AddMask { from_selection: false, invert: false, hide_all }],
        l.has_mask ==> effects(s, Some(doc), Action::<P>::AddLayerMaskFromSelection { invert })
            == seq![Effect::<P>::Notify(Notice::AlreadyMasked)],
        !l.has_mask && !doc.has_selection ==> effects(s, Some(doc), Action::<P>::AddLayerMaskFromSelection { invert })
            == seq![Effect::<P>::Notify(Notice::NothingSelected)],
        !l.has_mask && doc.has_selection ==> effects(s, Some(doc), Action::<P>::AddLayerMaskFromSelection { invert })
            == seq![Effect::<P>::AddMask { from_selection: true, invert, hide_all: false }],
        l.has_mask ==> effects(s, Some(doc), Action::<P>::ApplyLayerMask) == seq![Effect::<P>::RemoveMask { apply: true }],
        l.has_mask ==> effects(s, Some(doc), Action::<P>::DeleteLayerMask) == seq![Effect::<P>::RemoveMask { apply: false }],
        !l.has_mask ==> effects(s, Some(doc), Action::<P>::ApplyLayerMask) == seq![Effect::<P>::Notify(Notice::NoMask)],
        !l.has_mask ==> effects(s, Some(doc), Action::<P>::DeleteLayerMask) == seq![Effect::<P>::Notify(Notice::NoMask)],
        l.has_mask ==> effects(s, Some(doc), Action::<P>::ToggleMaskEnabled)
            == seq![Effect::<P>::SetMaskEnabled(l.id, !l.mask_enabled)],
        !l.has_mask ==> effects(s, Some(doc), Action::<P>::ToggleMaskEnabled).len() == 0,
{
}

/// Rasterize commits the text being typed first, then rasterises the active
/// layer when it is type or a shape, and says otherwise; Filter Again runs
/// the last filter once one has been used, and says otherwise.
pub proof fn rasterize_and_repeat_say_why_not<P>(s: ShellState, doc: DocFacts, l: ActiveFacts)
    requires
        doc.active == Some(l),
    ensures
        l.is_vector ==> effects(s, Some(doc), Action::<P>::RasterizeLayer)
            == seq![Effect::<P>::CommitText, Effect::<P>::Rasterize(l.id)],
        !l.is_vector ==> effects(s, Some(doc), Action::<P>::RasterizeLayer)
            == seq![Effect::<P>::CommitText, Effect::<P>::Notify(Notice::NotVector)],
        s.last_filter ==> effects(s, Some(doc), Action::<P>::RepeatLastFilter) == seq![Effect::<P>::ApplyLastFilter],
        !s.last_filter ==> effects(s, Some(doc), Action::<P>::RepeatLastFilter)
            == seq![Effect::<P>::Notify(Notice::NoFilterYet)],
{
}

/// The brush-size keys move one rung along the ladder (and stop at its
/// ends), and the brush takes that rung's size.
pub proof fn brush_keys_step_one_rung<P>(s: ShellState, d: Option<DocFacts>)
    requires
        s.brush_rung < LADDER_LEN,
    ensures
        next_state(s, Action::<P>::StepBrushSize(1)).brush_rung
            == if s.brush_rung + 1 < LADDER_LEN { s.brush_rung + 1 } else { s.brush_rung as int },
        next_state(s, Action::<P>::StepBrushSize(-1i32)).brush_rung
            == if s.brush_rung > 0 { s.brush_rung - 1 } else { 0int },
        effects(s, d, Action::<P>::StepBrushSize(1))
            == seq![Effect::<P>::SetBrushSize(BRUSH_SIZES[next_state(s, Action::<P>::StepBrushSize(1)).brush_rung as int])],
{
}

/// Channels: a saved selection is loaded, deleted or shown only if it
/// exists.
pub proof fn channels_must_exist<P>(s: ShellState, doc: DocFacts, i: usize)
    ensures
        i < doc.channels ==> effects(s, Some(doc), Action::<P>::LoadChannelAsSelection(i)) == seq![Effect::<P>::LoadChannel(i)],
        i < doc.channels ==> effects(s, Some(doc), Action::<P>::DeleteChannel(i)) == seq![Effect::<P>::DeleteChannel(i)],
        i < doc.channels ==> effects(s, Some(doc), Action::<P>::ToggleChannelVisible(i)) == seq![Effect::<P>::ToggleChannel(i)],
        i >= doc.channels ==> effects(s, Some(doc), Action::<P>::LoadChannelAsSelection(i)).len() == 0,
        i >= doc.channels ==> effects(s, Some(doc), Action::<P>::DeleteChannel(i)).len() == 0,
        i >= doc.channels ==> effects(s, Some(doc), Action::<P>::ToggleChannelVisible(i)).len() == 0,
{
}

/// Picking a tool says so when the tool is not implemented, and only then;
/// picking Type never commits the text.
pub proof fn picking_a_tool_says_when_it_is_not_ready<P>(s: ShellState, d: Option<DocFacts>, tool: Tool, implemented: bool)
    ensures
        tool == Tool::Text && implemented ==> effects(s, d, Action::<P>::SelectTool { tool, implemented }).len() == 0,
        tool != Tool::Text && implemented ==> effects(s, d, Action::<P>::SelectTool { tool, implemented })
            == seq![Effect::<P>::CommitText],
        tool != Tool::Text && !implemented ==> effects(s, d, Action::<P>::SelectTool { tool, implemented })
            == seq![Effect::<P>::CommitText, Effect::<P>::Notify(Notice::ToolNotImplemented(tool))],
        tool == Tool::Text && !implemented ==> effects(s, d, Action::<P>::SelectTool { tool, implemented })
            == seq![Effect::<P>::Notify(Notice::ToolNotImplemented(tool))],
        next_state(s, Action::<P>::SelectTool { tool, implemented }) == (ShellState { tool, ..s }),
{
}

/// Type, paths, styles and canvas size: editing another type layer commits
/// the current text first; committing, cancelling and finishing a path ask
/// for just that; Layer Style opens for a layer with pixels and says why
/// not otherwise; a canvas resize carries the size asked for and the
/// anchor's offset for the document's current size.
pub proof fn type_paths_styles_and_canvas_size<P>(s: ShellState, doc: DocFacts, l: ActiveFacts, id: LayerId, w: u32, h: u32, anchor: Anchor, closed: bool)
    requires
        doc.active == Some(l),
    ensures
        effects(s, Some(doc), Action::<P>::EditTextLayer(id)) == seq![Effect::<P>::CommitText, Effect::<P>::EditText(id)],
        effects(s, None, Action::<P>::EditTextLayer(id)) == seq![Effect::<P>::CommitText],
        effects(s, None, Action::<P>::CommitText) == seq![Effect::<P>::CommitText],
        effects(s, None, Action::<P>::CancelText) == seq![Effect::<P>::CancelText],
        effects(s, None, Action::<P>::FinishPath { closed }) == seq![Effect::<P>::FinishPath { closed }],
        effects(s, Some(doc), Action::<P>::ClearLayerEffects(id)) == seq![Effect::<P>::ClearEffects(id)],
        effects(s, None, Action::<P>::ClearLayerEffects(id)).len() == 0,
        l.has_pixels ==> effects(s, Some(doc), Action::<P>::ShowLayerStyle)
            == seq![Effect::<P>::ShowDialog(DialogKind::LayerStyle(l.id))],
        !l.has_pixels ==> effects(s, Some(doc), Action::<P>::ShowLayerStyle) == seq![Effect::<P>::Notify(Notice::NeedsPixels)],
        ({
            let shift = anchor.spec_shift((doc.width, doc.height), (w, h));
            effects(s, Some(doc), Action::<P>::ResizeCanvas { width: w, height: h, anchor })
                == seq![Effect::<P>::ResizeCanvas { width: w, height: h, dx: shift.0 as i32, dy: shift.1 as i32 }]
        }),
        effects(s, None, Action::<P>::ResizeCanvas { width: w, height: h, anchor }).len() == 0,
{
}

/// New Document opens the New dialog until it has been confirmed; once
/// confirmed, the request is used up and the untitled counter moves on.
pub proof fn new_document_asks_first<P>(s: ShellState)
    ensures
        s.pending_new is None ==> effects(s, None, Action::<P>::NewDocument)
            == seq![Effect::<P>::ShowDialog(DialogKind::NewDocument)],
        s.pending_new is None ==> next_state(s, Action::<P>::NewDocument) == s,
        s.pending_new is Some ==> next_state(s, Action::<P>::NewDocument).pending_new is None,
        s.pending_new is Some && s.untitled_count < u32::MAX ==> next_state(s, Action::<P>::NewDocument).untitled_count
            == s.untitled_count + 1,
{
}

} // verus!

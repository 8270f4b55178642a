//! The menu bar: which entries are live, what the switching entries say,
//! and the [`Action`] each entry queues. Menus change nothing themselves;
//! choosing an entry only queues its action for [`crate::shell::run`].

use vstd::prelude::*;
use crate::commands::{ModifyKind, TransformPreset};
use crate::layers::LayerId;
use crate::shell::{effects, forwarded, Action, AlignMotion, DocFacts};

verus! {

/// What the menu bar needs to know.
#[derive(Debug, Clone, Copy, PartialEq, Eq, Structural)]
pub struct MenuFacts {
    /// A document is open.
    pub has_doc: bool,
    /// The editor's own clipboard holds something.
    pub can_paste: bool,
    /// The focused document has a step to undo, and one to redo.
    pub can_undo: bool,
    pub can_redo: bool,
    /// The focused document has a selection, and a previous one to restore.
    pub has_selection: bool,
    pub can_reselect: bool,
    /// How many anchors the path being drawn has (0 when none is).
    pub path_anchors: usize,
    /// A filter has been applied this session and can be run again.
    pub has_last_filter: bool,
    /// How many files are in the Open Recent list.
    pub recent: usize,
    pub quick_mask: bool,
    pub show_panels: bool,
    /// The active layer has a mask.
    pub has_mask: bool,
    /// The active layer holds pixels, and is already a smart object.
    pub has_pixels: bool,
    pub is_smart: bool,
    /// The active layer has layer effects.
    pub has_style: bool,
    /// The active layer is drawn from a description (type, shape, smart
    /// object) and can be rasterised.
    pub rendered: bool,
    /// The document holds two layers or more.
    pub several_layers: bool,
    /// The document is animated.
    pub animated: bool,
}

impl MenuFacts {
    /// The facts about a document's contents come from the document: with
    /// none open there is nothing to undo or redo, nothing selected and no
    /// previous selection.
    pub open spec fn well_formed(self) -> bool {
        !self.has_doc ==> {
            &&& !self.can_undo && !self.can_redo && !self.has_selection && !self.can_reselect
            &&& !self.has_mask && !self.has_pixels && !self.is_smart && !self.has_style && !self.rendered
            &&& !self.several_layers && !self.animated
        }
    }
}

/// Which entries of the menu bar are live.
#[derive(Debug, Clone, Copy, PartialEq, Eq, Structural)]
pub struct MenuBarState {
    pub open_recent: bool,
    pub save: bool,
    pub save_as: bool,
    pub close: bool,
    pub undo: bool,
    pub redo: bool,
    pub cut: bool,
    pub copy: bool,
    pub copy_merged: bool,
    pub paste: bool,
    pub paste_in_place: bool,
    pub fill: bool,
    pub fill_foreground: bool,
    pub fill_background: bool,
    pub clear: bool,
    /// Image Size, Canvas Size and the other Image commands.
    pub image: bool,
    pub crop_to_selection: bool,
    /// New Layer, New Group, Layer via Copy, Duplicate, Delete, Merge Down,
    /// Flatten and the Transform submenu.
    pub layer: bool,
    pub select_all: bool,
    pub deselect: bool,
    pub reselect: bool,
    /// Feather, the Modify submenu, Grow, Similar, Save Selection as
    /// Channel, Path from Selection and Refine Edge: all need a selection.
    pub selection_commands: bool,
    pub selection_from_path: bool,
    pub inverse: bool,
    pub quick_mask: bool,
    pub repeat_filter: bool,
    /// The filters, Lens Correction and Remove Noise.
    pub filters: bool,
    /// Zoom In, Zoom Out, Fit on Screen, Actual Pixels, Clear Guides.
    pub view: bool,
    /// Reveal All, Hide All and the masks from depth.
    pub add_mask: bool,
    /// Reveal Selection and Hide Selection.
    pub mask_from_selection: bool,
    /// The masks from the path being drawn.
    pub mask_from_path: bool,
    /// Mask to Selection, Disable / Enable, Apply and Delete.
    pub mask_commands: bool,
    pub layer_style: bool,
    pub clear_layer_style: bool,
    pub smart_object: bool,
    pub rasterize: bool,
    /// Make Frames from Layers, the Align Layers submenu and Align and Stack.
    pub several_layers: bool,
}

pub open spec fn spec_menu_bar_state(f: MenuFacts) -> MenuBarState {
    MenuBarState {
        open_recent: f.recent > 0,
        save: f.has_doc,
        save_as: f.has_doc,
        close: f.has_doc,
        undo: f.can_undo,
        redo: f.can_redo,
        cut: f.has_doc,
        copy: f.has_doc,
        copy_merged: f.has_doc,
        paste: f.can_paste,
        paste_in_place: f.can_paste,
        fill: f.has_doc,
        fill_foreground: f.has_doc,
        fill_background: f.has_doc,
        clear: f.has_doc,
        image: f.has_doc,
        crop_to_selection: f.has_selection,
        layer: f.has_doc,
        select_all: f.has_doc,
        deselect: f.has_selection,
        reselect: f.can_reselect,
        selection_commands: f.has_selection,
        selection_from_path: f.path_anchors >= 3,
        inverse: f.has_doc,
        quick_mask: f.has_doc,
        repeat_filter: f.has_doc && f.has_last_filter,
        filters: f.has_doc,
        view: f.has_doc,
        add_mask: f.has_doc && !f.has_mask,
        mask_from_selection: f.has_selection && !f.has_mask,
        mask_from_path: f.path_anchors >= 3 && !f.has_mask,
        mask_commands: f.has_mask,
        layer_style: f.has_pixels,
        clear_layer_style: f.has_style,
        smart_object: f.has_pixels && !f.is_smart,
        rasterize: f.rendered,
        several_layers: f.several_layers,
    }
}

/// The menu bar's entries, as `f` leaves them.
pub fn menu_bar_state(f: MenuFacts) -> (m: MenuBarState)
    requires
        f.well_formed(),
    ensures
        m == spec_menu_bar_state(f),
{
    MenuBarState {
        open_recent: f.recent > 0,
        save: f.has_doc,
        save_as: f.has_doc,
        close: f.has_doc,
        undo: f.can_undo,
        redo: f.can_redo,
        cut: f.has_doc,
        copy: f.has_doc,
        copy_merged: f.has_doc,
        paste: f.can_paste,
        paste_in_place: f.can_paste,
        fill: f.has_doc,
        fill_foreground: f.has_doc,
        fill_background: f.has_doc,
        clear: f.has_doc,
        image: f.has_doc,
        crop_to_selection: f.has_selection,
        layer: f.has_doc,
        select_all: f.has_doc,
        deselect: f.has_selection,
        reselect: f.can_reselect,
        selection_commands: f.has_selection,
        selection_from_path: f.path_anchors >= 3,
        inverse: f.has_doc,
        quick_mask: f.has_doc,
        repeat_filter: f.has_doc && f.has_last_filter,
        filters: f.has_doc,
        view: f.has_doc,
        add_mask: f.has_doc && !f.has_mask,
        mask_from_selection: f.has_selection && !f.has_mask,
        mask_from_path: f.path_anchors >= 3 && !f.has_mask,
        mask_commands: f.has_mask,
        layer_style: f.has_pixels,
        clear_layer_style: f.has_style,
        smart_object: f.has_pixels && !f.is_smart,
        rasterize: f.rendered,
        several_layers: f.several_layers,
    }
}

/// The Select menu's Quick Mask entry names what choosing it does.
pub fn quick_mask_label(on: bool) -> (s: &'static str)
    ensures
        s@ == if on { "Exit Quick Mask"@ } else { "Edit in Quick Mask"@ },
{
    if on { "Exit Quick Mask" } else { "Edit in Quick Mask" }
}

/// The Window menu's entry names what choosing it does.
pub fn panels_label(shown: bool) -> (s: &'static str)
    ensures
        s@ == if shown { "Hide Panels"@ } else { "Show Panels"@ },
{
    if shown { "Hide Panels" } else { "Show Panels" }
}

/// The View menu's switches name what choosing them does.
pub fn rulers_label(shown: bool) -> (s: &'static str)
    ensures
        s@ == if shown { "Hide Rulers"@ } else { "Rulers"@ },
{
    if shown { "Hide Rulers" } else { "Rulers" }
}

pub fn guides_label(shown: bool) -> (s: &'static str)
    ensures
        s@ == if shown { "Hide Guides"@ } else { "Show Guides"@ },
{
    if shown { "Hide Guides" } else { "Show Guides" }
}

pub fn grid_label(shown: bool) -> (s: &'static str)
    ensures
        s@ == if shown { "Hide Grid"@ } else { "Show Grid"@ },
{
    if shown { "Hide Grid" } else { "Show Grid" }
}

pub fn snap_label(on: bool) -> (s: &'static str)
    ensures
        s@ == if on { "Turn Snapping Off"@ } else { "Snap to Guides"@ },
{
    if on { "Turn Snapping Off" } else { "Snap to Guides" }
}

/// The Layer menu's timeline entry names what choosing it does.
pub fn timeline_label(animated: bool) -> (s: &'static str)
    ensures
        s@ == if animated { "Stop Animating"@ } else { "Make Frames from Layers"@ },
{
    if animated { "Stop Animating" } else { "Make Frames from Layers" }
}

/// The menu-bar entries whose command the library applies.
#[derive(Debug, Clone, Copy, PartialEq, Eq, Structural)]
pub enum MenuEntry {
    New,
    Open,
    Save,
    SaveAs,
    Close,
    Undo,
    Redo,
    Cut,
    Copy,
    CopyMerged,
    Paste,
    PasteInPlace,
    Fill,
    FillForeground,
    FillBackground,
    Clear,
    ImageSize,
    CanvasSize,
    CropToSelection,
    NewLayer,
    NewGroup,
    LayerViaCopy,
    DuplicateLayer,
    DeleteLayer,
    FreeTransform,
    Transform(TransformPreset),
    MergeDown,
    FlattenImage,
    SelectAll,
    Deselect,
    Reselect,
    Feather,
    Inverse,
    QuickMask,
    ZoomIn,
    ZoomOut,
    ZoomFit,
    ZoomActual,
    Rulers,
    Guides,
    Grid,
    Snap,
    TogglePanels,
    ClearRecent,
    Quit,
    FillInSelection,
    Relight,
    ReplaceSky,
    RetouchSkin,
    DepthEffects,
    SeparateByContent,
    Upscale,
    ColourProfile,
    /// Image > Mode: eight or sixteen bits a channel.
    Mode(u8),
    Warp,
    PuppetWarp,
    RevealAll,
    HideAll,
    RevealSelection,
    HideSelection,
    /// Layer Mask > From Depth: near (`false`) or far.
    MaskFromDepth(bool),
    /// Layer Mask > From Path, hiding the inside when `true`.
    MaskFromPath(bool),
    LayerToMask,
    MaskToSelection,
    ToggleMask,
    ApplyMask,
    DeleteMask,
    LayerStyle,
    /// Clear Layer Style, for the active layer.
    ClearLayerStyle(LayerId),
    ConvertToSmartObject,
    Rasterize,
    Timeline,
    AlignLayers(AlignMotion),
    AlignAndStack,
    SegmentObject,
    ColourRange,
    RefineEdge,
    SelectionFromPath,
    PathFromSelection,
    Grow,
    Similar,
    SaveSelectionAsChannel,
    RepeatFilter,
    LensCorrection,
    RemoveNoise,
    ClearGuides,
}

/// Whether `e` is live in `m`.
pub open spec fn entry_live(m: MenuBarState, e: MenuEntry) -> bool {
    match e {
        MenuEntry::New | MenuEntry::Open | MenuEntry::TogglePanels | MenuEntry::Rulers | MenuEntry::Guides
        | MenuEntry::Grid | MenuEntry::Snap => true,
        MenuEntry::Save => m.save,
        MenuEntry::SaveAs => m.save_as,
        MenuEntry::Close => m.close,
        MenuEntry::Undo => m.undo,
        MenuEntry::Redo => m.redo,
        MenuEntry::Cut => m.cut,
        MenuEntry::Copy => m.copy,
        MenuEntry::CopyMerged => m.copy_merged,
        MenuEntry::Paste => m.paste,
        MenuEntry::PasteInPlace => m.paste_in_place,
        MenuEntry::Fill => m.fill,
        MenuEntry::FillForeground => m.fill_foreground,
        MenuEntry::FillBackground => m.fill_background,
        MenuEntry::Clear => m.clear,
        MenuEntry::ImageSize | MenuEntry::CanvasSize => m.image,
        MenuEntry::CropToSelection => m.crop_to_selection,
        MenuEntry::NewLayer | MenuEntry::NewGroup | MenuEntry::LayerViaCopy | MenuEntry::DuplicateLayer
        | MenuEntry::DeleteLayer | MenuEntry::FreeTransform | MenuEntry::Transform(_) | MenuEntry::MergeDown
        | MenuEntry::FlattenImage => m.layer,
        MenuEntry::SelectAll => m.select_all,
        MenuEntry::Deselect => m.deselect,
        MenuEntry::Reselect => m.reselect,
        MenuEntry::Feather => m.selection_commands,
        MenuEntry::Inverse => m.inverse,
        MenuEntry::QuickMask => m.quick_mask,
        MenuEntry::ZoomIn | MenuEntry::ZoomOut | MenuEntry::ZoomFit | MenuEntry::ZoomActual => m.view,
        MenuEntry::ClearRecent => m.open_recent,
        MenuEntry::Quit => true,
        MenuEntry::FillInSelection => m.image,
        MenuEntry::Relight => m.image,
        MenuEntry::ReplaceSky => m.image,
        MenuEntry::RetouchSkin => m.image,
        MenuEntry::DepthEffects => m.image,
        MenuEntry::SeparateByContent => m.image,
        MenuEntry::Upscale => m.image,
        MenuEntry::ColourProfile => m.image,
        MenuEntry::Mode(_) => true,
        MenuEntry::Warp => m.layer,
        MenuEntry::PuppetWarp => m.layer,
        MenuEntry::RevealAll => m.add_mask,
        MenuEntry::HideAll => m.add_mask,
        MenuEntry::RevealSelection => m.mask_from_selection,
        MenuEntry::HideSelection => m.mask_from_selection,
        MenuEntry::MaskFromDepth(_) => m.add_mask,
        MenuEntry::MaskFromPath(_) => m.mask_from_path,
        MenuEntry::LayerToMask => m.layer,
        MenuEntry::MaskToSelection => m.mask_commands,
        MenuEntry::ToggleMask => m.mask_commands,
        MenuEntry::ApplyMask => m.mask_commands,
        MenuEntry::DeleteMask => m.mask_commands,
        MenuEntry::LayerStyle => m.layer_style,
        MenuEntry::ClearLayerStyle(_) => m.clear_layer_style,
        MenuEntry::ConvertToSmartObject => m.smart_object,
        MenuEntry::Rasterize => m.rasterize,
        MenuEntry::Timeline => m.several_layers,
        MenuEntry::AlignLayers(_) => m.several_layers,
        MenuEntry::AlignAndStack => m.several_layers,
        MenuEntry::SegmentObject => m.select_all,
        MenuEntry::ColourRange => m.select_all,
        MenuEntry::RefineEdge => m.selection_commands,
        MenuEntry::SelectionFromPath => m.selection_from_path,
        MenuEntry::PathFromSelection => m.selection_commands,
        MenuEntry::Grow => m.selection_commands,
        MenuEntry::Similar => m.selection_commands,
        MenuEntry::SaveSelectionAsChannel => m.selection_commands,
        MenuEntry::RepeatFilter => m.repeat_filter,
        MenuEntry::LensCorrection => m.filters,
        MenuEntry::RemoveNoise => m.filters,
        MenuEntry::ClearGuides => m.view,
    }
}

pub open spec fn spec_entry_action<P>(e: MenuEntry) -> Action<P> {
    match e {
        MenuEntry::New => Action::NewDocument,
        MenuEntry::Open => Action::ShowOpenDialog,
        MenuEntry::Save => Action::Save,
        MenuEntry::SaveAs => Action::ShowSaveAsDialog,
        MenuEntry::Close => Action::CloseDocument(usize::MAX),
        MenuEntry::Undo => Action::Undo,
        MenuEntry::Redo => Action::Redo,
        MenuEntry::Cut => Action::Cut,
        MenuEntry::Copy => Action::Copy,
        MenuEntry::CopyMerged => Action::CopyMerged,
        MenuEntry::Paste => Action::Paste,
        MenuEntry::PasteInPlace => Action::PasteInPlace,
        MenuEntry::Fill => Action::ShowFillDialog,
        MenuEntry::FillForeground => Action::FillSwatch { background: false, preserve_transparency: false },
        MenuEntry::FillBackground => Action::FillSwatch { background: true, preserve_transparency: false },
        MenuEntry::Clear => Action::ClearLayer,
        MenuEntry::ImageSize => Action::ShowImageSize,
        MenuEntry::CanvasSize => Action::ShowCanvasSize,
        MenuEntry::CropToSelection => Action::CropToSelection,
        MenuEntry::NewLayer => Action::NewLayer,
        MenuEntry::NewGroup => Action::NewGroup,
        MenuEntry::LayerViaCopy => Action::LayerViaCopy,
        MenuEntry::DuplicateLayer => Action::DuplicateLayer,
        MenuEntry::DeleteLayer => Action::DeleteLayer,
        MenuEntry::FreeTransform => Action::BeginTransform,
        MenuEntry::Transform(p) => Action::TransformPreset(p),
        MenuEntry::MergeDown => Action::MergeDown,
        MenuEntry::FlattenImage => Action::FlattenImage,
        MenuEntry::SelectAll => Action::SelectAll,
        MenuEntry::Deselect => Action::Deselect,
        MenuEntry::Reselect => Action::Reselect,
        MenuEntry::Feather => Action::ShowModifyDialog(ModifyKind::Feather),
        MenuEntry::Inverse => Action::InverseSelection,
        MenuEntry::QuickMask => Action::ToggleQuickMask,
        MenuEntry::ZoomIn => Action::ZoomIn,
        MenuEntry::ZoomOut => Action::ZoomOut,
        MenuEntry::ZoomFit => Action::ZoomFit,
        MenuEntry::ZoomActual => Action::ZoomActual,
        MenuEntry::Rulers => Action::ToggleRulers,
        MenuEntry::Guides => Action::ToggleGuides,
        MenuEntry::Grid => Action::ToggleGrid,
        MenuEntry::Snap => Action::ToggleSnap,
        MenuEntry::TogglePanels => Action::TogglePanels,
        MenuEntry::ClearRecent => Action::ClearRecent,
        MenuEntry::Quit => Action::Quit,
        MenuEntry::FillInSelection => Action::FillInSelection,
        MenuEntry::Relight => Action::ShowRelight,
        MenuEntry::ReplaceSky => Action::ReplaceSky,
        MenuEntry::RetouchSkin => Action::RetouchSkin,
        MenuEntry::DepthEffects => Action::ShowDepthFx,
        MenuEntry::SeparateByContent => Action::ShowSeparate,
        MenuEntry::Upscale => Action::ShowUpscale,
        MenuEntry::ColourProfile => Action::ShowColorProfile,
        MenuEntry::Mode(bits) => Action::SetDepth(bits),
        MenuEntry::Warp => Action::BeginWarp { puppet: false },
        MenuEntry::PuppetWarp => Action::BeginWarp { puppet: true },
        MenuEntry::RevealAll => Action::AddLayerMask { hide_all: false },
        MenuEntry::HideAll => Action::AddLayerMask { hide_all: true },
        MenuEntry::RevealSelection => Action::AddLayerMaskFromSelection { invert: false },
        MenuEntry::HideSelection => Action::AddLayerMaskFromSelection { invert: true },
        MenuEntry::MaskFromDepth(far) => Action::AddLayerMaskFromDepth { invert: far },
        MenuEntry::MaskFromPath(hide_inside) => Action::AddVectorMask { invert: hide_inside },
        MenuEntry::LayerToMask => Action::LayerToMask,
        MenuEntry::MaskToSelection => Action::SelectionFromMask,
        MenuEntry::ToggleMask => Action::ToggleMaskEnabled,
        MenuEntry::ApplyMask => Action::ApplyLayerMask,
        MenuEntry::DeleteMask => Action::DeleteLayerMask,
        MenuEntry::LayerStyle => Action::ShowLayerStyle,
        MenuEntry::ClearLayerStyle(id) => Action::ClearLayerEffects(id),
        MenuEntry::ConvertToSmartObject => Action::ConvertToSmartObject,
        MenuEntry::Rasterize => Action::RasterizeLayer,
        MenuEntry::Timeline => Action::ToggleTimeline,
        MenuEntry::AlignLayers(motion) => Action::AlignLayers { motion },
        MenuEntry::AlignAndStack => Action::StackLayers,
        MenuEntry::SegmentObject => Action::ShowSegment,
        MenuEntry::ColourRange => Action::ShowColorRange,
        MenuEntry::RefineEdge => Action::ShowRefineEdge,
        MenuEntry::SelectionFromPath => Action::SelectionFromPath,
        MenuEntry::PathFromSelection => Action::PathFromSelection,
        MenuEntry::Grow => Action::GrowSelection,
        MenuEntry::Similar => Action::SimilarSelection,
        MenuEntry::SaveSelectionAsChannel => Action::SaveSelectionAsChannel,
        MenuEntry::RepeatFilter => Action::RepeatLastFilter,
        MenuEntry::LensCorrection => Action::ShowLens,
        MenuEntry::RemoveNoise => Action::ShowDenoise,
        MenuEntry::ClearGuides => Action::ClearGuides,
    }
}

/// The action choosing `e` queues.
pub fn entry_action<P>(e: MenuEntry) -> (a: Action<P>)
    ensures
        a == spec_entry_action::<P>(e),
{
    match e {
        MenuEntry::New => Action::NewDocument,
        MenuEntry::Open => Action::ShowOpenDialog,
        MenuEntry::Save => Action::Save,
        MenuEntry::SaveAs => Action::ShowSaveAsDialog,
        MenuEntry::Close => Action::CloseDocument(usize::MAX),
        MenuEntry::Undo => Action::Undo,
        MenuEntry::Redo => Action::Redo,
        MenuEntry::Cut => Action::Cut,
        MenuEntry::Copy => Action::Copy,
        MenuEntry::CopyMerged => Action::CopyMerged,
        MenuEntry::Paste => Action::Paste,
        MenuEntry::PasteInPlace => Action::PasteInPlace,
        MenuEntry::Fill => Action::ShowFillDialog,
        MenuEntry::FillForeground => Action::FillSwatch { background: false, preserve_transparency: false },
        MenuEntry::FillBackground => Action::FillSwatch { background: true, preserve_transparency: false },
        MenuEntry::Clear => Action::ClearLayer,
        MenuEntry::ImageSize => Action::ShowImageSize,
        MenuEntry::CanvasSize => Action::ShowCanvasSize,
        MenuEntry::CropToSelection => Action::CropToSelection,
        MenuEntry::NewLayer => Action::NewLayer,
        MenuEntry::NewGroup => Action::NewGroup,
        MenuEntry::LayerViaCopy => Action::LayerViaCopy,
        MenuEntry::DuplicateLayer => Action::DuplicateLayer,
        MenuEntry::DeleteLayer => Action::DeleteLayer,
        MenuEntry::FreeTransform => Action::BeginTransform,
        MenuEntry::Transform(p) => Action::TransformPreset(p),
        MenuEntry::MergeDown => Action::MergeDown,
        MenuEntry::FlattenImage => Action::FlattenImage,
        MenuEntry::SelectAll => Action::SelectAll,
        MenuEntry::Deselect => Action::Deselect,
        MenuEntry::Reselect => Action::Reselect,
        MenuEntry::Feather => Action::ShowModifyDialog(ModifyKind::Feather),
        MenuEntry::Inverse => Action::InverseSelection,
        MenuEntry::QuickMask => Action::ToggleQuickMask,
        MenuEntry::ZoomIn => Action::ZoomIn,
        MenuEntry::ZoomOut => Action::ZoomOut,
        MenuEntry::ZoomFit => Action::ZoomFit,
        MenuEntry::ZoomActual => Action::ZoomActual,
        MenuEntry::Rulers => Action::ToggleRulers,
        MenuEntry::Guides => Action::ToggleGuides,
        MenuEntry::Grid => Action::ToggleGrid,
        MenuEntry::Snap => Action::ToggleSnap,
        MenuEntry::TogglePanels => Action::TogglePanels,
        MenuEntry::ClearRecent => Action::ClearRecent,
        MenuEntry::Quit => Action::Quit,
        MenuEntry::FillInSelection => Action::FillInSelection,
        MenuEntry::Relight => Action::ShowRelight,
        MenuEntry::ReplaceSky => Action::ReplaceSky,
        MenuEntry::RetouchSkin => Action::RetouchSkin,
        MenuEntry::DepthEffects => Action::ShowDepthFx,
        MenuEntry::SeparateByContent => Action::ShowSeparate,
        MenuEntry::Upscale => Action::ShowUpscale,
        MenuEntry::ColourProfile => Action::ShowColorProfile,
        MenuEntry::Mode(bits) => Action::SetDepth(bits),
        MenuEntry::Warp => Action::BeginWarp { puppet: false },
        MenuEntry::PuppetWarp => Action::BeginWarp { puppet: true },
        MenuEntry::RevealAll => Action::AddLayerMask { hide_all: false },
        MenuEntry::HideAll => Action::AddLayerMask { hide_all: true },
        MenuEntry::RevealSelection => Action::AddLayerMaskFromSelection { invert: false },
        MenuEntry::HideSelection => Action::AddLayerMaskFromSelection { invert: true },
        MenuEntry::MaskFromDepth(far) => Action::AddLayerMaskFromDepth { invert: far },
        MenuEntry::MaskFromPath(hide_inside) => Action::AddVectorMask { invert: hide_inside },
        MenuEntry::LayerToMask => Action::LayerToMask,
        MenuEntry::MaskToSelection => Action::SelectionFromMask,
        MenuEntry::ToggleMask => Action::ToggleMaskEnabled,
        MenuEntry::ApplyMask => Action::ApplyLayerMask,
        MenuEntry::DeleteMask => Action::DeleteLayerMask,
        MenuEntry::LayerStyle => Action::ShowLayerStyle,
        MenuEntry::ClearLayerStyle(id) => Action::ClearLayerEffects(id),
        MenuEntry::ConvertToSmartObject => Action::ConvertToSmartObject,
        MenuEntry::Rasterize => Action::RasterizeLayer,
        MenuEntry::Timeline => Action::ToggleTimeline,
        MenuEntry::AlignLayers(motion) => Action::AlignLayers { motion },
        MenuEntry::AlignAndStack => Action::StackLayers,
        MenuEntry::SegmentObject => Action::ShowSegment,
        MenuEntry::ColourRange => Action::ShowColorRange,
        MenuEntry::RefineEdge => Action::ShowRefineEdge,
        MenuEntry::SelectionFromPath => Action::SelectionFromPath,
        MenuEntry::PathFromSelection => Action::PathFromSelection,
        MenuEntry::Grow => Action::GrowSelection,
        MenuEntry::Similar => Action::SimilarSelection,
        MenuEntry::SaveSelectionAsChannel => Action::SaveSelectionAsChannel,
        MenuEntry::RepeatFilter => Action::RepeatLastFilter,
        MenuEntry::LensCorrection => Action::ShowLens,
        MenuEntry::RemoveNoise => Action::ShowDenoise,
        MenuEntry::ClearGuides => Action::ClearGuides,
    }
}

/// With no document open, the menu bar offers nothing that works on one:
/// only New, Open, Open Recent, the switches, the path command and, when the
/// editor's clipboard holds something, Paste.
pub proof fn no_document_entries_without_a_document(f: MenuFacts)
    requires
        f.well_formed(),
        !f.has_doc,
    ensures
        ({
            let m = spec_menu_bar_state(f);
            &&& !m.save && !m.save_as && !m.close
            &&& !m.undo && !m.redo
            &&& !m.cut && !m.copy && !m.copy_merged
            &&& m.paste == f.can_paste && m.paste_in_place == f.can_paste
            &&& !m.fill && !m.fill_foreground && !m.fill_background && !m.clear
            &&& !m.image && !m.crop_to_selection && !m.layer
            &&& !m.select_all && !m.deselect && !m.reselect && !m.selection_commands && !m.inverse
            &&& !m.quick_mask && !m.repeat_filter && !m.filters && !m.view
            &&& !m.add_mask && !m.mask_from_selection && !m.mask_commands && !m.layer_style
            &&& !m.clear_layer_style && !m.smart_object && !m.rasterize && !m.several_layers
        }),
{
}

/// With no document open, an entry the menu greys out, and whose action the
/// shell decides, would do nothing if it were chosen anyway: the menu hides
/// nothing that would have worked. Not covered: Crop to Selection, Quick
/// Mask and Filter Again would still say something, Paste would still ask
/// the system clipboard, Fill and Feather would still open their dialogs,
/// and Rasterize would still commit the text being typed.
pub proof fn greyed_entries_do_nothing_without_a_document<P>(
    s: crate::shell::ShellState,
    f: MenuFacts,
    e: MenuEntry,
)
    requires
        !f.has_doc,
        f.well_formed(),
        s.active is None,
        s.docs == 0,
        !entry_live(spec_menu_bar_state(f), e),
        e != MenuEntry::CropToSelection,
        e != MenuEntry::QuickMask,
        e != MenuEntry::Paste,
        e != MenuEntry::PasteInPlace,
        e != MenuEntry::Fill,
        e != MenuEntry::Feather,
        e != MenuEntry::RepeatFilter,
        e != MenuEntry::Rasterize,
        forwarded(spec_entry_action::<P>(e)) is None,
    ensures
        effects::<P>(s, None::<DocFacts>, spec_entry_action::<P>(e)) == Seq::<crate::shell::Effect<P>>::empty(),
{
}

/// Each entry queues the command its label names.
pub proof fn entries_queue_what_they_say<P>(p: TransformPreset, bits: u8, far: bool, id: LayerId, motion: AlignMotion)
    ensures
        spec_entry_action::<P>(MenuEntry::New) == Action::<P>::NewDocument,
        spec_entry_action::<P>(MenuEntry::Open) == Action::<P>::ShowOpenDialog,
        spec_entry_action::<P>(MenuEntry::Save) == Action::<P>::Save,
        spec_entry_action::<P>(MenuEntry::SaveAs) == Action::<P>::ShowSaveAsDialog,
        spec_entry_action::<P>(MenuEntry::Close) == Action::<P>::CloseDocument(usize::MAX),
        spec_entry_action::<P>(MenuEntry::Quit) == Action::<P>::Quit,
        spec_entry_action::<P>(MenuEntry::ClearRecent) == Action::<P>::ClearRecent,
        spec_entry_action::<P>(MenuEntry::Undo) == Action::<P>::Undo,
        spec_entry_action::<P>(MenuEntry::Redo) == Action::<P>::Redo,
        spec_entry_action::<P>(MenuEntry::Cut) == Action::<P>::Cut,
        spec_entry_action::<P>(MenuEntry::Copy) == Action::<P>::Copy,
        spec_entry_action::<P>(MenuEntry::CopyMerged) == Action::<P>::CopyMerged,
        spec_entry_action::<P>(MenuEntry::Paste) == Action::<P>::Paste,
        spec_entry_action::<P>(MenuEntry::PasteInPlace) == Action::<P>::PasteInPlace,
        spec_entry_action::<P>(MenuEntry::Fill) == Action::<P>::ShowFillDialog,
        spec_entry_action::<P>(MenuEntry::FillForeground)
            == (Action::<P>::FillSwatch { background: false, preserve_transparency: false }),
        spec_entry_action::<P>(MenuEntry::FillBackground)
            == (Action::<P>::FillSwatch { background: true, preserve_transparency: false }),
        spec_entry_action::<P>(MenuEntry::Clear) == Action::<P>::ClearLayer,
        spec_entry_action::<P>(MenuEntry::ImageSize) == Action::<P>::ShowImageSize,
        spec_entry_action::<P>(MenuEntry::CanvasSize) == Action::<P>::ShowCanvasSize,
        spec_entry_action::<P>(MenuEntry::CropToSelection) == Action::<P>::CropToSelection,
        spec_entry_action::<P>(MenuEntry::NewLayer) == Action::<P>::NewLayer,
        spec_entry_action::<P>(MenuEntry::NewGroup) == Action::<P>::NewGroup,
        spec_entry_action::<P>(MenuEntry::LayerViaCopy) == Action::<P>::LayerViaCopy,
        spec_entry_action::<P>(MenuEntry::DuplicateLayer) == Action::<P>::DuplicateLayer,
        spec_entry_action::<P>(MenuEntry::DeleteLayer) == Action::<P>::DeleteLayer,
        spec_entry_action::<P>(MenuEntry::FreeTransform) == Action::<P>::BeginTransform,
        spec_entry_action::<P>(MenuEntry::Transform(p)) == Action::<P>::TransformPreset(p),
        spec_entry_action::<P>(MenuEntry::MergeDown) == Action::<P>::MergeDown,
        spec_entry_action::<P>(MenuEntry::FlattenImage) == Action::<P>::FlattenImage,
        spec_entry_action::<P>(MenuEntry::SelectAll) == Action::<P>::SelectAll,
        spec_entry_action::<P>(MenuEntry::Deselect) == Action::<P>::Deselect,
        spec_entry_action::<P>(MenuEntry::Reselect) == Action::<P>::Reselect,
        spec_entry_action::<P>(MenuEntry::Feather) == Action::<P>::ShowModifyDialog(ModifyKind::Feather),
        spec_entry_action::<P>(MenuEntry::Inverse) == Action::<P>::InverseSelection,
        spec_entry_action::<P>(MenuEntry::QuickMask) == Action::<P>::ToggleQuickMask,
        spec_entry_action::<P>(MenuEntry::ZoomIn) == Action::<P>::ZoomIn,
        spec_entry_action::<P>(MenuEntry::ZoomOut) == Action::<P>::ZoomOut,
        spec_entry_action::<P>(MenuEntry::ZoomFit) == Action::<P>::ZoomFit,
        spec_entry_action::<P>(MenuEntry::ZoomActual) == Action::<P>::ZoomActual,
        spec_entry_action::<P>(MenuEntry::Rulers) == Action::<P>::ToggleRulers,
        spec_entry_action::<P>(MenuEntry::Guides) == Action::<P>::ToggleGuides,
        spec_entry_action::<P>(MenuEntry::Grid) == Action::<P>::ToggleGrid,
        spec_entry_action::<P>(MenuEntry::Snap) == Action::<P>::ToggleSnap,
        spec_entry_action::<P>(MenuEntry::TogglePanels) == Action::<P>::TogglePanels,
        spec_entry_action::<P>(MenuEntry::Mode(bits)) == Action::<P>::SetDepth(bits),
        spec_entry_action::<P>(MenuEntry::RevealAll) == (Action::<P>::AddLayerMask { hide_all: false }),
        spec_entry_action::<P>(MenuEntry::HideAll) == (Action::<P>::AddLayerMask { hide_all: true }),
        spec_entry_action::<P>(MenuEntry::RevealSelection) == (Action::<P>::AddLayerMaskFromSelection { invert: false }),
        spec_entry_action::<P>(MenuEntry::HideSelection) == (Action::<P>::AddLayerMaskFromSelection { invert: true }),
        spec_entry_action::<P>(MenuEntry::MaskFromDepth(far)) == (Action::<P>::AddLayerMaskFromDepth { invert: far }),
        spec_entry_action::<P>(MenuEntry::MaskFromPath(far)) == (Action::<P>::AddVectorMask { invert: far }),
        spec_entry_action::<P>(MenuEntry::MaskToSelection) == Action::<P>::SelectionFromMask,
        spec_entry_action::<P>(MenuEntry::ToggleMask) == Action::<P>::ToggleMaskEnabled,
        spec_entry_action::<P>(MenuEntry::ApplyMask) == Action::<P>::ApplyLayerMask,
        spec_entry_action::<P>(MenuEntry::DeleteMask) == Action::<P>::DeleteLayerMask,
        spec_entry_action::<P>(MenuEntry::LayerStyle) == Action::<P>::ShowLayerStyle,
        spec_entry_action::<P>(MenuEntry::ClearLayerStyle(id)) == Action::<P>::ClearLayerEffects(id),
        spec_entry_action::<P>(MenuEntry::Rasterize) == Action::<P>::RasterizeLayer,
        spec_entry_action::<P>(MenuEntry::AlignLayers(motion)) == (Action::<P>::AlignLayers { motion }),
        spec_entry_action::<P>(MenuEntry::AlignAndStack) == Action::<P>::StackLayers,
        spec_entry_action::<P>(MenuEntry::Grow) == Action::<P>::GrowSelection,
        spec_entry_action::<P>(MenuEntry::Similar) == Action::<P>::SimilarSelection,
        spec_entry_action::<P>(MenuEntry::RepeatFilter) == Action::<P>::RepeatLastFilter,
        spec_entry_action::<P>(MenuEntry::ClearGuides) == Action::<P>::ClearGuides,
{
}

/// What each entry needs to be live: a document for the document commands,
/// something to undo or redo, the editor's clipboard for Paste, a selection
/// for the selection commands, a previous selection for Reselect, a
/// finished path for the path commands, and the active layer's state for
/// the mask, style and smart-object entries.
pub proof fn entries_are_live_when_they_can_work(f: MenuFacts)
    ensures
        ({
            let m = spec_menu_bar_state(f);
            &&& m.save == f.has_doc && m.close == f.has_doc && m.layer == f.has_doc && m.image == f.has_doc
            &&& m.cut == f.has_doc && m.copy == f.has_doc && m.fill == f.has_doc && m.view == f.has_doc
            &&& m.undo == f.can_undo && m.redo == f.can_redo
            &&& m.paste == f.can_paste && m.paste_in_place == f.can_paste
            &&& m.deselect == f.has_selection && m.crop_to_selection == f.has_selection
            &&& m.selection_commands == f.has_selection
            &&& m.reselect == f.can_reselect
            &&& m.open_recent == (f.recent > 0)
            &&& m.selection_from_path == (f.path_anchors >= 3)
            &&& m.repeat_filter == (f.has_doc && f.has_last_filter)
            &&& m.add_mask == (f.has_doc && !f.has_mask)
            &&& m.mask_from_selection == (f.has_selection && !f.has_mask)
            &&& m.mask_from_path == (f.path_anchors >= 3 && !f.has_mask)
            &&& m.mask_commands == f.has_mask
            &&& m.layer_style == f.has_pixels && m.clear_layer_style == f.has_style
            &&& m.smart_object == (f.has_pixels && !f.is_smart)
            &&& m.rasterize == f.rendered && m.several_layers == f.several_layers
        }),
{
}

} // verus!

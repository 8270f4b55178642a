//! What the menus and the Layers panel's buttons offer: the Undo and Redo
//! labels, which layer and mask commands can run, and what their entries say.

use vstd::prelude::*;
use crate::text::{dec, push_decimal};

verus! {

/// `"Undo {step}"`, or plain `"Undo"` when there is nothing to undo.
pub fn undo_label(step: Option<&str>) -> (s: String)
    ensures
        s@ == match step {
            Some(n) => "Undo "@ + n@,
            None => "Undo"@,
        },
{
    match step {
        Some(n) => {
            let mut s = String::from_str("Undo ");
            s.append(n);
            s
        },
        None => String::from_str("Undo"),
    }
}

/// `"Redo {step}"`, or plain `"Redo"` when there is nothing to redo.
pub fn redo_label(step: Option<&str>) -> (s: String)
    ensures
        s@ == match step {
            Some(n) => "Redo "@ + n@,
            None => "Redo"@,
        },
{
    match step {
        Some(n) => {
            let mut s = String::from_str("Redo ");
            s.append(n);
            s
        },
        None => String::from_str("Redo"),
    }
}

/// Which of the Layers panel's buttons are live.
#[derive(Debug, Clone, Copy, PartialEq, Eq, Structural)]
pub struct LayerButtons {
    /// The mask button adds a mask from the selection rather than a blank one.
    pub mask_from_selection: bool,
    /// Mask, new group, new layer and duplicate need only a document.
    pub basic: bool,
    /// Merging needs a layer below the active one to merge into.
    pub merge_down: bool,
    /// Flattening needs more than one layer to be worth doing.
    pub flatten: bool,
    /// The last layer cannot be deleted.
    pub delete: bool,
}

/// Merge Down does something only with a layer below the active one.
pub open spec fn can_merge_down(active_index: Option<usize>) -> bool {
    active_index matches Some(i) && i > 0
}

/// Delete Layer does something only while more than one layer would remain
/// possible: it never removes the last one.
pub open spec fn can_delete(layer_count: usize) -> bool {
    layer_count > 1
}

/// The buttons' state, from whether a document is open, how many layers it
/// has, where the active layer sits among its siblings, and whether anything
/// is selected.
pub open spec fn spec_layer_buttons(
    has_doc: bool,
    layer_count: usize,
    active_index: Option<usize>,
    has_selection: bool,
) -> LayerButtons {
    LayerButtons {
        mask_from_selection: has_doc && has_selection,
        basic: has_doc,
        merge_down: can_merge_down(active_index),
        flatten: layer_count > 1,
        delete: can_delete(layer_count),
    }
}

pub fn layer_buttons(
    has_doc: bool,
    layer_count: usize,
    active_index: Option<usize>,
    has_selection: bool,
) -> (b: LayerButtons)
    ensures
        b == spec_layer_buttons(has_doc, layer_count, active_index, has_selection),
{
    LayerButtons {
        mask_from_selection: has_doc && has_selection,
        basic: has_doc,
        merge_down: match active_index {
            Some(i) => i > 0,
            None => false,
        },
        flatten: layer_count > 1,
        delete: layer_count > 1,
    }
}

/// Whether Delete Layer should run: the same rule that greys its button out.
pub fn delete_allowed(layer_count: usize) -> (b: bool)
    ensures
        b == can_delete(layer_count),
{
    layer_count > 1
}

/// Whether Merge Down should run: the same rule that greys its button out.
pub fn merge_down_allowed(active_index: Option<usize>) -> (b: bool)
    ensures
        b == can_merge_down(active_index),
{
    match active_index {
        Some(i) => i > 0,
        None => false,
    }
}

/// Which entries of Layer > Layer Mask are live.
#[derive(Debug, Clone, Copy, PartialEq, Eq, Structural)]
pub struct MaskMenu {
    /// Reveal All, Hide All and the two From Depth entries: a new mask,
    /// which the active layer must not have yet.
    pub add: bool,
    /// Reveal Selection and Hide Selection: a new mask cut from the selection.
    pub add_from_selection: bool,
    /// From Path and From Path (hide inside): a vector mask from the path
    /// being drawn, which needs at least three anchors to enclose anything.
    pub add_from_path: bool,
    /// Layer to Mask: needs only a document.
    pub layer_to_mask: bool,
    /// Mask to Selection, Disable / Enable, Apply and Delete: act on the
    /// mask the active layer has.
    pub edit: bool,
}

/// The Layer Mask menu, from whether a document is open, whether anything is
/// selected, whether the active layer has a mask, and how many anchors the
/// path being drawn has (0 when none is).
pub fn mask_menu(has_doc: bool, has_selection: bool, has_mask: bool, path_anchors: usize) -> (m: MaskMenu)
    ensures
        m.add == (has_doc && !has_mask),
        m.add_from_selection == (has_selection && !has_mask),
        m.add_from_path == (path_anchors >= 3 && !has_mask),
        m.layer_to_mask == has_doc,
        m.edit == has_mask,
{
    MaskMenu {
        add: has_doc && !has_mask,
        add_from_selection: has_selection && !has_mask,
        add_from_path: path_anchors >= 3 && !has_mask,
        layer_to_mask: has_doc,
        edit: has_mask,
    }
}

/// What the active layer is, as far as the Layer menu's lower entries care.
#[derive(Debug, Clone, Copy, PartialEq, Eq, Structural)]
pub struct ActiveLayer {
    /// It holds pixels of its own (raster, type, shape or smart object).
    pub has_pixels: bool,
    /// It has a layer style with at least one effect.
    pub has_effects: bool,
    /// It is a smart object.
    pub is_smart: bool,
    /// It is drawn from something else (type, a shape, a smart object) and
    /// so can be rasterized.
    pub rendered: bool,
}

/// Which of the Layer menu's style, smart-object and rasterize entries are
/// live.
#[derive(Debug, Clone, Copy, PartialEq, Eq, Structural)]
pub struct LayerMenu {
    pub layer_style: bool,
    pub clear_layer_style: bool,
    pub convert_to_smart: bool,
    pub replace_contents: bool,
    pub make_unique: bool,
    pub rasterize: bool,
}

/// The entries' state, from the active layer (if any) and how many layers
/// share the active smart object's picture (0 when it is not one).
pub fn layer_menu(active: Option<ActiveLayer>, shared: usize) -> (m: LayerMenu)
    ensures
        match active {
            Some(a) => m == (LayerMenu {
                layer_style: a.has_pixels,
                clear_layer_style: a.has_effects,
                convert_to_smart: a.has_pixels && !a.is_smart,
                replace_contents: a.is_smart,
                make_unique: shared > 1,
                rasterize: a.rendered,
            }),
            None => m == (LayerMenu {
                layer_style: false,
                clear_layer_style: false,
                convert_to_smart: false,
                replace_contents: false,
                make_unique: shared > 1,
                rasterize: false,
            }),
        },
{
    match active {
        Some(a) => LayerMenu {
            layer_style: a.has_pixels,
            clear_layer_style: a.has_effects,
            convert_to_smart: a.has_pixels && !a.is_smart,
            replace_contents: a.is_smart,
            make_unique: shared > 1,
            rasterize: a.rendered,
        },
        None => LayerMenu {
            layer_style: false,
            clear_layer_style: false,
            convert_to_smart: false,
            replace_contents: false,
            make_unique: shared > 1,
            rasterize: false,
        },
    }
}

/// What kind of layer a rasterize would flatten.
#[derive(Debug, Clone, Copy, PartialEq, Eq, Structural)]
pub enum RenderedKind {
    Type,
    SmartObject,
    /// A shape, or anything else.
    Other,
}

pub open spec fn spec_rasterize_label(kind: RenderedKind) -> Seq<char> {
    match kind {
        RenderedKind::Type => "Rasterize Type"@,
        RenderedKind::SmartObject => "Rasterize Smart Object"@,
        RenderedKind::Other => "Rasterize Shape"@,
    }
}

/// The Rasterize entry names what it will flatten.
pub fn rasterize_label(kind: RenderedKind) -> (s: &'static str)
    ensures
        s@ == spec_rasterize_label(kind),
{
    match kind {
        RenderedKind::Type => "Rasterize Type",
        RenderedKind::SmartObject => "Rasterize Smart Object",
        RenderedKind::Other => "Rasterize Shape",
    }
}

/// The hint over Replace Contents: how many other layers the new picture
/// will reach too, when any do.
pub fn replace_contents_hint(shared: usize) -> (s: String)
    ensures
        s@ == if shared > 1 {
            "Puts a different picture behind this smart object — and behind the "@
                + dec((shared - 1) as nat) + " other layers sharing it, each at its own placement"@
        } else {
            "Puts a different picture behind this smart object, keeping its placement"@
        },
{
    if shared > 1 {
        let mut s = String::from_str("Puts a different picture behind this smart object — and behind the ");
        push_decimal(&mut s, (shared - 1) as u64);
        s.append(" other layers sharing it, each at its own placement");
        s
    } else {
        String::from_str("Puts a different picture behind this smart object, keeping its placement")
    }
}

/// Whether Combine Shapes can run on the selected layers, given for each
/// whether it is a shape: two or more, all shapes, since combining one
/// shape with nothing is not an operation.
pub fn can_combine(shapes: &Vec<bool>) -> (b: bool)
    ensures
        b == (shapes@.len() >= 2 && forall|i: int| 0 <= i < shapes@.len() ==> #[trigger] shapes@[i]),
{
    if shapes.len() < 2 {
        return false;
    }
    let mut i: usize = 0;
    while i < shapes.len()
        invariant
            0 <= i <= shapes@.len(),
            forall|j: int| 0 <= j < i ==> #[trigger] shapes@[j],
        decreases shapes@.len() - i,
    {
        if !shapes[i] {
            return false;
        }
        i = i + 1;
    }
    true
}

// ---------------------------------------------------------------------------
// A layer's context menu
// ---------------------------------------------------------------------------

/// Which entries of a layer's context menu are live.
#[derive(Debug, Clone, Copy, PartialEq, Eq, Structural)]
pub struct LayerContext {
    /// Duplicate Layer: not for a group.
    pub duplicate: bool,
    /// Merge Down: needs a layer below, and not for a group.
    pub merge_down: bool,
    /// Merge All and Delete Layer: need more than one layer.
    pub merge_all_and_delete: bool,
    /// The mask entries that add a mask, offered while the layer has none.
    pub add_mask: bool,
    /// Of those, the two cut from the selection.
    pub mask_from_selection: bool,
    /// The entries that act on the layer's mask, offered once it has one.
    pub edit_mask: bool,
}

/// The context menu of a layer: whether it is a group, its index among its
/// siblings (if the tree knows it), how many layers the document has,
/// whether anything is selected, and whether the layer has a mask.
pub open spec fn spec_layer_context(
    is_group: bool,
    index: Option<usize>,
    layer_count: usize,
    has_selection: bool,
    has_mask: bool,
) -> LayerContext {
    LayerContext {
        duplicate: !is_group,
        merge_down: can_merge_down(index) && !is_group,
        merge_all_and_delete: can_delete(layer_count),
        add_mask: !has_mask,
        mask_from_selection: !has_mask && has_selection,
        edit_mask: has_mask,
    }
}

pub fn layer_context(
    is_group: bool,
    index: Option<usize>,
    layer_count: usize,
    has_selection: bool,
    has_mask: bool,
) -> (c: LayerContext)
    ensures
        c == spec_layer_context(is_group, index, layer_count, has_selection, has_mask),
{
    LayerContext {
        duplicate: !is_group,
        merge_down: merge_down_allowed(index) && !is_group,
        merge_all_and_delete: delete_allowed(layer_count),
        add_mask: !has_mask,
        mask_from_selection: !has_mask && has_selection,
        edit_mask: has_mask,
    }
}

/// A layer's context menu never offers Merge Down, Merge All or Delete Layer
/// where the Layers panel's buttons for the same layer would refuse them.
pub proof fn context_menu_offers_no_more_than_the_panel(
    is_group: bool,
    index: Option<usize>,
    layer_count: usize,
    has_selection: bool,
    has_mask: bool,
)
    ensures
        ({
            let c = spec_layer_context(is_group, index, layer_count, has_selection, has_mask);
            let b = spec_layer_buttons(true, layer_count, index, has_selection);
            &&& c.merge_down ==> b.merge_down
            &&& c.merge_all_and_delete == b.delete
            &&& c.merge_all_and_delete == b.flatten
        }),
{
}

/// `"Hide Layer"` for a visible layer, `"Show Layer"` for a hidden one.
pub fn visibility_label(visible: bool) -> (s: &'static str)
    ensures
        s@ == if visible { "Hide Layer"@ } else { "Show Layer"@ },
{
    if visible { "Hide Layer" } else { "Show Layer" }
}

/// The clipping entry offers the opposite of what the layer is.
pub fn clipping_label(clipping: bool) -> (s: &'static str)
    ensures
        s@ == if clipping { "Release Clipping Mask"@ } else { "Create Clipping Mask"@ },
{
    if clipping { "Release Clipping Mask" } else { "Create Clipping Mask" }
}

/// The mask switch offers the opposite of what the mask is.
pub fn mask_toggle_label(enabled: bool) -> (s: &'static str)
    ensures
        s@ == if enabled { "Disable Mask"@ } else { "Enable Mask"@ },
{
    if enabled { "Disable Mask" } else { "Enable Mask" }
}

/// The Layers panel's buttons: the last layer cannot be deleted, Merge Down
/// needs a layer below the active one, Flatten needs two layers, the mask
/// button masks from the selection when there is one, and the rest need
/// only a document.
pub proof fn the_panel_buttons_say_what_works(
    has_doc: bool,
    layer_count: usize,
    active_index: Option<usize>,
    has_selection: bool,
)
    ensures
        ({
            let b = spec_layer_buttons(has_doc, layer_count, active_index, has_selection);
            &&& b.delete == (layer_count > 1)
            &&& b.flatten == (layer_count > 1)
            &&& b.merge_down == (active_index matches Some(i) && i > 0)
            &&& b.basic == has_doc
            &&& b.mask_from_selection == (has_doc && has_selection)
        }),
{
}

/// A layer's context menu: a group cannot be duplicated or merged down; the
/// bottom layer cannot be merged down; the last layer cannot be deleted; a
/// layer with a mask offers the mask's commands and one without offers to
/// add one, from the selection only when there is one.
pub proof fn the_context_menu_says_what_works(
    is_group: bool,
    index: Option<usize>,
    layer_count: usize,
    has_selection: bool,
    has_mask: bool,
)
    ensures
        ({
            let c = spec_layer_context(is_group, index, layer_count, has_selection, has_mask);
            &&& c.duplicate == !is_group
            &&& c.merge_down == (!is_group && (index matches Some(i) && i > 0))
            &&& c.merge_all_and_delete == (layer_count > 1)
            &&& c.add_mask == !has_mask
            &&& c.mask_from_selection == (!has_mask && has_selection)
            &&& c.edit_mask == has_mask
        }),
{
}

} // verus!

//! A brush stroke's bookkeeping: where it paints when it begins, and whether
//! it becomes an undo step when it ends.
//!
//! The window paints the pixels and compares them; these functions take what
//! it found as plain values and decide.

use vstd::prelude::*;
use crate::canvas::Tool;

verus! {

/// Where a stroke's paint lands.
#[derive(Debug, Clone, Copy, PartialEq, Eq, Structural)]
pub enum StrokeTarget {
    /// The active layer's pixels.
    Pixels,
    /// The active layer's mask.
    Mask,
    /// The selection, while Quick Mask is on.
    QuickMask,
}

/// One of the two colour swatches.
#[derive(Debug, Clone, Copy, PartialEq, Eq, Structural)]
pub enum Swatch {
    Foreground,
    Background,
}

/// Why a stroke did not start.
#[derive(Debug, Clone, Copy, PartialEq, Eq, Structural)]
pub enum StrokeRefusal {
    Locked,
    NotRaster,
    NoCloneSource,
}

/// What the window knows when the button goes down to paint.
#[derive(Debug, Clone, Copy, PartialEq, Eq, Structural)]
pub struct BeginFacts {
    /// A document is focused and has an active layer.
    pub has_active: bool,
    pub quick_mask: bool,
    /// The active layer was found in the tree.
    pub layer_found: bool,
    /// Its pixels are locked.
    pub locked: bool,
    /// Painting goes to its mask (it has one, and the mask is the target).
    pub edit_mask: bool,
    /// It holds pixels.
    pub has_pixels: bool,
    /// The Clone Stamp is painting.
    pub clone: bool,
    /// A clone source has been set with Alt-click.
    pub has_anchor: bool,
    /// The clone source could be read.
    pub source_ready: bool,
    /// The Clone Stamp is aligned.
    pub aligned: bool,
    /// An earlier aligned stroke already set the clone offset.
    pub has_offset: bool,
    /// The brush erases.
    pub erasing: bool,
}

/// How a stroke begins.
#[derive(Debug, Clone, Copy, PartialEq, Eq, Structural)]
pub enum StrokeStart {
    Nothing,
    Refuse(StrokeRefusal),
    /// Paint the mask or the Quick Mask selection with a swatch: on a mask,
    /// black conceals and white reveals, so erasing is painting the
    /// background colour.
    Swatch { target: StrokeTarget, swatch: Swatch },
    /// Paint the layer's pixels with the foreground, in the brush's mode.
    Solid,
    /// Clone onto the layer's pixels; `keep_offset` keeps the offset an
    /// earlier aligned stroke set, otherwise it is taken afresh from the
    /// anchor and the pointer.
    Clone { keep_offset: bool },
}

pub open spec fn erase_swatch(erasing: bool) -> Swatch {
    if erasing { Swatch::Background } else { Swatch::Foreground }
}

pub open spec fn spec_stroke_start(f: BeginFacts) -> StrokeStart {
    if !f.has_active {
        StrokeStart::Nothing
    } else if f.quick_mask {
        StrokeStart::Swatch { target: StrokeTarget::QuickMask, swatch: erase_swatch(f.erasing) }
    } else if !f.layer_found {
        StrokeStart::Nothing
    } else if f.locked {
        StrokeStart::Refuse(StrokeRefusal::Locked)
    } else if f.edit_mask {
        StrokeStart::Swatch { target: StrokeTarget::Mask, swatch: erase_swatch(f.erasing) }
    } else if !f.has_pixels {
        StrokeStart::Refuse(StrokeRefusal::NotRaster)
    } else if !f.clone {
        StrokeStart::Solid
    } else if !f.has_anchor {
        StrokeStart::Refuse(StrokeRefusal::NoCloneSource)
    } else if !f.source_ready {
        StrokeStart::Nothing
    } else {
        StrokeStart::Clone { keep_offset: f.aligned && f.has_offset }
    }
}

/// Decide how a stroke begins: Quick Mask paints the selection; otherwise a
/// locked layer refuses, a mask being edited takes a swatch, a layer without
/// pixels refuses, and the Clone Stamp needs its source.
pub fn stroke_start(f: BeginFacts) -> (r: StrokeStart)
    ensures
        r == spec_stroke_start(f),
{
    let swatch = if f.erasing { Swatch::Background } else { Swatch::Foreground };
    if !f.has_active {
        StrokeStart::Nothing
    } else if f.quick_mask {
        StrokeStart::Swatch { target: StrokeTarget::QuickMask, swatch }
    } else if !f.layer_found {
        StrokeStart::Nothing
    } else if f.locked {
        StrokeStart::Refuse(StrokeRefusal::Locked)
    } else if f.edit_mask {
        StrokeStart::Swatch { target: StrokeTarget::Mask, swatch }
    } else if !f.has_pixels {
        StrokeStart::Refuse(StrokeRefusal::NotRaster)
    } else if !f.clone {
        StrokeStart::Solid
    } else if !f.has_anchor {
        StrokeStart::Refuse(StrokeRefusal::NoCloneSource)
    } else if !f.source_ready {
        StrokeStart::Nothing
    } else {
        StrokeStart::Clone { keep_offset: f.aligned && f.has_offset }
    }
}

/// What the status bar says when a stroke is refused.
pub fn refusal_text(r: StrokeRefusal) -> (s: &'static str)
    ensures
        s@ == match r {
            StrokeRefusal::Locked => "The layer is locked"@,
            StrokeRefusal::NotRaster => "Only raster layers can be painted on"@,
            StrokeRefusal::NoCloneSource => "Alt-click to set the clone source first"@,
        },
{
    match r {
        StrokeRefusal::Locked => "The layer is locked",
        StrokeRefusal::NotRaster => "Only raster layers can be painted on",
        StrokeRefusal::NoCloneSource => "Alt-click to set the clone source first",
    }
}

/// The name a recorded stroke gets in the History panel.
#[derive(Debug, Clone, Copy, PartialEq, Eq, Structural)]
pub enum StepLabel {
    Eraser,
    Pencil,
    CloneStamp,
    Brush,
    QuickMask,
}

/// What the window found when the button came up.
#[derive(Debug, Clone, Copy, PartialEq, Eq, Structural)]
pub struct EndFacts {
    /// A stroke was in progress, on the focused document.
    pub stroking: bool,
    pub target: StrokeTarget,
    /// The tool that began it.
    pub tool: Tool,
    pub erasing: bool,
    /// It has no points.
    pub empty: bool,
    /// What it covered lies outside the layer (or the mask).
    pub outside: bool,
    /// The pixels it covered differ from what they were.
    pub changed: bool,
}

/// How a stroke ends.
#[derive(Debug, Clone, Copy, PartialEq, Eq, Structural)]
pub enum StrokeEnd {
    /// Nothing is recorded.
    Drop,
    /// Nothing is recorded, and the status bar says the clone source is
    /// outside the image.
    NothingCloned,
    /// Record the stroke as one undo step.
    Record { target: StrokeTarget, label: StepLabel },
}

/// The step is named after the tool, not the blend mode: a clone stroke is
/// not a brush stroke.
pub open spec fn spec_step_label(tool: Tool, erasing: bool) -> StepLabel {
    match tool {
        Tool::Eraser => StepLabel::Eraser,
        Tool::Pencil => StepLabel::Pencil,
        Tool::CloneStamp => StepLabel::CloneStamp,
        _ => if erasing { StepLabel::Eraser } else { StepLabel::Brush },
    }
}

pub open spec fn spec_stroke_end(f: EndFacts) -> StrokeEnd {
    if !f.stroking || f.empty {
        StrokeEnd::Drop
    } else {
        match f.target {
            StrokeTarget::Pixels => if f.outside {
                StrokeEnd::Drop
            } else if !f.changed {
                if f.tool == Tool::CloneStamp { StrokeEnd::NothingCloned } else { StrokeEnd::Drop }
            } else {
                StrokeEnd::Record { target: StrokeTarget::Pixels, label: spec_step_label(f.tool, f.erasing) }
            },
            StrokeTarget::Mask => if f.outside {
                StrokeEnd::Drop
            } else {
                StrokeEnd::Record { target: StrokeTarget::Mask, label: spec_step_label(f.tool, f.erasing) }
            },
            StrokeTarget::QuickMask => StrokeEnd::Record { target: StrokeTarget::QuickMask, label: StepLabel::QuickMask },
        }
    }
}

pub fn step_label(tool: Tool, erasing: bool) -> (l: StepLabel)
    ensures
        l == spec_step_label(tool, erasing),
{
    match tool {
        Tool::Eraser => StepLabel::Eraser,
        Tool::Pencil => StepLabel::Pencil,
        Tool::CloneStamp => StepLabel::CloneStamp,
        _ => if erasing { StepLabel::Eraser } else { StepLabel::Brush },
    }
}

/// Decide whether a finished stroke becomes an undo step.
pub fn stroke_end(f: EndFacts) -> (r: StrokeEnd)
    ensures
        r == spec_stroke_end(f),
{
    if !f.stroking || f.empty {
        return StrokeEnd::Drop;
    }
    match f.target {
        StrokeTarget::Pixels => if f.outside {
            StrokeEnd::Drop
        } else if !f.changed {
            match f.tool {
                Tool::CloneStamp => StrokeEnd::NothingCloned,
                _ => StrokeEnd::Drop,
            }
        } else {
            StrokeEnd::Record { target: StrokeTarget::Pixels, label: step_label(f.tool, f.erasing) }
        },
        StrokeTarget::Mask => if f.outside {
            StrokeEnd::Drop
        } else {
            StrokeEnd::Record { target: StrokeTarget::Mask, label: step_label(f.tool, f.erasing) }
        },
        StrokeTarget::QuickMask => StrokeEnd::Record { target: StrokeTarget::QuickMask, label: StepLabel::QuickMask },
    }
}

/// The History panel's name for a recorded stroke.
pub fn step_label_text(l: StepLabel) -> (s: &'static str)
    ensures
        s@ == match l {
            StepLabel::Eraser => "Eraser Tool"@,
            StepLabel::Pencil => "Pencil Tool"@,
            StepLabel::CloneStamp => "Clone Stamp"@,
            StepLabel::Brush => "Brush Tool"@,
            StepLabel::QuickMask => "Quick Mask"@,
        },
{
    match l {
        StepLabel::Eraser => "Eraser Tool",
        StepLabel::Pencil => "Pencil Tool",
        StepLabel::CloneStamp => "Clone Stamp",
        StepLabel::Brush => "Brush Tool",
        StepLabel::QuickMask => "Quick Mask",
    }
}

/// A stroke on the layer's pixels that changed none of them is never an
/// undo step.
pub proof fn an_unchanged_stroke_is_not_recorded(f: EndFacts)
    requires
        f.target == StrokeTarget::Pixels,
        !f.changed,
    ensures
        !(spec_stroke_end(f) is Record),
{
}

/// On a mask and in Quick Mask, erasing paints with the background colour
/// and painting with the foreground.
pub proof fn erasing_a_mask_paints_the_background(f: BeginFacts)
    requires
        f.has_active,
        f.quick_mask || (f.layer_found && !f.locked && f.edit_mask),
    ensures
        spec_stroke_start(f) matches StrokeStart::Swatch { swatch, .. }
            && (swatch == Swatch::Background <==> f.erasing),
{
}

/// A Clone Stamp stroke keeps the offset an earlier stroke set only when the
/// Clone Stamp is aligned and such an offset exists; otherwise it restarts
/// from the anchor. It is the only kind of stroke that clones, and it clones
/// whenever the layer can take paint and the source is set and readable.
pub proof fn only_an_aligned_clone_keeps_its_offset(f: BeginFacts)
    ensures
        spec_stroke_start(f) matches StrokeStart::Clone { keep_offset } ==> {
            &&& keep_offset == (f.aligned && f.has_offset)
            &&& !f.aligned ==> !keep_offset
            &&& f.clone && f.has_anchor && f.source_ready && f.has_pixels
            &&& !f.quick_mask && !f.edit_mask && !f.locked
        },
        (f.has_active && !f.quick_mask && f.layer_found && !f.locked && !f.edit_mask && f.has_pixels && f.clone
            && f.has_anchor && f.source_ready) ==> spec_stroke_start(f) == (StrokeStart::Clone {
            keep_offset: f.aligned && f.has_offset,
        }),
        (f.has_active && !f.quick_mask && f.layer_found && !f.locked && !f.edit_mask && f.has_pixels && !f.clone)
            ==> spec_stroke_start(f) == StrokeStart::Solid,
{
}

/// How a stroke begins, reason by reason: with no active layer, nothing;
/// Quick Mask paints the selection whatever the layer; a locked layer
/// refuses; a mask being edited takes a swatch; a layer without pixels
/// refuses; otherwise the brush paints the foreground, unless it is the
/// Clone Stamp, which needs its source set and readable.
pub proof fn a_stroke_begins_for_the_first_reason_that_applies(f: BeginFacts)
    ensures
        !f.has_active ==> spec_stroke_start(f) == StrokeStart::Nothing,
        f.has_active && f.quick_mask ==> spec_stroke_start(f) == (StrokeStart::Swatch {
            target: StrokeTarget::QuickMask,
            swatch: if f.erasing { Swatch::Background } else { Swatch::Foreground },
        }),
        f.has_active && !f.quick_mask && !f.layer_found ==> spec_stroke_start(f) == StrokeStart::Nothing,
        f.has_active && !f.quick_mask && f.layer_found && f.locked ==> spec_stroke_start(f)
            == StrokeStart::Refuse(StrokeRefusal::Locked),
        f.has_active && !f.quick_mask && f.layer_found && !f.locked && f.edit_mask ==> spec_stroke_start(f)
            == (StrokeStart::Swatch {
            target: StrokeTarget::Mask,
            swatch: if f.erasing { Swatch::Background } else { Swatch::Foreground },
        }),
        f.has_active && !f.quick_mask && f.layer_found && !f.locked && !f.edit_mask && !f.has_pixels
            ==> spec_stroke_start(f) == StrokeStart::Refuse(StrokeRefusal::NotRaster),
        f.has_active && !f.quick_mask && f.layer_found && !f.locked && !f.edit_mask && f.has_pixels && f.clone
            && !f.has_anchor ==> spec_stroke_start(f) == StrokeStart::Refuse(StrokeRefusal::NoCloneSource),
        f.has_active && !f.quick_mask && f.layer_found && !f.locked && !f.edit_mask && f.has_pixels && f.clone
            && f.has_anchor && !f.source_ready ==> spec_stroke_start(f) == StrokeStart::Nothing,
{
}

/// How a stroke ends: an empty stroke, or none, records nothing; a Quick
/// Mask stroke is always one step; a mask stroke is one step unless it
/// missed the mask; a pixel stroke is one step only if it landed on the
/// layer and changed something, and an unchanged Clone Stamp stroke says
/// its source is outside the image.
pub proof fn a_stroke_is_one_step_only_when_it_did_something(f: EndFacts)
    ensures
        !f.stroking || f.empty ==> spec_stroke_end(f) == StrokeEnd::Drop,
        f.stroking && !f.empty && f.target == StrokeTarget::QuickMask ==> spec_stroke_end(f)
            == (StrokeEnd::Record { target: StrokeTarget::QuickMask, label: StepLabel::QuickMask }),
        f.stroking && !f.empty && f.target == StrokeTarget::Mask && f.outside ==> spec_stroke_end(f) == StrokeEnd::Drop,
        f.stroking && !f.empty && f.target == StrokeTarget::Mask && !f.outside ==> (spec_stroke_end(f)
            matches StrokeEnd::Record { target, .. } && target == StrokeTarget::Mask),
        f.stroking && !f.empty && f.target == StrokeTarget::Pixels && f.outside ==> spec_stroke_end(f) == StrokeEnd::Drop,
        f.stroking && !f.empty && f.target == StrokeTarget::Pixels && !f.outside && !f.changed ==> spec_stroke_end(f)
            == if f.tool == Tool::CloneStamp { StrokeEnd::NothingCloned } else { StrokeEnd::Drop },
        f.stroking && !f.empty && f.target == StrokeTarget::Pixels && !f.outside && f.changed ==> (spec_stroke_end(f)
            matches StrokeEnd::Record { target, .. } && target == StrokeTarget::Pixels),
        spec_stroke_end(f) matches StrokeEnd::Record { target, .. } ==> target == f.target,
{
}

/// A recorded step is named after the tool that made it: the Eraser,
/// Pencil and Clone Stamp by name, any other brush that erases as the
/// Eraser, and the rest as the Brush.
pub proof fn a_step_is_named_after_its_tool(f: EndFacts)
    requires
        f.target != StrokeTarget::QuickMask,
        spec_stroke_end(f) is Record,
    ensures
        spec_stroke_end(f) matches StrokeEnd::Record { label, .. } && label == (if f.tool == Tool::Eraser {
            StepLabel::Eraser
        } else if f.tool == Tool::Pencil {
            StepLabel::Pencil
        } else if f.tool == Tool::CloneStamp {
            StepLabel::CloneStamp
        } else if f.erasing {
            StepLabel::Eraser
        } else {
            StepLabel::Brush
        }),
{
}

} // verus!

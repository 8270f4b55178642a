//! The texts the status bar, the History panel and the notices show.

use vstd::prelude::*;
use crate::text::{dec, push_decimal};
use crate::units::{bytes_text, format_bytes};

verus! {

/// `"{w} x {h} px"`: the document's size.
pub fn size_status(width: u32, height: u32) -> (s: String)
    ensures
        s@ == dec(width as nat) + " x "@ + dec(height as nat) + " px"@,
{
    let mut s = String::new();
    push_decimal(&mut s, width as u64);
    s.append(" x ");
    push_decimal(&mut s, height as u64);
    s.append(" px");
    s
}

/// `"{n} layers"`.
pub fn layers_status(count: usize) -> (s: String)
    ensures
        s@ == dec(count as nat) + " layers"@,
{
    let mut s = String::new();
    push_decimal(&mut s, count as u64);
    s.append(" layers");
    s
}

/// `"sel {w} x {h}"`: the selection's bounds.
pub fn selection_status(width: u32, height: u32) -> (s: String)
    ensures
        s@ == "sel "@ + dec(width as nat) + " x "@ + dec(height as nat),
{
    let mut s = String::new();
    s.append("sel ");
    push_decimal(&mut s, width as u64);
    s.append(" x ");
    push_decimal(&mut s, height as u64);
    s
}

/// The note shown when the selection's outline is not the whole story:
/// nothing when every contour is drawn.
pub fn outline_note(dropped: usize) -> (r: Option<String>)
    ensures
        match r {
            Some(s) => dropped > 0 && s@ == "(outline simplified, "@ + dec(dropped as nat) + " hidden)"@,
            None => dropped == 0,
        },
{
    if dropped == 0 {
        return None;
    }
    let mut s = String::new();
    s.append("(outline simplified, ");
    push_decimal(&mut s, dropped as u64);
    s.append(" hidden)");
    Some(s)
}

/// `"GPU {bytes}"`: what the document holds in video memory.
pub fn gpu_status(bytes: u64) -> (s: String)
    ensures
        s@ == "GPU "@ + bytes_text(bytes as nat),
{
    let mut s = String::new();
    s.append("GPU ");
    let b = format_bytes(bytes);
    s.append(b.as_str());
    s
}

/// `""` for one, `"s"` for any other count.
pub open spec fn plural(n: nat) -> Seq<char> {
    if n == 1 { ""@ } else { "s"@ }
}

fn push_plural(s: &mut String, n: u64)
    ensures
        final(s)@ == old(s)@ + plural(n as nat),
{
    if n == 1 {
        s.append("");
    } else {
        s.append("s");
    }
}

/// The pictures behind the smart objects: nothing when there are none.
pub fn sources_status(bytes: u64) -> (r: Option<String>)
    ensures
        match r {
            Some(s) => bytes > 0 && s@ == "sources "@ + bytes_text(bytes as nat),
            None => bytes == 0,
        },
{
    if bytes == 0 {
        return None;
    }
    let mut s = String::new();
    s.append("sources ");
    let b = format_bytes(bytes);
    s.append(b.as_str());
    Some(s)
}

/// The hover text over the sources figure: how many pictures there are and
/// how many of them some layer still places.
pub fn sources_hover(count: usize, used: usize) -> (s: String)
    ensures
        s@ == dec(count as nat) + " picture"@ + plural(count as nat) + " behind the smart objects, "@
            + dec(used as nat) + " of which "@ + (if used == 1 { "is"@ } else { "are"@ }) + " placed"@,
{
    let mut s = String::new();
    push_decimal(&mut s, count as u64);
    s.append(" picture");
    push_plural(&mut s, count as u64);
    s.append(" behind the smart objects, ");
    push_decimal(&mut s, used as u64);
    s.append(" of which ");
    if used == 1 {
        s.append("is");
    } else {
        s.append("are");
    }
    s.append(" placed");
    s
}

/// What undo is holding, and how many of the oldest steps its budget has
/// already dropped: nothing when it holds nothing.
pub fn undo_status(bytes: u64, forgotten: usize) -> (r: Option<String>)
    ensures
        match r {
            Some(s) => bytes > 0 && s@ == "undo "@ + bytes_text(bytes as nat) + (if forgotten > 0 {
                " — "@ + dec(forgotten as nat) + " older step"@ + plural(forgotten as nat) + " dropped"@
            } else {
                ""@
            }),
            None => bytes == 0,
        },
{
    if bytes == 0 {
        return None;
    }
    let mut s = String::new();
    s.append("undo ");
    let b = format_bytes(bytes);
    s.append(b.as_str());
    if forgotten > 0 {
        s.append(" — ");
        push_decimal(&mut s, forgotten as u64);
        s.append(" older step");
        push_plural(&mut s, forgotten as u64);
        s.append(" dropped");
    } else {
        s.append("");
    }
    Some(s)
}

/// The warning for a document that does not fit in the GPU budget.
pub fn over_budget_status(needed: u64, budget: u64) -> (s: String)
    ensures
        s@ == "⚠ needs "@ + bytes_text(needed as nat) + " of "@ + bytes_text(budget as nat)
            + " GPU memory — canvas incomplete"@,
{
    let mut s = String::new();
    s.append("⚠ needs ");
    let n = format_bytes(needed);
    s.append(n.as_str());
    s.append(" of ");
    let b = format_bytes(budget);
    s.append(b.as_str());
    s.append(" GPU memory — canvas incomplete");
    s
}

/// `"{cursor} of {states}"`, under the History panel.
pub fn history_status(cursor: usize, states: usize) -> (s: String)
    ensures
        s@ == dec(cursor as nat) + " of "@ + dec(states as nat),
{
    let mut s = String::new();
    push_decimal(&mut s, cursor as u64);
    s.append(" of ");
    push_decimal(&mut s, states as u64);
    s
}

/// How the History panel shows one state: state 0 is the document as opened
/// or created, state `n` the document after the `n`th step.
#[derive(Debug, Clone, Copy, PartialEq, Eq, Structural)]
pub struct HistoryRow {
    /// It is the state the document is in.
    pub current: bool,
    /// It has been undone: still listed, but dimmed, so redo is discoverable.
    pub dimmed: bool,
    /// The History Brush paints back to it.
    pub brush_source: bool,
}

/// The row for `state`, with the document at state `cursor` and the History
/// Brush painting from state `marked`, if any.
pub fn history_row(state: usize, cursor: usize, marked: Option<usize>) -> (r: HistoryRow)
    ensures
        r.current == (state == cursor),
        r.dimmed == (state > cursor),
        r.brush_source == (marked == Some(state)),
{
    HistoryRow {
        current: state == cursor,
        dimmed: state > cursor,
        brush_source: match marked {
            Some(m) => m == state,
            None => false,
        },
    }
}

/// The History Brush's marker in front of a state, and its hover text.
pub fn brush_marker(on: bool) -> (r: (&'static str, &'static str))
    ensures
        r.0@ == if on { "◉"@ } else { "○"@ },
        r.1@ == if on {
            "The History Brush paints back to this state"@
        } else {
            "Paint back to this state with the History Brush"@
        },
{
    if on {
        ("◉", "The History Brush paints back to this state")
    } else {
        ("○", "Paint back to this state with the History Brush")
    }
}

/// The notice after opening a file; the layer count only when there is more
/// than one.
pub fn opened_notice(name: &str, width: u32, height: u32, layers: usize) -> (s: String)
    ensures
        s@ == "Opened "@ + name@ + " ("@ + dec(width as nat) + " x "@ + dec(height as nat) + (if layers > 1 {
            ", "@ + dec(layers as nat) + " layers)"@
        } else {
            ")"@
        }),
{
    let mut s = String::new();
    s.append("Opened ");
    s.append(name);
    s.append(" (");
    push_decimal(&mut s, width as u64);
    s.append(" x ");
    push_decimal(&mut s, height as u64);
    if layers > 1 {
        s.append(", ");
        push_decimal(&mut s, layers as u64);
        s.append(" layers)");
    } else {
        s.append(")");
    }
    s
}

/// The notice after saving. A flat format keeps only the composite, and a
/// stack of more than one layer says so rather than quietly losing it.
pub fn saved_notice(name: &str, layered_format: bool, layers: usize) -> (s: String)
    ensures
        s@ == if !layered_format && layers > 1 {
            "Saved "@ + name@ + " — flattened. Save as .cshop or .psd to keep the "@ + dec(layers as nat)
                + " layers."@
        } else {
            "Saved "@ + name@
        },
{
    let mut s = String::new();
    s.append("Saved ");
    s.append(name);
    if !layered_format && layers > 1 {
        s.append(" — flattened. Save as .cshop or .psd to keep the ");
        push_decimal(&mut s, layers as u64);
        s.append(" layers.");
    }
    s
}

/// `"Quick Mask on"` or `"Quick Mask off"`.
pub fn quick_mask_notice(on: bool) -> (s: String)
    ensures
        s@ == "Quick Mask "@ + (if on { "on"@ } else { "off"@ }),
{
    let mut s = String::new();
    s.append("Quick Mask ");
    if on {
        s.append("on");
    } else {
        s.append("off");
    }
    s
}

/// What the noise-removal window says it is about to clean: the whole
/// layer when the region starts at its corner, otherwise the selection.
pub fn region_label(x0: u32, y0: u32, width: u32, height: u32) -> (s: String)
    ensures
        s@ == (if x0 == 0 && y0 == 0 { "The whole layer, "@ } else { "The selection, "@ }) + dec(width as nat)
            + "x"@ + dec(height as nat),
{
    let mut s = String::new();
    if x0 == 0 && y0 == 0 {
        s.append("The whole layer, ");
    } else {
        s.append("The selection, ");
    }
    push_decimal(&mut s, width as u64);
    s.append("x");
    push_decimal(&mut s, height as u64);
    s
}

} // verus!

use cshop_ui::canvas::Tool;
use cshop_ui::strokes::{
    refusal_text, step_label_text, stroke_end, stroke_start, BeginFacts, EndFacts, StepLabel, StrokeEnd,
    StrokeRefusal, StrokeStart, StrokeTarget, Swatch,
};

fn begin() -> BeginFacts {
    BeginFacts {
        has_active: true,
        quick_mask: false,
        layer_found: true,
        locked: false,
        edit_mask: false,
        has_pixels: true,
        clone: false,
        has_anchor: false,
        source_ready: true,
        aligned: false,
        has_offset: false,
        erasing: false,
    }
}

fn end(target: StrokeTarget, tool: Tool) -> EndFacts {
    EndFacts { stroking: true, target, tool, erasing: false, empty: false, outside: false, changed: true }
}

#[test]
fn a_stroke_paints_where_the_edit_target_says() {
    assert_eq!(stroke_start(begin()), StrokeStart::Solid);
    assert_eq!(
        stroke_start(BeginFacts { edit_mask: true, erasing: true, ..begin() }),
        StrokeStart::Swatch { target: StrokeTarget::Mask, swatch: Swatch::Background }
    );
    assert_eq!(
        stroke_start(BeginFacts { quick_mask: true, locked: true, ..begin() }),
        StrokeStart::Swatch { target: StrokeTarget::QuickMask, swatch: Swatch::Foreground }
    );
    assert_eq!(stroke_start(BeginFacts { has_active: false, ..begin() }), StrokeStart::Nothing);
}

#[test]
fn locked_and_pixel_less_layers_refuse_the_brush() {
    let locked = stroke_start(BeginFacts { locked: true, ..begin() });
    assert_eq!(locked, StrokeStart::Refuse(StrokeRefusal::Locked));
    assert_eq!(refusal_text(StrokeRefusal::Locked), "The layer is locked");
    let group = stroke_start(BeginFacts { has_pixels: false, ..begin() });
    assert_eq!(group, StrokeStart::Refuse(StrokeRefusal::NotRaster));
    assert_eq!(refusal_text(StrokeRefusal::NotRaster), "Only raster layers can be painted on");
}

#[test]
fn the_clone_stamp_needs_a_source_and_keeps_an_aligned_offset() {
    let clone = BeginFacts { clone: true, ..begin() };
    assert_eq!(stroke_start(clone), StrokeStart::Refuse(StrokeRefusal::NoCloneSource));
    assert_eq!(refusal_text(StrokeRefusal::NoCloneSource), "Alt-click to set the clone source first");
    let anchored = BeginFacts { has_anchor: true, ..clone };
    assert_eq!(stroke_start(anchored), StrokeStart::Clone { keep_offset: false });
    assert_eq!(
        stroke_start(BeginFacts { aligned: true, has_offset: true, ..anchored }),
        StrokeStart::Clone { keep_offset: true }
    );
    assert_eq!(stroke_start(BeginFacts { source_ready: false, ..anchored }), StrokeStart::Nothing);
}

#[test]
fn a_stroke_is_one_step_only_if_it_changed_something() {
    assert_eq!(
        stroke_end(end(StrokeTarget::Pixels, Tool::Brush)),
        StrokeEnd::Record { target: StrokeTarget::Pixels, label: StepLabel::Brush }
    );
    assert_eq!(stroke_end(EndFacts { changed: false, ..end(StrokeTarget::Pixels, Tool::Brush) }), StrokeEnd::Drop);
    assert_eq!(
        stroke_end(EndFacts { changed: false, ..end(StrokeTarget::Pixels, Tool::CloneStamp) }),
        StrokeEnd::NothingCloned
    );
    assert_eq!(stroke_end(EndFacts { empty: true, ..end(StrokeTarget::QuickMask, Tool::Brush) }), StrokeEnd::Drop);
    assert_eq!(stroke_end(EndFacts { outside: true, ..end(StrokeTarget::Mask, Tool::Brush) }), StrokeEnd::Drop);
    assert_eq!(
        stroke_end(EndFacts { changed: false, ..end(StrokeTarget::Mask, Tool::Pencil) }),
        StrokeEnd::Record { target: StrokeTarget::Mask, label: StepLabel::Pencil }
    );
    assert_eq!(
        stroke_end(end(StrokeTarget::QuickMask, Tool::Eraser)),
        StrokeEnd::Record { target: StrokeTarget::QuickMask, label: StepLabel::QuickMask }
    );
}

#[test]
fn steps_are_named_after_the_tool() {
    let erasing_brush = EndFacts { erasing: true, ..end(StrokeTarget::Pixels, Tool::Brush) };
    assert_eq!(stroke_end(erasing_brush), StrokeEnd::Record { target: StrokeTarget::Pixels, label: StepLabel::Eraser });
    assert_eq!(step_label_text(StepLabel::Eraser), "Eraser Tool");
    assert_eq!(step_label_text(StepLabel::CloneStamp), "Clone Stamp");
    assert_eq!(step_label_text(StepLabel::Brush), "Brush Tool");
    assert_eq!(step_label_text(StepLabel::QuickMask), "Quick Mask");
}

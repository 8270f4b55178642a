use cshop_ui::canvas::{
    canvas_step, paint_mode_exec, wheel_step, WheelCommand, WheelEvent, CanvasCommand as C, CanvasDialog, CanvasState, DragKind, ModeChoice, PaintMode,
    PointerEvent, RetouchKind, StrokeSource, TextHit, Tool,
};

fn state(tool: Tool) -> CanvasState {
    CanvasState {
        has_doc: true,
        dialog: CanvasDialog::Closed,
        tool,
        tool_implemented: true,
        retouch: None,
        soak: false,
        brush_filter: false,
        space_held: false,
        middle_drag: false,
        transforming: false,
        painting: false,
        alt: false,
        shift: false,
        replace_mode: false,
        has_drag_start: false,
        drag: DragKind::NoDrag,
        polygon_closes: false,
        pen_active: false,
        pen_would_close: false,
        text_hit: TextHit::Nothing,
    }
}

fn quiet() -> PointerEvent {
    PointerEvent {
        on_canvas: true,
        clicked: false,
        double_clicked: false,
        drag_started: false,
        dragged: false,
        drag_stopped: false,
        pressed: false,
        released: false,
    }
}

fn click() -> PointerEvent {
    PointerEvent { clicked: true, pressed: true, released: true, ..quiet() }
}

fn drag() -> PointerEvent {
    PointerEvent { dragged: true, ..quiet() }
}

#[test]
fn no_document_means_no_commands() {
    let s = CanvasState { has_doc: false, ..state(Tool::Brush) };
    assert!(canvas_step(s, click()).is_empty());
}

#[test]
fn colour_range_and_segment_take_clicks_while_open() {
    let s = CanvasState { dialog: CanvasDialog::ColorRange, alt: true, ..state(Tool::Brush) };
    assert_eq!(canvas_step(s, click()), vec![C::SampleColour { adding: true }]);
    assert!(canvas_step(s, drag()).is_empty());
    let s = CanvasState { dialog: CanvasDialog::Segment { busy: false }, ..state(Tool::Brush) };
    assert_eq!(canvas_step(s, click()), vec![C::SegmentHint { wanted: true }]);
    let s = CanvasState { dialog: CanvasDialog::Segment { busy: true }, ..state(Tool::Brush) };
    assert!(canvas_step(s, click()).is_empty());
}

#[test]
fn space_the_hand_and_the_middle_button_pan() {
    for s in [
        CanvasState { space_held: true, ..state(Tool::Brush) },
        state(Tool::Hand),
        CanvasState { middle_drag: true, dialog: CanvasDialog::Other, ..state(Tool::Lasso) },
    ] {
        assert_eq!(canvas_step(s, drag()), vec![C::Pan]);
        assert!(canvas_step(s, click()).is_empty());
    }
}

#[test]
fn another_dialog_stops_the_tools() {
    let s = CanvasState { dialog: CanvasDialog::Other, ..state(Tool::Brush) };
    assert!(canvas_step(s, click()).is_empty());
    assert!(canvas_step(s, drag()).is_empty());
}

#[test]
fn a_transform_and_the_crop_take_every_event() {
    let s = CanvasState { transforming: true, ..state(Tool::Brush) };
    assert_eq!(canvas_step(s, quiet()), vec![C::Transform]);
    assert_eq!(canvas_step(state(Tool::Crop), drag()), vec![C::Crop]);
}

#[test]
fn a_brush_stroke_begins_continues_and_ends() {
    let start = PointerEvent { drag_started: true, dragged: true, ..quiet() };
    assert_eq!(
        canvas_step(state(Tool::Brush), start),
        vec![C::BeginStroke { mode: PaintMode::Paint, source: StrokeSource::Colour { clone: false } }]
    );
    let painting = CanvasState { painting: true, ..state(Tool::Brush) };
    assert_eq!(canvas_step(painting, drag()), vec![C::ContinueStroke]);
    let stop = PointerEvent { drag_stopped: true, released: true, ..quiet() };
    assert_eq!(canvas_step(painting, stop), vec![C::EndStroke]);
    let off = PointerEvent { on_canvas: false, released: true, ..quiet() };
    assert_eq!(canvas_step(painting, off), vec![C::EndStroke]);
    assert_eq!(
        canvas_step(state(Tool::Eraser), click()),
        vec![C::BeginStroke { mode: PaintMode::Erase, source: StrokeSource::Colour { clone: false } }, C::EndStroke]
    );
}

#[test]
fn alt_sets_the_clone_anchor_and_inverts_retouching() {
    let s = CanvasState { alt: true, ..state(Tool::CloneStamp) };
    assert_eq!(canvas_step(s, click()), vec![C::SetCloneAnchor]);
    let dodge = CanvasState { retouch: Some(RetouchKind::Dodge), alt: true, ..state(Tool::Dodge) };
    assert_eq!(paint_mode_exec(dodge), PaintMode::Retouch { kind: RetouchKind::Burn, soak: false });
    let sponge = CanvasState { retouch: Some(RetouchKind::Sponge), alt: true, ..state(Tool::Sponge) };
    assert_eq!(paint_mode_exec(sponge), PaintMode::Retouch { kind: RetouchKind::Sponge, soak: true });
    assert_eq!(canvas_step(state(Tool::Smudge), PointerEvent { drag_started: true, ..quiet() }), vec![C::BeginSmudge]);
    assert_eq!(
        canvas_step(state(Tool::HealingBrush), PointerEvent { drag_started: true, ..quiet() }),
        vec![C::BeginStroke { mode: PaintMode::Paint, source: StrokeSource::Heal }]
    );
}

#[test]
fn marquee_drags_follow_the_modifiers_and_a_click_deselects() {
    let s = CanvasState { replace_mode: true, shift: true, ..state(Tool::EllipticalMarquee) };
    assert_eq!(
        canvas_step(s, PointerEvent { drag_started: true, ..quiet() }),
        vec![C::MarqueeStart { ellipse: true, mode: ModeChoice::FromModifiers { shift: true, alt: false } }]
    );
    assert_eq!(canvas_step(s, drag()), vec![C::MarqueeUpdate { square: true, from_centre: false }]);
    assert_eq!(canvas_step(s, PointerEvent { drag_stopped: true, ..quiet() }), vec![C::FinishSelection]);
    assert_eq!(canvas_step(state(Tool::RectangularMarquee), click()), vec![C::Deselect]);
}

#[test]
fn the_polygon_lasso_adds_points_until_it_closes() {
    let s = state(Tool::PolygonalLasso);
    assert_eq!(canvas_step(s, click()), vec![C::PolygonStart { mode: ModeChoice::Chosen }, C::PolygonCursor]);
    let open = CanvasState { drag: DragKind::Polygon, ..s };
    assert_eq!(canvas_step(open, click()), vec![C::PolygonAdd, C::PolygonCursor]);
    assert_eq!(canvas_step(open, quiet()), vec![C::PolygonCursor]);
    let closing = CanvasState { polygon_closes: true, ..open };
    assert_eq!(canvas_step(closing, click()), vec![C::FinishSelection]);
    assert_eq!(canvas_step(open, PointerEvent { double_clicked: true, ..click() }), vec![C::FinishSelection]);
}

#[test]
fn type_clicks_edit_what_they_land_on() {
    let s = state(Tool::Text);
    assert_eq!(canvas_step(s, click()), vec![C::ClearDragStart, C::BeginPointText]);
    let on_layer = CanvasState { text_hit: TextHit::TextLayer, ..s };
    assert_eq!(canvas_step(on_layer, click()), vec![C::ClearDragStart, C::EditTextLayer]);
    let editing = CanvasState { text_hit: TextHit::Editing, ..s };
    assert_eq!(canvas_step(editing, click()), vec![C::ClearDragStart, C::CaretAt]);
    assert_eq!(canvas_step(s, PointerEvent { drag_stopped: true, ..quiet() }), vec![C::BeginTextBox]);
}

#[test]
fn the_pen_adds_anchors_and_closes_on_the_first() {
    let s = state(Tool::Pen);
    assert_eq!(canvas_step(s, click()), vec![C::AddAnchor, C::PenRelease, C::PenCursor]);
    let closing = CanvasState { pen_would_close: true, pen_active: true, ..s };
    assert_eq!(canvas_step(closing, click()), vec![C::FinishPath, C::PenRelease, C::PenCursor]);
    assert!(canvas_step(s, quiet()).is_empty());
}

#[test]
fn other_tools_do_their_one_thing() {
    assert_eq!(canvas_step(state(Tool::Zoom), click()), vec![C::ZoomStep { zoom_in: true }]);
    assert_eq!(
        canvas_step(CanvasState { alt: true, ..state(Tool::Zoom) }, click()),
        vec![C::ZoomStep { zoom_in: false }]
    );
    assert_eq!(canvas_step(state(Tool::Eyedropper), drag()), vec![C::PickColour]);
    assert_eq!(canvas_step(state(Tool::PaintBucket), click()), vec![C::BucketFill]);
    assert_eq!(canvas_step(state(Tool::Move), drag()), vec![C::MoveLayer]);
    assert_eq!(canvas_step(state(Tool::MagicWand), click()), vec![C::MagicWand { mode: ModeChoice::Chosen }]);
    let shape_end = PointerEvent { drag_stopped: true, ..quiet() };
    let shaping = CanvasState { has_drag_start: true, alt: true, ..state(Tool::Shape) };
    assert_eq!(canvas_step(shaping, shape_end), vec![C::DrawShape { from_centre: true, constrain: false }]);
    let unready = CanvasState { tool_implemented: false, ..state(Tool::Other) };
    assert_eq!(canvas_step(unready, click()), vec![C::AnnounceTool]);
}

#[test]
fn the_wheel_zooms_resizes_or_scrolls() {
    let w = WheelEvent { hovered: true, pinched: false, scrolled: true, command: false, alt: false, shift: false };
    let s = state(Tool::Brush);
    assert_eq!(wheel_step(s, w), WheelCommand::Scroll { swap_axes: false });
    assert_eq!(wheel_step(s, WheelEvent { shift: true, ..w }), WheelCommand::Scroll { swap_axes: true });
    assert_eq!(wheel_step(s, WheelEvent { alt: true, ..w }), WheelCommand::BrushSize);
    assert_eq!(wheel_step(s, WheelEvent { command: true, alt: true, ..w }), WheelCommand::WheelZoom);
    assert_eq!(wheel_step(s, WheelEvent { pinched: true, command: true, ..w }), WheelCommand::PinchZoom);
    assert_eq!(wheel_step(s, WheelEvent { hovered: false, ..w }), WheelCommand::Ignore);
    assert_eq!(wheel_step(s, WheelEvent { scrolled: false, ..w }), WheelCommand::Ignore);
    let other = CanvasState { dialog: CanvasDialog::Other, ..s };
    assert_eq!(wheel_step(other, w), WheelCommand::Scroll { swap_axes: false });
    let range = CanvasState { dialog: CanvasDialog::ColorRange, ..s };
    assert_eq!(wheel_step(range, w), WheelCommand::Ignore);
}

use cshop_ui::canvas::Tool;
use cshop_ui::commands::{offers_resize_edges, Anchor, ModifyKind, TransformPreset};
use cshop_ui::dialogs::{BackgroundChoice, PickerTarget, Rgba8};
use cshop_ui::layers::{LayerId, LayerPos};
use cshop_ui::menu_bar::{
    entry_action, timeline_label, grid_label, guides_label, menu_bar_state, panels_label, quick_mask_label, rulers_label,
    snap_label, MenuEntry, MenuFacts,
};
use cshop_ui::shell::{
    run, Action, ActiveFacts, DialogKind, DocFacts, EditTarget, Effect, NewDocRequest, Notice, ShellState, Task,
    Zoom,
};

type A = Action<String>;
type E = Effect<String>;

fn shell(docs: usize, active: Option<usize>) -> ShellState {
    ShellState {
        docs,
        active,
        foreground: Rgba8 { r: 10, g: 20, b: 30, a: 255 },
        background: Rgba8 { r: 200, g: 210, b: 220, a: 255 },
        brush_rung: 9,
        show_panels: true,
        show_rulers: false,
        show_guides: true,
        show_grid: false,
        snap: true,
        quick_mask: false,
        untitled_count: 0,
        pending_new: None,
        tool: Tool::Brush,
        last_filter: false,
        quit: false,
    }
}

fn layer(index: usize, siblings: usize, row: Option<usize>) -> ActiveFacts {
    ActiveFacts {
        id: LayerId(7),
        pos: LayerPos { parent: None, index },
        siblings,
        row,
        is_group: false,
        clipping: false,
        movable: true,
        has_mask: false,
        mask_enabled: false,
        is_vector: false,
        has_pixels: true,
    }
}

fn doc(active: Option<ActiveFacts>, layer_count: usize) -> DocFacts {
    DocFacts {
        layer_count,
        root_len: layer_count,
        rows: layer_count,
        active,
        has_selection: false,
        can_reselect: false,
        has_path: false,
        channels: 0,
        width: 640,
        height: 480,
    }
}

#[test]
fn swapping_colours_exchanges_them_and_asks_for_nothing() {
    let s = shell(1, Some(0));
    let (next, effects) = run(s, Some(doc(None, 1)), A::SwapColors);
    assert_eq!(next.foreground, Rgba8 { r: 200, g: 210, b: 220, a: 255 });
    assert_eq!(next.background, Rgba8 { r: 10, g: 20, b: 30, a: 255 });
    assert!(effects.is_empty());
    let (next, _) = run(next, Some(doc(None, 1)), A::ResetColors);
    assert_eq!(next.foreground, Rgba8 { r: 0, g: 0, b: 0, a: 255 });
    assert_eq!(next.background, Rgba8 { r: 255, g: 255, b: 255, a: 255 });
}

#[test]
fn closing_a_tab_removes_it_and_redraws_the_one_focused_after() {
    let (next, effects) = run(shell(3, Some(2)), Some(doc(None, 1)), A::CloseDocument(0));
    assert_eq!((next.docs, next.active), (2, Some(1)));
    assert_eq!(effects, vec![E::RemoveDocument(0), E::Invalidate(1)]);
    let (next, effects) = run(shell(1, Some(0)), Some(doc(None, 1)), A::CloseDocument(usize::MAX));
    assert_eq!((next.docs, next.active), (0, None));
    assert_eq!(effects, vec![E::RemoveDocument(0)]);
    let (next, effects) = run(shell(0, None), None, A::CloseDocument(usize::MAX));
    assert_eq!((next.docs, next.active), (0, None));
    assert!(effects.is_empty());
}

#[test]
fn a_confirmed_new_dialog_names_the_document() {
    let mut s = shell(0, None);
    s.pending_new = Some(NewDocRequest {
        name: "  ".to_string(),
        width: 800,
        height: 600,
        background: BackgroundChoice::Transparent,
    });
    let (next, effects) = run(s, None, A::NewDocument);
    assert_eq!(next.untitled_count, 1);
    assert_eq!(next.pending_new, None);
    assert_eq!(
        effects,
        vec![E::CreateDocument {
            name: "Untitled-1".to_string(),
            width: 800,
            height: 600,
            background: BackgroundChoice::Transparent,
        }]
    );
    let (next, effects) = run(next, None, A::NewDocument);
    assert_eq!(next.untitled_count, 1);
    assert_eq!(effects, vec![E::ShowDialog(DialogKind::NewDocument)]);
}

#[test]
fn delete_layer_keeps_the_last_layer() {
    let one = Some(doc(Some(layer(0, 1, Some(0))), 1));
    assert!(run(shell(1, Some(0)), one, A::DeleteLayer).1.is_empty());
    let two = Some(doc(Some(layer(1, 2, Some(0))), 2));
    assert_eq!(run(shell(1, Some(0)), two, A::DeleteLayer).1, vec![E::DeleteLayer(LayerId(7))]);
    assert!(run(shell(1, Some(0)), Some(doc(None, 2)), A::DeleteLayer).1.is_empty());
}

#[test]
fn merge_down_needs_a_layer_below() {
    let bottom = Some(doc(Some(layer(0, 2, Some(1))), 2));
    assert!(run(shell(1, Some(0)), bottom, A::MergeDown).1.is_empty());
    let top = Some(doc(Some(layer(1, 2, Some(0))), 2));
    assert_eq!(run(shell(1, Some(0)), top, A::MergeDown).1, vec![E::MergeDown(LayerId(7))]);
}

#[test]
fn reordering_and_stepping_the_active_layer() {
    let d = Some(doc(Some(layer(1, 4, Some(2))), 4));
    assert_eq!(
        run(shell(1, Some(0)), d, A::ReorderActiveLayer(1)).1,
        vec![E::MoveLayer(LayerId(7), LayerPos { parent: None, index: 3 })]
    );
    assert_eq!(
        run(shell(1, Some(0)), d, A::ReorderActiveLayer(i32::MIN)).1,
        vec![E::MoveLayer(LayerId(7), LayerPos { parent: None, index: 0 })]
    );
    assert_eq!(run(shell(1, Some(0)), d, A::StepActiveLayer(1)).1, vec![E::SelectRow(1)]);
    assert_eq!(run(shell(1, Some(0)), d, A::StepActiveLayer(-5)).1, vec![E::SelectRow(3)]);
    let mut pinned = layer(1, 4, None);
    pinned.movable = false;
    let d = Some(doc(Some(pinned), 4));
    assert!(run(shell(1, Some(0)), d, A::StepActiveLayer(1)).1.is_empty());
    assert!(run(shell(1, Some(0)), d, A::NudgeLayer(1, 0)).1.is_empty());
}

#[test]
fn a_new_layer_action_adds_above_the_active_one() {
    let d = Some(doc(Some(layer(1, 4, Some(2))), 4));
    assert_eq!(
        run(shell(1, Some(0)), d, A::NewLayer).1,
        vec![E::AddLayer { group: false, at: LayerPos { parent: None, index: 2 } }]
    );
    assert_eq!(
        run(shell(1, Some(0)), Some(doc(None, 3)), A::NewGroup).1,
        vec![E::AddLayer { group: true, at: LayerPos { parent: None, index: 3 } }]
    );
    assert!(run(shell(0, None), None, A::NewLayer).1.is_empty());
}

#[test]
fn quick_mask_starts_from_everything_when_nothing_is_selected() {
    let (next, effects) = run(shell(1, Some(0)), Some(doc(None, 1)), A::ToggleQuickMask);
    assert!(next.quick_mask);
    assert_eq!(effects, vec![E::SelectAllQuietly, E::Notify(Notice::QuickMask(true))]);
    let (next, effects) = run(next, Some(doc(None, 1)), A::ToggleQuickMask);
    assert!(!next.quick_mask);
    assert_eq!(effects, vec![E::Notify(Notice::QuickMask(false))]);
}

#[test]
fn the_bracket_keys_step_the_brush() {
    let (next, effects) = run(shell(0, None), None, A::StepBrushSize(1));
    assert_eq!(next.brush_rung, 10);
    assert_eq!(effects, vec![E::SetBrushSize(20)]);
    let (next, effects) = run(next, None, A::StepBrushSize(-100));
    assert_eq!(next.brush_rung, 0);
    assert_eq!(effects, vec![E::SetBrushSize(1)]);
}

#[test]
fn save_asks_where_when_the_document_has_no_file() {
    let mut d = doc(None, 1);
    assert_eq!(run(shell(1, Some(0)), Some(d), A::Save).1, vec![E::ShowDialog(DialogKind::SaveAs)]);
    d.has_path = true;
    assert_eq!(run(shell(1, Some(0)), Some(d), A::Save).1, vec![E::SaveInPlace]);
    assert!(run(shell(0, None), None, A::Save).1.is_empty());
    assert_eq!(
        run(shell(1, Some(0)), Some(d), A::SavePath { path: "/tmp/a.png".to_string(), deep: true }).1,
        vec![E::SaveTo { path: "/tmp/a.png".to_string(), deep: true }]
    );
}

#[test]
fn selection_commands_need_a_selection() {
    let mut d = doc(None, 1);
    assert!(run(shell(1, Some(0)), Some(d), A::Deselect).1.is_empty());
    assert_eq!(run(shell(1, Some(0)), Some(d), A::CropToSelection).1, vec![E::Notify(Notice::NothingSelected)]);
    assert_eq!(run(shell(1, Some(0)), Some(d), A::Reselect).1, vec![E::Notify(Notice::NoSelectionToRestore)]);
    d.has_selection = true;
    d.can_reselect = true;
    assert_eq!(run(shell(1, Some(0)), Some(d), A::Deselect).1, vec![E::Deselect]);
    assert_eq!(run(shell(1, Some(0)), Some(d), A::CropToSelection).1, vec![E::CropToSelection]);
    assert_eq!(run(shell(1, Some(0)), Some(d), A::Reselect).1, vec![E::Reselect]);
}

#[test]
fn fills_use_the_swatches() {
    let d = Some(doc(None, 1));
    assert_eq!(
        run(shell(1, Some(0)), d, A::FillSwatch { background: true, preserve_transparency: true }).1,
        vec![E::Fill { color: Rgba8 { r: 200, g: 210, b: 220, a: 255 }, preserve_transparency: true }]
    );
    assert_eq!(
        run(shell(1, Some(0)), d, A::ClearLayer).1,
        vec![E::Fill { color: Rgba8 { r: 0, g: 0, b: 0, a: 0 }, preserve_transparency: false }]
    );
    let (next, _) = run(shell(1, Some(0)), d, A::SetColor(PickerTarget::Background, Rgba8 { r: 1, g: 2, b: 3, a: 4 }));
    assert_eq!(next.background, Rgba8 { r: 1, g: 2, b: 3, a: 4 });
    assert_eq!(run(shell(1, Some(0)), d, A::ZoomFit).1, vec![E::Zoom(Zoom::Fit)]);
    assert_eq!(
        run(shell(1, Some(0)), d, A::TransformPreset(TransformPreset::Rotate180)).1,
        vec![E::TransformPreset(TransformPreset::Rotate180)]
    );
    assert_eq!(
        run(shell(1, Some(0)), d, A::ShowModifyDialog(ModifyKind::Border)).1,
        vec![E::ShowDialog(DialogKind::Modify(ModifyKind::Border))]
    );
}

fn facts(has_doc: bool) -> MenuFacts {
    MenuFacts {
        has_doc,
        can_paste: false,
        can_undo: false,
        can_redo: false,
        has_selection: false,
        can_reselect: false,
        path_anchors: 0,
        has_last_filter: false,
        recent: 0,
        quick_mask: false,
        show_panels: true,
        has_mask: false,
        has_pixels: has_doc,
        is_smart: false,
        has_style: false,
        rendered: false,
        several_layers: false,
        animated: false,
    }
}

#[test]
fn the_menu_bar_greys_out_what_needs_a_document() {
    let m = menu_bar_state(facts(false));
    assert!(!m.save && !m.close && !m.cut && !m.copy && !m.paste && !m.layer && !m.view);
    assert!(!m.open_recent && !m.crop_to_selection && !m.undo);
    let mut f = facts(true);
    f.can_paste = true;
    f.recent = 2;
    f.path_anchors = 3;
    let m = menu_bar_state(f);
    assert!(m.save && m.close && m.cut && m.paste && m.paste_in_place && m.layer && m.view);
    assert!(m.open_recent && m.selection_from_path && !m.deselect && !m.repeat_filter);
    f.has_selection = true;
    f.has_last_filter = true;
    let m = menu_bar_state(f);
    assert!(m.deselect && m.crop_to_selection && m.selection_commands && m.repeat_filter);
    assert_eq!(quick_mask_label(true), "Exit Quick Mask");
    assert_eq!(quick_mask_label(false), "Edit in Quick Mask");
    assert_eq!(panels_label(true), "Hide Panels");
    assert_eq!(panels_label(false), "Show Panels");
}

#[test]
fn each_entry_queues_its_action() {
    assert_eq!(entry_action::<String>(MenuEntry::Close), A::CloseDocument(usize::MAX));
    assert_eq!(entry_action::<String>(MenuEntry::New), A::NewDocument);
    assert_eq!(
        entry_action::<String>(MenuEntry::FillBackground),
        A::FillSwatch { background: true, preserve_transparency: false }
    );
    assert_eq!(entry_action::<String>(MenuEntry::FreeTransform), A::BeginTransform);
    assert_eq!(entry_action::<String>(MenuEntry::Feather), A::ShowModifyDialog(ModifyKind::Feather));
    // Without a document, a greyed entry does nothing when run anyway.
    for e in [MenuEntry::Save, MenuEntry::Close, MenuEntry::Cut, MenuEntry::DeleteLayer, MenuEntry::ZoomIn] {
        assert!(run(shell(0, None), None, entry_action::<String>(e)).1.is_empty());
    }
}

#[test]
fn the_view_switches_flip_and_name_what_they_will_do() {
    let (next, effects) = run(shell(0, None), None, A::ToggleRulers);
    assert!(next.show_rulers && effects.is_empty());
    let (next, _) = run(next, None, A::ToggleGuides);
    assert!(!next.show_guides);
    let (next, _) = run(next, None, A::ToggleGrid);
    assert!(next.show_grid);
    let (next, _) = run(next, None, A::ToggleSnap);
    assert!(!next.snap);
    let (next, _) = run(next, None, A::TogglePanels);
    assert!(!next.show_panels);
    assert_eq!(entry_action::<String>(MenuEntry::Grid), A::ToggleGrid);
    assert_eq!(rulers_label(true), "Hide Rulers");
    assert_eq!(rulers_label(false), "Rulers");
    assert_eq!(guides_label(false), "Show Guides");
    assert_eq!(grid_label(true), "Hide Grid");
    assert_eq!(snap_label(true), "Turn Snapping Off");
    assert_eq!(snap_label(false), "Snap to Guides");
}

#[test]
fn mask_commands_follow_whether_the_layer_has_one() {
    let plain = Some(doc(Some(layer(0, 1, Some(0))), 1));
    assert_eq!(
        run(shell(1, Some(0)), plain, A::AddLayerMask { hide_all: true }).1,
        vec![E::AddMask { from_selection: false, invert: false, hide_all: true }]
    );
    assert_eq!(
        run(shell(1, Some(0)), plain, A::AddLayerMaskFromSelection { invert: true }).1,
        vec![E::Notify(Notice::NothingSelected)]
    );
    assert_eq!(run(shell(1, Some(0)), plain, A::ApplyLayerMask).1, vec![E::Notify(Notice::NoMask)]);
    assert!(run(shell(1, Some(0)), plain, A::ToggleMaskEnabled).1.is_empty());
    let mut selected = doc(Some(layer(0, 1, Some(0))), 1);
    selected.has_selection = true;
    assert_eq!(
        run(shell(1, Some(0)), Some(selected), A::AddLayerMaskFromSelection { invert: true }).1,
        vec![E::AddMask { from_selection: true, invert: true, hide_all: false }]
    );
    let mut masked = layer(0, 1, Some(0));
    masked.has_mask = true;
    masked.mask_enabled = true;
    let m = Some(doc(Some(masked), 1));
    assert_eq!(run(shell(1, Some(0)), m, A::AddLayerMask { hide_all: false }).1, vec![E::Notify(Notice::AlreadyMasked)]);
    assert_eq!(run(shell(1, Some(0)), m, A::DeleteLayerMask).1, vec![E::RemoveMask { apply: false }]);
    assert_eq!(run(shell(1, Some(0)), m, A::ApplyLayerMask).1, vec![E::RemoveMask { apply: true }]);
    assert_eq!(run(shell(1, Some(0)), m, A::ToggleMaskEnabled).1, vec![E::SetMaskEnabled(LayerId(7), false)]);
    assert_eq!(run(shell(1, Some(0)), m, A::SetEditTarget(EditTarget::Mask)).1, vec![E::SetEditTarget(EditTarget::Mask)]);
}

#[test]
fn more_commands_reach_the_document() {
    let d = Some(doc(Some(layer(0, 1, Some(0))), 1));
    assert_eq!(run(shell(1, Some(0)), d, A::RasterizeLayer).1, vec![E::CommitText, E::Notify(Notice::NotVector)]);
    let mut v = layer(0, 1, Some(0));
    v.is_vector = true;
    assert_eq!(
        run(shell(1, Some(0)), Some(doc(Some(v), 1)), A::RasterizeLayer).1,
        vec![E::CommitText, E::Rasterize(LayerId(7))]
    );
    assert_eq!(run(shell(0, None), None, A::RasterizeLayer).1, vec![E::CommitText]);
    assert_eq!(run(shell(1, Some(0)), d, A::RenameLayer(LayerId(3))).1, vec![E::ShowRename(LayerId(3))]);
    assert_eq!(run(shell(1, Some(0)), d, A::SimilarSelection).1, vec![E::Grow { similar: true }]);
    assert_eq!(run(shell(1, Some(0)), d, A::RepeatLastFilter).1, vec![E::Notify(Notice::NoFilterYet)]);
    let mut s = shell(1, Some(0));
    s.last_filter = true;
    assert_eq!(run(s, d, A::RepeatLastFilter).1, vec![E::ApplyLastFilter]);
    assert_eq!(run(shell(1, Some(0)), d, A::SaveSelectionAsChannel).1, vec![E::Notify(Notice::NothingSelected)]);
    let mut c = doc(None, 1);
    c.channels = 2;
    assert_eq!(run(shell(1, Some(0)), Some(c), A::LoadChannelAsSelection(1)).1, vec![E::LoadChannel(1)]);
    assert!(run(shell(1, Some(0)), Some(c), A::DeleteChannel(2)).1.is_empty());
    assert_eq!(run(shell(1, Some(0)), Some(c), A::ToggleChannelVisible(0)).1, vec![E::ToggleChannel(0)]);
    assert_eq!(run(shell(0, None), None, A::CloseDialog).1, vec![E::CloseDialog]);
    let (next, effects) = run(shell(0, None), None, A::Quit);
    assert!(next.quit && effects.is_empty());
    assert!(offers_resize_edges(false));
    assert!(!offers_resize_edges(true));
}

#[test]
fn a_named_new_document_keeps_its_name_and_size() {
    let mut s = shell(0, None);
    s.untitled_count = 4;
    s.pending_new = Some(NewDocRequest {
        name: "Poster".to_string(),
        width: 1920,
        height: 1080,
        background: BackgroundChoice::White,
    });
    let (next, effects) = run(s, None, A::NewDocument);
    assert_eq!(next.untitled_count, 5);
    assert_eq!(
        effects,
        vec![E::CreateDocument {
            name: "Poster".to_string(),
            width: 1920,
            height: 1080,
            background: BackgroundChoice::White,
        }]
    );
}

#[test]
fn picking_a_tool_commits_text_and_says_when_it_is_not_ready() {
    let (next, effects) = run(shell(1, Some(0)), Some(doc(None, 1)), A::SelectTool { tool: Tool::Lasso, implemented: true });
    assert_eq!(next.tool, Tool::Lasso);
    assert_eq!(effects, vec![E::CommitText]);
    let (next, effects) = run(next, Some(doc(None, 1)), A::SelectTool { tool: Tool::Text, implemented: true });
    assert_eq!(next.tool, Tool::Text);
    assert!(effects.is_empty());
    let (next, effects) = run(next, Some(doc(None, 1)), A::SelectTool { tool: Tool::Other, implemented: false });
    assert_eq!(next.tool, Tool::Other);
    assert_eq!(effects, vec![E::CommitText, E::Notify(Notice::ToolNotImplemented(Tool::Other))]);
}

#[test]
fn resizing_the_canvas_moves_the_layers_by_the_anchor() {
    let d = doc(None, 1);
    let grow = |anchor| run(shell(1, Some(0)), Some(d), A::ResizeCanvas { width: 800, height: 600, anchor }).1;
    assert_eq!(grow(Anchor::TopLeft), vec![E::ResizeCanvas { width: 800, height: 600, dx: 0, dy: 0 }]);
    assert_eq!(grow(Anchor::Center), vec![E::ResizeCanvas { width: 800, height: 600, dx: 80, dy: 60 }]);
    assert_eq!(grow(Anchor::BottomRight), vec![E::ResizeCanvas { width: 800, height: 600, dx: 160, dy: 120 }]);
    let shrink = run(shell(1, Some(0)), Some(d), A::ResizeCanvas { width: 639, height: 480, anchor: Anchor::Center }).1;
    assert_eq!(shrink, vec![E::ResizeCanvas { width: 639, height: 480, dx: -1, dy: 0 }]);
    assert!(run(shell(0, None), None, A::ResizeCanvas { width: 1, height: 1, anchor: Anchor::Center }).1.is_empty());
}

#[test]
fn layer_style_needs_pixels() {
    let mut l = layer(0, 1, Some(0));
    assert_eq!(
        run(shell(1, Some(0)), Some(doc(Some(l), 1)), A::ShowLayerStyle).1,
        vec![E::ShowDialog(DialogKind::LayerStyle(LayerId(7)))]
    );
    l.has_pixels = false;
    assert_eq!(
        run(shell(1, Some(0)), Some(doc(Some(l), 1)), A::ShowLayerStyle).1,
        vec![E::Notify(Notice::NeedsPixels)]
    );
    assert!(run(shell(1, Some(0)), Some(doc(None, 1)), A::ShowLayerStyle).1.is_empty());
    assert_eq!(
        run(shell(1, Some(0)), Some(doc(None, 1)), A::ClearLayerEffects(LayerId(3))).1,
        vec![E::ClearEffects(LayerId(3))]
    );
}

#[test]
fn type_and_paths_are_committed_as_asked() {
    assert_eq!(
        run(shell(1, Some(0)), Some(doc(None, 1)), A::EditTextLayer(LayerId(4))).1,
        vec![E::CommitText, E::EditText(LayerId(4))]
    );
    assert_eq!(run(shell(0, None), None, A::EditTextLayer(LayerId(4))).1, vec![E::CommitText]);
    assert_eq!(run(shell(0, None), None, A::CancelText).1, vec![E::CancelText]);
    assert_eq!(
        run(shell(0, None), None, A::FinishPath { closed: false }).1,
        vec![E::FinishPath { closed: false }]
    );
}

#[test]
fn operations_the_shell_does_not_decide_go_to_the_window_unchanged() {
    let s = shell(1, Some(0));
    let (next, effects) = run(s, Some(doc(None, 1)), A::SetDepth(16));
    assert_eq!(next, shell(1, Some(0)));
    assert_eq!(effects, vec![E::Forward(Task::SetDepth(16))]);
    assert_eq!(
        run(shell(0, None), None, A::SaveLayerState("Before".to_string())).1,
        vec![E::Forward(Task::SaveLayerState("Before".to_string()))]
    );
    assert_eq!(
        run(shell(0, None), None, A::SetOneFrameDelay(2, 120)).1,
        vec![E::Forward(Task::SetOneFrameDelay(2, 120))]
    );
    assert_eq!(run(shell(0, None), None, A::ClearGuides).1, vec![E::Forward(Task::ClearGuides)]);
    assert_eq!(run(shell(0, None), None, A::LayerToMask).1, vec![E::Forward(Task::LayerToMask)]);
}

#[test]
fn the_only_layer_survives_delete() {
    let l = layer(0, 1, Some(0));
    let (next, effects) = run(shell(1, Some(0)), Some(doc(Some(l), 1)), A::DeleteLayer);
    assert_eq!(next, shell(1, Some(0)));
    assert!(effects.is_empty());
    let l = layer(1, 2, Some(0));
    assert_eq!(
        run(shell(1, Some(0)), Some(doc(Some(l), 2)), A::DeleteLayer).1,
        vec![E::DeleteLayer(LayerId(7))]
    );
}

#[test]
fn the_menu_bar_layer_entries_follow_the_active_layer() {
    let mut f = facts(true);
    let m = menu_bar_state(f);
    assert!(m.add_mask && !m.mask_commands && m.layer_style && m.smart_object && !m.rasterize);
    assert!(!m.mask_from_selection && !m.several_layers && !m.clear_layer_style);
    f.has_mask = true;
    f.has_selection = true;
    f.is_smart = true;
    f.rendered = true;
    f.several_layers = true;
    f.has_style = true;
    let m = menu_bar_state(f);
    assert!(!m.add_mask && !m.mask_from_selection && m.mask_commands && !m.smart_object && m.rasterize);
    assert!(m.several_layers && m.clear_layer_style);
    let none = menu_bar_state(facts(false));
    assert!(!none.add_mask && !none.layer_style && !none.several_layers);
    assert_eq!(timeline_label(false), "Make Frames from Layers");
    assert_eq!(timeline_label(true), "Stop Animating");
}

#[test]
fn the_new_menu_entries_queue_their_actions() {
    assert_eq!(entry_action::<String>(MenuEntry::Mode(16)), A::SetDepth(16));
    assert_eq!(entry_action::<String>(MenuEntry::Quit), A::Quit);
    assert_eq!(entry_action::<String>(MenuEntry::MaskFromDepth(true)), A::AddLayerMaskFromDepth { invert: true });
    assert_eq!(entry_action::<String>(MenuEntry::ClearLayerStyle(LayerId(2))), A::ClearLayerEffects(LayerId(2)));
    assert_eq!(entry_action::<String>(MenuEntry::MaskToSelection), A::SelectionFromMask);
    assert_eq!(entry_action::<String>(MenuEntry::RepeatFilter), A::RepeatLastFilter);
    let (next, effects) = run(shell(0, None), None, entry_action::<String>(MenuEntry::Quit));
    assert!(next.quit && effects.is_empty());
}

#[test]
fn resizing_to_the_current_size_moves_no_layer() {
    for anchor in [Anchor::TopLeft, Anchor::Center, Anchor::BottomRight, Anchor::Right] {
        assert_eq!(
            run(shell(1, Some(0)), Some(doc(None, 1)), A::ResizeCanvas { width: 640, height: 480, anchor }).1,
            vec![E::ResizeCanvas { width: 640, height: 480, dx: 0, dy: 0 }]
        );
    }
}

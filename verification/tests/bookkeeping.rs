use cshop_ui::clipboard::{paste_source, system_dimensions, Clipping, InnerClipboard};
use cshop_ui::documents::{close_tab, select_tab, untitled_name, CloseOutcome};
use cshop_ui::filters::next_seed;
use cshop_ui::input::{enter_action, escape_action, nudge, Arrow, EnterAction, EscapeAction};
use cshop_ui::jobs::{poll_job, shows_progress, Poll, Received};
use cshop_ui::layers::{
    copy_position, drop_allowed, gap_position, gap_row, new_layer_position, reorder_slot, step_row,
    LayerId, LayerPos,
};
use cshop_ui::menus::{layer_buttons, redo_label, undo_label, delete_allowed, merge_down_allowed};

#[test]
fn closing_a_tab_to_the_left_keeps_focus_on_the_same_document() {
    // Tabs A B C D, C focused; close A: C is now at index 1.
    assert_eq!(close_tab(Some(2), 0, 4), Some(CloseOutcome { removed: 0, active: Some(1) }));
    // Close the focused one: its right-hand neighbour takes focus.
    assert_eq!(close_tab(Some(2), usize::MAX, 4), Some(CloseOutcome { removed: 2, active: Some(2) }));
    // Close the last, focused: the new last.
    assert_eq!(close_tab(Some(3), 3, 4), Some(CloseOutcome { removed: 3, active: Some(2) }));
    // Close one to the right: focus stays.
    assert_eq!(close_tab(Some(1), 3, 4), Some(CloseOutcome { removed: 3, active: Some(1) }));
    // The only tab.
    assert_eq!(close_tab(Some(0), 0, 1), Some(CloseOutcome { removed: 0, active: None }));
    // Nothing to close.
    assert_eq!(close_tab(None, 0, 0), None);
    assert_eq!(close_tab(Some(1), 5, 3), None);
    assert_eq!(select_tab(1, 3), Some(1));
    assert_eq!(select_tab(3, 3), None);
}

#[test]
fn untitled_documents_are_numbered() {
    assert_eq!(untitled_name("".to_string(), 0), ("Untitled-1".to_string(), 1));
    assert_eq!(untitled_name("  ".to_string(), 6), ("Untitled-7".to_string(), 7));
    assert_eq!(untitled_name(" Poster ".to_string(), 2), (" Poster ".to_string(), 3));
}

#[test]
fn new_layers_go_above_the_active_one() {
    let group = Some(LayerId(7));
    assert_eq!(
        new_layer_position(Some(LayerPos { parent: group, index: 2 }), 5),
        LayerPos { parent: group, index: 3 }
    );
    assert_eq!(new_layer_position(None, 5), LayerPos { parent: None, index: 5 });
    assert_eq!(copy_position(None), LayerPos { parent: None, index: 0 });
}

#[test]
fn keyboard_reordering_aims_past_itself_when_moving_up() {
    assert_eq!(reorder_slot(1, 4, 1), Some(3));
    assert_eq!(reorder_slot(1, 4, -1), Some(0));
    assert_eq!(reorder_slot(1, 4, i32::MAX), Some(4));
    assert_eq!(reorder_slot(1, 4, i32::MIN), Some(0));
    assert_eq!(reorder_slot(3, 4, 1), None);
    assert_eq!(reorder_slot(0, 4, -5), None);
    assert_eq!(reorder_slot(2, 4, 0), None);
    assert_eq!(step_row(2, 5, 1), Some(1));
    assert_eq!(step_row(2, 5, -1), Some(3));
    assert_eq!(step_row(0, 5, 1), None);
    assert_eq!(step_row(4, 5, -3), None);
}

#[test]
fn a_drop_lands_where_the_line_is_drawn() {
    let row = LayerPos { parent: None, index: 4 };
    assert_eq!(gap_row(0, 0), None);
    assert_eq!(gap_row(3, 1), Some(1));
    assert_eq!(gap_row(3, 3), Some(2));
    assert_eq!(gap_position(3, 1, Some(row)), LayerPos { parent: None, index: 5 });
    assert_eq!(gap_position(3, 3, Some(row)), row);
    assert_eq!(gap_position(0, 0, None), LayerPos { parent: None, index: 0 });
    let dragged = LayerId(3);
    let from = Some(LayerPos { parent: None, index: 2 });
    // Just above or just below itself: nothing would change.
    assert!(!drop_allowed(dragged, from, LayerPos { parent: None, index: 2 }, false, 1, 3, false));
    assert!(!drop_allowed(dragged, from, LayerPos { parent: None, index: 3 }, false, 1, 3, false));
    assert!(drop_allowed(dragged, from, LayerPos { parent: None, index: 0 }, false, 1, 3, false));
    // Into itself, or below a pinned background.
    assert!(!drop_allowed(dragged, from, LayerPos { parent: Some(dragged), index: 0 }, false, 1, 3, false));
    assert!(!drop_allowed(dragged, from, LayerPos { parent: Some(LayerId(9)), index: 0 }, true, 1, 3, false));
    assert!(!drop_allowed(dragged, from, LayerPos { parent: None, index: 0 }, false, 3, 3, true));
    assert!(!drop_allowed(dragged, None, LayerPos { parent: None, index: 0 }, false, 1, 3, false));
}

#[test]
fn a_cancelled_job_says_so_without_looking() {
    assert!(matches!(poll_job::<u32>(true, None), Poll::Cancelled));
    assert!(matches!(poll_job(true, Some(Received::Value(7))), Poll::Cancelled));
    assert!(matches!(poll_job(false, Some(Received::Value(7))), Poll::Done(7)));
    assert!(matches!(poll_job::<u32>(false, Some(Received::Empty)), Poll::Waiting));
    assert!(matches!(poll_job::<u32>(false, Some(Received::Disconnected)), Poll::Lost));
    assert!(!shows_progress(199_999_999));
    assert!(shows_progress(200_000_000));
}

#[test]
fn our_own_copy_comes_back_with_its_origin() {
    let mine = Clipping { width: 2, height: 1, bytes: vec![1, 2, 3, 4, 5, 6, 7, 8], origin: (40, 50) };
    let same = Clipping { width: 2, height: 1, bytes: vec![1, 2, 3, 4, 5, 6, 7, 8], origin: (0, 0) };
    let other = Clipping { width: 2, height: 1, bytes: vec![1, 2, 3, 4, 5, 6, 7, 9], origin: (0, 0) };
    let got = paste_source(Some(same), Some(mine)).unwrap();
    assert_eq!(got.origin, (40, 50));
    let mine = Clipping { width: 2, height: 1, bytes: vec![1, 2, 3, 4, 5, 6, 7, 8], origin: (40, 50) };
    let got = paste_source(Some(other), Some(mine)).unwrap();
    assert_eq!(got.origin, (0, 0));
    assert_eq!(got.bytes[7], 9);
    let mine = Clipping { width: 1, height: 1, bytes: vec![0, 0, 0, 0], origin: (3, 4) };
    assert_eq!(paste_source(None, Some(mine)).unwrap().origin, (3, 4));
    assert!(paste_source(None, None).is_none());
    let mut inner = InnerClipboard::new();
    assert!(!inner.has_content());
    inner.set(Clipping { width: 1, height: 1, bytes: vec![0; 4], origin: (0, 0) });
    assert!(inner.has_content());
}

#[test]
fn desktop_images_must_have_a_sensible_size() {
    assert_eq!(system_dimensions(0, 10), None);
    assert_eq!(system_dimensions(10, 0), None);
    assert_eq!(system_dimensions(65_537, 10), None);
    assert_eq!(system_dimensions(65_536, 65_536), Some((65_536, 65_536)));
    assert_eq!(system_dimensions(640, 480), Some((640, 480)));
}

#[test]
fn randomise_always_changes_the_seed() {
    for s in [0u64, 1, 2, 42, u64::MAX, 0x8000_0000_0000_0000] {
        let n = next_seed(s);
        assert_ne!(n, s);
        assert_eq!(n, s.wrapping_mul(6364136223846793005).wrapping_add(1442695040888963407));
    }
}

#[test]
fn escape_and_enter_act_on_the_live_gesture() {
    assert_eq!(escape_action(true, true, true), EscapeAction::CancelTransform);
    assert_eq!(escape_action(false, true, true), EscapeAction::CancelCrop);
    assert_eq!(escape_action(false, false, true), EscapeAction::CancelPath);
    assert_eq!(escape_action(false, false, false), EscapeAction::CancelDrag);
    assert_eq!(enter_action(true, true, true), EnterAction::FinishOpenPath);
    assert_eq!(enter_action(false, true, true), EnterAction::CommitTransform);
    assert_eq!(enter_action(false, false, true), EnterAction::CommitCrop);
    assert_eq!(enter_action(false, false, false), EnterAction::CloseDrag);
    assert_eq!(nudge(Arrow::Left, false), (-1, 0));
    assert_eq!(nudge(Arrow::Down, true), (0, 10));
    assert_eq!(nudge(Arrow::Up, true), (0, -10));
    assert_eq!(nudge(Arrow::Right, false), (1, 0));
}

#[test]
fn menu_labels_name_the_step() {
    assert_eq!(undo_label(Some("Brush")), "Undo Brush");
    assert_eq!(undo_label(None), "Undo");
    assert_eq!(redo_label(Some("Fill")), "Redo Fill");
    assert_eq!(redo_label(None), "Redo");
}

#[test]
fn layer_buttons_are_live_only_when_they_would_act() {
    let b = layer_buttons(true, 1, Some(0), false);
    assert!(b.basic && !b.merge_down && !b.flatten && !b.delete && !b.mask_from_selection);
    let b = layer_buttons(true, 3, Some(2), true);
    assert!(b.basic && b.merge_down && b.flatten && b.delete && b.mask_from_selection);
    let b = layer_buttons(false, 0, None, true);
    assert!(!b.basic && !b.merge_down && !b.mask_from_selection);
    assert!(delete_allowed(2) && !delete_allowed(1));
    assert!(merge_down_allowed(Some(1)) && !merge_down_allowed(Some(0)) && !merge_down_allowed(None));
}

use cshop_ui::brush::{brush_size, step_stop, BRUSH_SIZES};
use cshop_ui::commands::{ResizeCursor, ResizeEdge};
use cshop_ui::dialogs::Rgba8;
use cshop_ui::documents::tab_name;
use cshop_ui::input::{key_step, typed_step, TextKey, TextStep};
use cshop_ui::layers::{lifted_alpha, paste_offset};
use cshop_ui::menus::{
    can_combine, clipping_label, layer_context, layer_menu, mask_menu, mask_toggle_label, rasterize_label,
    replace_contents_hint, visibility_label, ActiveLayer, LayerContext, LayerMenu, MaskMenu, RenderedKind,
};
use cshop_ui::masks::{mask_as_pixels, pixels_as_mask, thumb_cell};
use cshop_ui::profile::is_profile_extension;
use cshop_ui::status::{brush_marker, history_row, region_label, HistoryRow};
use cshop_ui::units::vram_bytes;

#[test]
fn each_border_gets_its_own_pointer() {
    assert_eq!(ResizeEdge::North.cursor_shape(), ResizeCursor::Vertical);
    assert_eq!(ResizeEdge::South.cursor_shape(), ResizeCursor::Vertical);
    assert_eq!(ResizeEdge::East.cursor_shape(), ResizeCursor::Horizontal);
    assert_eq!(ResizeEdge::West.cursor_shape(), ResizeCursor::Horizontal);
    assert_eq!(ResizeEdge::NorthWest.cursor_shape(), ResizeCursor::NwSe);
    assert_eq!(ResizeEdge::SouthEast.cursor_shape(), ResizeCursor::NwSe);
    assert_eq!(ResizeEdge::NorthEast.cursor_shape(), ResizeCursor::NeSw);
    assert_eq!(ResizeEdge::SouthWest.cursor_shape(), ResizeCursor::NeSw);
}

#[test]
fn the_noise_window_names_its_region() {
    assert_eq!(region_label(0, 0, 640, 480), "The whole layer, 640x480");
    assert_eq!(region_label(3, 0, 10, 20), "The selection, 10x20");
    assert_eq!(region_label(0, 7, 1, 1), "The selection, 1x1");
}

#[test]
fn video_memory_counts_layers_composite_and_display() {
    // Composite at eight bytes a pixel, display at four.
    assert_eq!(vram_bytes(0, (0, 0), (0, 0)), 0);
    assert_eq!(vram_bytes(100, (10, 10), (5, 2)), 100 + 800 + 40);
    assert_eq!(vram_bytes(1 << 20, (1920, 1080), (1920, 1080)), (1 << 20) + 1920 * 1080 * 12);
}

#[test]
fn a_paste_is_centred_unless_in_place() {
    assert_eq!(paste_offset(true, (17, -4), (100, 100), (10, 10)), (17, -4));
    assert_eq!(paste_offset(false, (17, -4), (100, 80), (10, 20)), (45, 30));
    // A larger image hangs over both sides; the halving rounds toward zero.
    assert_eq!(paste_offset(false, (0, 0), (10, 10), (21, 13)), (-5, -1));
    assert_eq!(paste_offset(false, (0, 0), (11, 10), (10, 10)), (0, 0));
}

#[test]
fn a_feathered_selection_feathers_the_copied_alpha() {
    assert_eq!(lifted_alpha(255, 255), 255);
    assert_eq!(lifted_alpha(255, 0), 0);
    assert_eq!(lifted_alpha(200, 128), 100);
    assert_eq!(lifted_alpha(1, 254), 0);
    for a in [0u8, 1, 77, 128, 254, 255] {
        for c in [0u8, 1, 64, 200, 255] {
            assert_eq!(lifted_alpha(a, c) as u32, a as u32 * c as u32 / 255);
        }
    }
}

#[test]
fn a_mask_travels_as_white_pixels_and_comes_back() {
    let mask: Vec<u8> = vec![0, 1, 128, 255, 7];
    let px = mask_as_pixels(&mask);
    assert_eq!(px.len(), 5);
    assert_eq!(px[2], Rgba8 { r: 255, g: 255, b: 255, a: 128 });
    assert_eq!(px[0], Rgba8 { r: 255, g: 255, b: 255, a: 0 });
    assert_eq!(pixels_as_mask(&px), mask);
    // Only alpha is read back.
    let coloured = vec![Rgba8 { r: 1, g: 2, b: 3, a: 4 }, Rgba8 { r: 9, g: 9, b: 9, a: 200 }];
    assert_eq!(pixels_as_mask(&coloured), vec![4, 200]);
    assert!(pixels_as_mask(&Vec::new()).is_empty());
}

#[test]
fn typing_keys_edit_the_text() {
    assert_eq!(typed_step(false), Some(TextStep::Insert));
    assert_eq!(typed_step(true), None);
    assert_eq!(key_step(TextKey::Enter, false), Some(TextStep::Newline));
    assert_eq!(key_step(TextKey::Enter, true), Some(TextStep::Commit));
    assert_eq!(key_step(TextKey::Escape, false), Some(TextStep::Cancel));
    assert_eq!(key_step(TextKey::Backspace, true), Some(TextStep::Backspace));
    assert_eq!(key_step(TextKey::Delete, false), Some(TextStep::Delete));
    assert_eq!(key_step(TextKey::ArrowLeft, false), Some(TextStep::Left));
    assert_eq!(key_step(TextKey::ArrowRight, false), Some(TextStep::Right));
    assert_eq!(key_step(TextKey::ArrowUp, false), Some(TextStep::Up));
    assert_eq!(key_step(TextKey::ArrowDown, false), Some(TextStep::Down));
    assert_eq!(key_step(TextKey::Home, false), Some(TextStep::Home));
    assert_eq!(key_step(TextKey::End, false), Some(TextStep::End));
    assert_eq!(key_step(TextKey::Other, false), None);
}

#[test]
fn profiles_are_found_by_extension_in_any_case() {
    for e in ["icc", "icm", "ICC", "IcM", "iCc"] {
        assert!(is_profile_extension(e), "{e}");
    }
    for e in ["", "ic", "icx", "iccc", "png", "\u{130}cc", "icć"] {
        assert!(!is_profile_extension(e), "{e}");
    }
}

#[test]
fn mask_thumbnail_cells_tile_a_larger_mask() {
    assert_eq!(thumb_cell(0, 7, 3), (0, 2));
    assert_eq!(thumb_cell(1, 7, 3), (2, 4));
    assert_eq!(thumb_cell(2, 7, 3), (4, 7));
    for (size, cells) in [(36u32, 36u32), (100, 36), (4000, 36), (37, 36), (u32::MAX, 36)] {
        let mut at = 0;
        for t in 0..cells {
            let (s, e) = thumb_cell(t, size, cells);
            assert_eq!(s, at);
            assert!(e > s);
            at = e;
        }
        assert_eq!(at, size);
    }
}

#[test]
fn a_small_mask_gives_every_cell_one_pixel_at_least() {
    let cells: Vec<(u32, u32)> = (0..5).map(|t| thumb_cell(t, 2, 5)).collect();
    assert_eq!(cells, vec![(0, 1), (0, 1), (0, 1), (1, 2), (1, 2)]);
    assert_eq!(thumb_cell(0, 1, 36), (0, 1));
    assert_eq!(thumb_cell(35, 1, 36), (0, 1));
}

#[test]
fn the_bracket_keys_climb_the_brush_ladder() {
    assert_eq!(step_stop(0, -1), 0);
    assert_eq!(step_stop(0, 1), 1);
    assert_eq!(step_stop(31, 1), 31);
    assert_eq!(step_stop(10, 100), 31);
    assert_eq!(step_stop(10, i32::MIN), 0);
    assert_eq!(step_stop(10, -3), 7);
    assert_eq!(brush_size(0), 1);
    assert_eq!(brush_size(31), 2000);
    assert_eq!(brush_size(step_stop(9, 1)), 20);
    for at in 0..31 {
        assert_eq!(step_stop(step_stop(at, 1), -1), at);
        assert!(brush_size(step_stop(at, 1)) > brush_size(at));
    }
    assert_eq!(BRUSH_SIZES.len(), 32);
}

#[test]
fn the_mask_menu_offers_a_new_mask_only_without_one() {
    let none = mask_menu(false, false, false, 0);
    assert_eq!(
        none,
        MaskMenu { add: false, add_from_selection: false, add_from_path: false, layer_to_mask: false, edit: false }
    );
    let plain = mask_menu(true, false, false, 2);
    assert!(plain.add && !plain.add_from_selection && !plain.add_from_path && plain.layer_to_mask && !plain.edit);
    let ready = mask_menu(true, true, false, 3);
    assert!(ready.add && ready.add_from_selection && ready.add_from_path);
    let masked = mask_menu(true, true, true, 5);
    assert!(!masked.add && !masked.add_from_selection && !masked.add_from_path);
    assert!(masked.layer_to_mask && masked.edit);
}

#[test]
fn the_layer_menu_follows_the_active_layer() {
    let off = LayerMenu {
        layer_style: false,
        clear_layer_style: false,
        convert_to_smart: false,
        replace_contents: false,
        make_unique: false,
        rasterize: false,
    };
    assert_eq!(layer_menu(None, 0), off);
    let raster = ActiveLayer { has_pixels: true, has_effects: false, is_smart: false, rendered: false };
    let m = layer_menu(Some(raster), 0);
    assert!(m.layer_style && m.convert_to_smart && !m.replace_contents && !m.rasterize && !m.make_unique);
    let smart = ActiveLayer { has_pixels: true, has_effects: true, is_smart: true, rendered: true };
    let m = layer_menu(Some(smart), 3);
    assert!(m.layer_style && m.clear_layer_style && !m.convert_to_smart);
    assert!(m.replace_contents && m.make_unique && m.rasterize);
    assert!(!layer_menu(Some(smart), 1).make_unique);
}

#[test]
fn the_layer_menu_names_what_it_will_do() {
    assert_eq!(rasterize_label(RenderedKind::Type), "Rasterize Type");
    assert_eq!(rasterize_label(RenderedKind::SmartObject), "Rasterize Smart Object");
    assert_eq!(rasterize_label(RenderedKind::Other), "Rasterize Shape");
    assert_eq!(
        replace_contents_hint(1),
        "Puts a different picture behind this smart object, keeping its placement"
    );
    assert_eq!(
        replace_contents_hint(4),
        "Puts a different picture behind this smart object — and behind the 3 other layers sharing it, each at its own placement"
    );
    assert!(!can_combine(&vec![]));
    assert!(!can_combine(&vec![true]));
    assert!(can_combine(&vec![true, true]));
    assert!(!can_combine(&vec![true, false, true]));
}

#[test]
fn a_layers_context_menu_fits_the_layer() {
    assert_eq!(
        layer_context(false, Some(2), 5, true, false),
        LayerContext {
            duplicate: true,
            merge_down: true,
            merge_all_and_delete: true,
            add_mask: true,
            mask_from_selection: true,
            edit_mask: false,
        }
    );
    let group = layer_context(true, Some(2), 5, false, true);
    assert!(!group.duplicate && !group.merge_down && group.edit_mask && !group.add_mask);
    let bottom = layer_context(false, Some(0), 1, true, false);
    assert!(!bottom.merge_down && !bottom.merge_all_and_delete && bottom.mask_from_selection);
    assert!(!layer_context(false, None, 3, false, false).merge_down);
    assert_eq!(visibility_label(true), "Hide Layer");
    assert_eq!(visibility_label(false), "Show Layer");
    assert_eq!(clipping_label(true), "Release Clipping Mask");
    assert_eq!(clipping_label(false), "Create Clipping Mask");
    assert_eq!(mask_toggle_label(true), "Disable Mask");
    assert_eq!(mask_toggle_label(false), "Enable Mask");
}

#[test]
fn the_history_panel_dims_what_was_undone() {
    assert_eq!(history_row(0, 2, None), HistoryRow { current: false, dimmed: false, brush_source: false });
    assert_eq!(history_row(2, 2, Some(2)), HistoryRow { current: true, dimmed: false, brush_source: true });
    assert_eq!(history_row(3, 2, Some(0)), HistoryRow { current: false, dimmed: true, brush_source: false });
    assert_eq!(brush_marker(true), ("◉", "The History Brush paints back to this state"));
    assert_eq!(brush_marker(false), ("○", "Paint back to this state with the History Brush"));
}

#[test]
fn a_tab_marks_unsaved_changes() {
    assert_eq!(tab_name("photo.png", false), "photo.png");
    assert_eq!(tab_name("photo.png", true), "photo.png •");
    assert_eq!(tab_name("", true), " •");
}

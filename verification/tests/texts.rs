use cshop_ui::status::{
    gpu_status, history_status, layers_status, opened_notice, outline_note, over_budget_status,
    quick_mask_notice, saved_notice, selection_status, size_status, sources_hover, sources_status,
    undo_status,
};

#[test]
fn the_status_bar_reads_naturally() {
    assert_eq!(size_status(1920, 1080), "1920 x 1080 px");
    assert_eq!(layers_status(3), "3 layers");
    assert_eq!(selection_status(10, 20), "sel 10 x 20");
    assert_eq!(outline_note(0), None);
    assert_eq!(outline_note(4), Some("(outline simplified, 4 hidden)".to_string()));
    assert_eq!(gpu_status(3 << 20), "GPU 3.0 MB");
    assert_eq!(sources_status(0), None);
    assert_eq!(sources_status(2048), Some("sources 2 KB".to_string()));
    assert_eq!(sources_hover(1, 1), "1 picture behind the smart objects, 1 of which is placed");
    assert_eq!(sources_hover(3, 0), "3 pictures behind the smart objects, 0 of which are placed");
    assert_eq!(undo_status(0, 5), None);
    assert_eq!(undo_status(512, 0), Some("undo 512 B".to_string()));
    assert_eq!(undo_status(5 << 20, 1), Some("undo 5.0 MB — 1 older step dropped".to_string()));
    assert_eq!(undo_status(5 << 20, 2), Some("undo 5.0 MB — 2 older steps dropped".to_string()));
    assert_eq!(
        over_budget_status(3 << 30, 2 << 30),
        "⚠ needs 3.0 GB of 2.0 GB GPU memory — canvas incomplete"
    );
    assert_eq!(history_status(2, 5), "2 of 5");
}

#[test]
fn notices_say_what_happened() {
    assert_eq!(opened_notice("cat.png", 640, 480, 1), "Opened cat.png (640 x 480)");
    assert_eq!(opened_notice("a.psd", 10, 20, 4), "Opened a.psd (10 x 20, 4 layers)");
    assert_eq!(saved_notice("a.png", false, 1), "Saved a.png");
    assert_eq!(saved_notice("a.psd", true, 3), "Saved a.psd");
    assert_eq!(
        saved_notice("a.png", false, 3),
        "Saved a.png — flattened. Save as .cshop or .psd to keep the 3 layers."
    );
    assert_eq!(quick_mask_notice(true), "Quick Mask on");
    assert_eq!(quick_mask_notice(false), "Quick Mask off");
}

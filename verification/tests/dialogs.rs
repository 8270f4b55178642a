use cshop_ui::dialogs::{
    background_choice, background_label, current_size_line, dimensions_line, new_size_line,
    rename_result, save_base_name, save_file_name, size_title, BackgroundChoice, BrowserMode,
    FillContents, PickerTarget, Rgba8,
};
use cshop_ui::profile::{Picked, ProfileDialog};

#[test]
fn fill_contents_are_named() {
    let names: Vec<&str> = FillContents::ALL.iter().map(|c| c.name()).collect();
    assert_eq!(
        names,
        vec!["Foreground Colour", "Background Colour", "Black", "50% Gray", "White", "Custom…"]
    );
}

#[test]
fn a_fill_lays_down_the_colour_chosen() {
    let fg = Rgba8 { r: 10, g: 20, b: 30, a: 255 };
    let bg = Rgba8 { r: 200, g: 100, b: 50, a: 128 };
    let custom = Rgba8 { r: 1, g: 2, b: 3, a: 4 };
    assert_eq!(FillContents::Foreground.color(fg, bg, custom), fg);
    assert_eq!(FillContents::Background.color(fg, bg, custom), bg);
    assert_eq!(FillContents::Black.color(fg, bg, custom), Rgba8 { r: 0, g: 0, b: 0, a: 255 });
    assert_eq!(FillContents::Gray.color(fg, bg, custom), Rgba8 { r: 128, g: 128, b: 128, a: 255 });
    assert_eq!(FillContents::White.color(fg, bg, custom), Rgba8 { r: 255, g: 255, b: 255, a: 255 });
    assert_eq!(FillContents::Custom.color(fg, bg, custom), custom);
}

#[test]
fn the_picker_names_and_starts_from_its_swatch() {
    let fg = Rgba8::opaque(1, 2, 3);
    let bg = Rgba8::opaque(4, 5, 6);
    assert_eq!(PickerTarget::Foreground.title(), "Foreground Colour");
    assert_eq!(PickerTarget::Background.title(), "Background Colour");
    assert_eq!(PickerTarget::Foreground.current(fg, bg), fg);
    assert_eq!(PickerTarget::Background.current(fg, bg), bg);
}

#[test]
fn new_documents_pick_a_background_by_position() {
    assert_eq!(background_choice(0), BackgroundChoice::White);
    assert_eq!(background_choice(1), BackgroundChoice::Black);
    assert_eq!(background_choice(2), BackgroundChoice::Transparent);
    assert_eq!(background_choice(7), BackgroundChoice::White);
    assert_eq!(background_label(0), "White");
    assert_eq!(background_label(1), "Black");
    assert_eq!(background_label(2), "Transparent");
    // The list clamps its label to the last entry.
    assert_eq!(background_label(9), "Transparent");
}

#[test]
fn the_size_line_gives_the_memory_cost() {
    assert_eq!(dimensions_line(1920, 1080), "1920 x 1080 px  ·  7.9 MB");
    assert_eq!(dimensions_line(16, 16), "16 x 16 px  ·  1 KB");
    assert_eq!(dimensions_line(8, 8), "8 x 8 px  ·  256 B");
    assert_eq!(current_size_line(32768, 32768), "Current: 32768 x 32768 px  ·  4.0 GB");
    assert_eq!(new_size_line(100, 50), "New: 100 x 50 px  ·  20 KB");
}

#[test]
fn size_dialogs_are_titled_by_what_they_do() {
    assert_eq!(size_title(true), "Image Size");
    assert_eq!(size_title(false), "Canvas Size");
}

#[test]
fn a_blank_rename_keeps_the_old_name() {
    assert_eq!(rename_result("  Sky  "), Some("Sky".to_string()));
    assert_eq!(rename_result("   "), None);
    assert_eq!(rename_result(""), None);
    assert_eq!(rename_result("a b"), Some("a b".to_string()));
}

#[test]
fn saving_adds_the_extension_when_the_name_lacks_it() {
    assert_eq!(save_base_name("  holiday "), "holiday");
    assert_eq!(save_base_name(" "), "Untitled");
    assert_eq!(save_file_name("holiday".to_string(), false, "png"), "holiday.png");
    assert_eq!(save_file_name("holiday.png".to_string(), true, "png"), "holiday.png");
    assert_ne!(BrowserMode::Open, BrowserMode::Save);
}

#[test]
fn the_profile_window_acts_on_a_typed_path_first() {
    let found = vec![
        ("Adobe RGB".to_string(), std::path::PathBuf::from("/usr/share/color/icc/adobe.icc")),
        ("Display P3".to_string(), std::path::PathBuf::from("/usr/share/color/icc/p3.icc")),
    ];
    let mut d = ProfileDialog::from_parts("sRGB IEC61966-2.1", "RGB", found);
    assert_eq!(d.current, "sRGB IEC61966-2.1 (RGB)");
    assert_eq!(d.title(), "Colour Profile");
    assert_eq!(d.picked(), None);
    d.chosen = Some(1);
    assert_eq!(d.picked(), Some(Picked::Listed(1)));
    assert_eq!(d.found[1].1, std::path::PathBuf::from("/usr/share/color/icc/p3.icc"));
    d.chosen = Some(5);
    assert_eq!(d.picked(), None);
    d.typed = "  /tmp/mine.icc \n".to_string();
    assert_eq!(d.picked(), Some(Picked::Typed("/tmp/mine.icc".to_string())));
    d.typed = "   ".to_string();
    d.chosen = Some(0);
    assert_eq!(d.picked(), Some(Picked::Listed(0)));
}

use cshop_ui::dialogs::BrowserMode;
use cshop_ui::listing::{browser_listing, profile_listing, Candidate};
use cshop_ui::order::{stable_sort, SortKey};
use cshop_ui::thumbs::{mask_key, ThumbStamps};
use cshop_ui::layers::LayerId;

fn entry(name: &str, is_dir: bool, openable: bool) -> Candidate<usize> {
    Candidate { name: name.to_string(), is_dir, size: 0, openable, path: name.len() }
}

#[test]
fn the_browser_lists_folders_first_then_names_without_case() {
    let read = vec![
        entry("zeta.png", false, true),
        entry(".hidden", true, false),
        entry("Alpha.JPG", false, true),
        entry("notes.txt", false, false),
        entry("Photos", true, false),
        entry("archive", true, false),
        entry("beta.png", false, true),
    ];
    let shown: Vec<String> =
        browser_listing(read, BrowserMode::Open).into_iter().map(|(_, c)| c.name).collect();
    assert_eq!(shown, vec!["archive", "Photos", "Alpha.JPG", "beta.png", "zeta.png"]);

    let read = vec![entry("notes.txt", false, false), entry("b", false, true), entry("A", true, false)];
    let shown: Vec<String> =
        browser_listing(read, BrowserMode::Save).into_iter().map(|(_, c)| c.name).collect();
    assert_eq!(shown, vec!["A", "b", "notes.txt"]);
}

#[test]
fn equal_keys_keep_the_order_they_came_in() {
    let items = vec![
        (SortKey { rank: 1, text: vec!['b'] }, 0),
        (SortKey { rank: 0, text: vec!['z'] }, 1),
        (SortKey { rank: 1, text: vec!['a'] }, 2),
        (SortKey { rank: 1, text: vec!['b'] }, 3),
        (SortKey { rank: 1, text: vec!['a', 'a'] }, 4),
        (SortKey { rank: 1, text: vec!['b'] }, 5),
    ];
    let order: Vec<i32> = stable_sort(items).into_iter().map(|(_, v)| v).collect();
    assert_eq!(order, vec![1, 2, 4, 0, 3, 5]);
}

#[test]
fn profiles_are_listed_once_each_alphabetically() {
    let found = vec![
        ("sRGB".to_string(), "/a/srgb.icc"),
        ("Adobe RGB".to_string(), "/a/adobe.icc"),
        ("sRGB".to_string(), "/b/srgb.icc"),
        ("display p3".to_string(), "/a/p3.icc"),
    ];
    let out = profile_listing(found);
    let names: Vec<&str> = out.iter().map(|(n, _)| n.as_str()).collect();
    assert_eq!(names, vec!["Adobe RGB", "display p3", "sRGB"]);
    // The first of two copies is the one kept.
    assert_eq!(out[2].1, "/a/srgb.icc");
}

#[test]
fn thumbnails_are_reused_until_their_layer_changes() {
    let a = LayerId(1);
    let b = LayerId(2);
    let mut t = ThumbStamps::new();
    assert!(!t.is_fresh(a.0, a));
    t.record_drawn(a.0, a);
    t.record_drawn(b.0, b);
    t.record_drawn(mask_key(a), a);
    assert!(t.is_fresh(a.0, a) && t.is_fresh(b.0, b) && t.is_fresh(mask_key(a), a));
    t.mark_dirty(&vec![a], false);
    assert!(!t.is_fresh(a.0, a));
    assert!(!t.is_fresh(mask_key(a), a));
    assert!(t.is_fresh(b.0, b));
    t.record_drawn(a.0, a);
    assert!(t.is_fresh(a.0, a));
    t.mark_dirty(&vec![], true);
    assert!(!t.is_fresh(a.0, a) && !t.is_fresh(b.0, b));
    t.record_drawn(b.0, b);
    assert!(t.is_fresh(b.0, b));
    t.invalidate();
    assert!(!t.is_fresh(b.0, b));
    assert_eq!(t.epoch(), 4);
    assert_eq!(mask_key(LayerId(5)), 0x8000_0000_0000_0005);
}

#[test]
fn profile_names_that_differ_only_in_case_are_both_kept() {
    let found = vec![
        ("SRGB".to_string(), 1),
        ("b".to_string(), 2),
        ("sRGB".to_string(), 3),
        ("SRGB".to_string(), 4),
        ("A".to_string(), 5),
    ];
    let out = profile_listing(found);
    assert_eq!(
        out,
        vec![("A".to_string(), 5), ("b".to_string(), 2), ("SRGB".to_string(), 1), ("sRGB".to_string(), 3), ("SRGB".to_string(), 4)]
    );
    for w in out.windows(2) {
        assert_ne!(w[0].0, w[1].0);
    }
}

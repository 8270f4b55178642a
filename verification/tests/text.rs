use cshop_ui::text::{decimal, trim, is_blank};

#[test]
fn decimals_match_display() {
    for n in [0u64, 1, 9, 10, 11, 99, 100, 101, 12345, u32::MAX as u64, u64::MAX] {
        assert_eq!(decimal(n), format!("{n}"));
    }
}

#[test]
fn trimming_matches_str_trim() {
    let cases = [
        "", " ", "  a  ", "a", "\t\n x y \r\n", "\u{3000}wide\u{3000}", "\u{a0}nbsp",
        "end\u{2029}", "\u{85}next line", "no-trim", " é ", "\u{200b}zero width\u{200b}",
        "\u{1680}\u{2000}\u{200a}x\u{202f}\u{205f}",
    ];
    for s in cases {
        assert_eq!(trim(s), s.trim(), "for {s:?}");
    }
}

#[test]
fn blank_means_nothing_but_white_space() {
    assert!(is_blank(""));
    assert!(is_blank(" \t\n"));
    assert!(!is_blank(" x "));
}

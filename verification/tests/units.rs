use cshop_ui::format_bytes;

#[test]
fn byte_formatting_picks_sensible_units() {
    assert_eq!(format_bytes(512), "512 B");
    assert_eq!(format_bytes(2048), "2 KB");
    assert_eq!(format_bytes(5 * 1024 * 1024), "5.0 MB");
    assert_eq!(format_bytes(3 * 1024 * 1024 * 1024), "3.0 GB");
}

/// The formula the status bar has always used, in floating point.
fn by_floats(bytes: u64) -> String {
    const KB: u64 = 1024;
    const MB: u64 = KB * 1024;
    const GB: u64 = MB * 1024;
    match bytes {
        b if b >= GB => format!("{:.1} GB", b as f64 / GB as f64),
        b if b >= MB => format!("{:.1} MB", b as f64 / MB as f64),
        b if b >= KB => format!("{:.0} KB", b as f64 / KB as f64),
        b => format!("{b} B"),
    }
}

#[test]
fn byte_formatting_agrees_with_float_formatting_at_the_edges() {
    let mut cases: Vec<u64> = vec![0, 1, 9, 10, 1023, 1024, 1535, 1536, 1537, 2560, 3584];
    for unit in [1u64 << 10, 1 << 20, 1 << 30] {
        for k in 1..40u64 {
            let base = k * unit;
            for d in [0u64, 1, unit / 20, unit / 10, unit / 4, unit / 2, unit / 2 + 1, unit - 1] {
                cases.push(base + d);
                cases.push(base.saturating_sub(d));
            }
        }
    }
    // Ties in the first decimal: 1.25 MB, 2.75 GB, and the like.
    cases.push(5 << 18);
    cases.push(11 << 28);
    cases.push((1u64 << 20) * 1023 + (1 << 20) * 19 / 20);
    // Values too large for an f64 to hold exactly.
    for shift in 52..64u32 {
        let top = 1u64 << shift;
        for d in [0u64, 1, 2, 3, 511, 512, 513, 1023, 1024, 1025, 2047, 2048] {
            cases.push(top + d);
            cases.push(top - d);
        }
    }
    cases.push(u64::MAX);
    cases.push(u64::MAX - 1);
    cases.push(u64::MAX - 1024);
    for b in cases {
        assert_eq!(format_bytes(b), by_floats(b), "for {b} bytes");
    }
}

#[test]
fn byte_formatting_sweeps_agree() {
    let mut b: u64 = 0;
    while b < 3_000_000 {
        assert_eq!(format_bytes(b), by_floats(b), "for {b} bytes");
        b += 97;
    }
    let mut x: u64 = 0x9e37_79b9_7f4a_7c15;
    for _ in 0..20000 {
        x = x.wrapping_mul(6364136223846793005).wrapping_add(1442695040888963407);
        let b = x >> (x % 60);
        assert_eq!(format_bytes(b), by_floats(b), "for {b} bytes");
    }
}

#[test]
fn large_counts_are_whole_gigabytes_with_one_decimal() {
    assert_eq!(format_bytes(1024 * 1024 * 1024), "1.0 GB");
    assert_eq!(format_bytes(u64::MAX), "17179869184.0 GB");
}

#[test]
fn a_tie_rounds_to_the_even_digit() {
    // 1.25 MB sits exactly between 1.2 and 1.3.
    assert_eq!(format_bytes(5 << 18), "1.2 MB");
    // 1.75 MB between 1.7 and 1.8.
    assert_eq!(format_bytes(7 << 18), "1.8 MB");
    // 1.5 KB between 1 and 2, 2.5 KB between 2 and 3.
    assert_eq!(format_bytes(1536), "2 KB");
    assert_eq!(format_bytes(2560), "2 KB");
}

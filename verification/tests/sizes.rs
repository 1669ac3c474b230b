use ezer_cli::size::format_size;

fn reference(bytes: u64) -> String {
    if bytes >= 1024 * 1024 {
        format!("{:.1} MB", bytes as f64 / (1024.0 * 1024.0))
    } else if bytes >= 1024 {
        format!("{:.1} KB", bytes as f64 / 1024.0)
    } else {
        format!("{} B", bytes)
    }
}

#[test]
fn size_exact_values() {
    assert_eq!(format_size(0), "0 B");
    assert_eq!(format_size(1023), "1023 B");
    assert_eq!(format_size(1024), "1.0 KB");
    assert_eq!(format_size(1536), "1.5 KB");
    assert_eq!(format_size(1048575), "1024.0 KB");
    assert_eq!(format_size(1048576), "1.0 MB");
    assert_eq!(format_size(5 * 1048576 + 524288), "5.5 MB");
}

#[test]
fn size_ties_round_to_even() {
    // 1.25 KB and 1.75 KB are exact ties between two tenths.
    assert_eq!(format_size(1280), reference(1280));
    assert_eq!(format_size(1792), reference(1792));
    assert_eq!(format_size(1280), "1.2 KB");
    assert_eq!(format_size(1792), "1.8 KB");
}

#[test]
fn size_matches_float_formatting_small() {
    for b in 0u64..5000 {
        assert_eq!(format_size(b), reference(b), "bytes = {}", b);
    }
}

#[test]
fn size_matches_float_formatting_around_units() {
    let mut b: u64 = 1024 * 1024 - 3000;
    while b < 1024 * 1024 + 3000 {
        assert_eq!(format_size(b), reference(b), "bytes = {}", b);
        b += 1;
    }
    for k in 0u64..2048 {
        let b: u64 = k * 52429 + 7;
        assert_eq!(format_size(b), reference(b), "bytes = {}", b);
    }
}

#[test]
fn size_matches_float_formatting_large() {
    let samples: [u64; 11] = [
        u64::MAX,
        u64::MAX - 1,
        1u64 << 53,
        (1u64 << 53) + 1,
        (1u64 << 60) + 12345,
        9_007_199_254_740_993,
        123_456_789_012_345_678,
        1_099_511_627_776,
        1_099_511_627_775,
        104_857,
        10_485_760 + 52_428,
    ];
    for &b in samples.iter() {
        assert_eq!(format_size(b), reference(b), "bytes = {}", b);
    }
    let mut x: u64 = 0x9E37_79B9_7F4A_7C15;
    for _ in 0..20000 {
        x ^= x << 13;
        x ^= x >> 7;
        x ^= x << 17;
        let b: u64 = x >> (x % 40);
        assert_eq!(format_size(b), reference(b), "bytes = {}", b);
    }
}

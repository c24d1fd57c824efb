use mutui::ui::format::{fmt_bytes, fmt_clock, fmt_unix_utc, percent, split_urls};

fn reference_bytes(bytes: u64) -> String {
    let gb = 1024.0 * 1024.0 * 1024.0;
    let mb = 1024.0 * 1024.0;
    let b = bytes as f64;
    if b >= gb {
        format!("{:.2} GB", b / gb)
    } else {
        format!("{:.1} MB", b / mb)
    }
}

#[test]
fn bytes_exact_values() {
    assert_eq!(fmt_bytes(0), "0.0 MB");
    assert_eq!(fmt_bytes(1_048_576), "1.0 MB");
    assert_eq!(fmt_bytes(5_242_880), "5.0 MB");
    assert_eq!(fmt_bytes(1_073_741_824), "1.00 GB");
    assert_eq!(fmt_bytes(1_610_612_736), "1.50 GB");
    assert_eq!(fmt_bytes(1_073_741_823), "1024.0 MB");
}

#[test]
fn bytes_ties_round_to_even() {
    // 0.25 MB and 0.75 MB sit exactly between two one-decimal values.
    assert_eq!(fmt_bytes(262_144), reference_bytes(262_144));
    assert_eq!(fmt_bytes(786_432), reference_bytes(786_432));
    // 1.125 GB and 1.375 GB sit exactly between two two-decimal values.
    assert_eq!(fmt_bytes(1_207_959_552), reference_bytes(1_207_959_552));
    assert_eq!(fmt_bytes(1_476_395_008), reference_bytes(1_476_395_008));
}

#[test]
fn bytes_agree_with_float_formatting() {
    let mut samples: Vec<u64> = vec![
        1,
        999,
        1_000_000,
        52_428_800,
        104_857_599,
        1_073_741_825,
        u64::MAX,
        u64::MAX - 1,
        (1u64 << 53) + 1,
        (1u64 << 53) + 3,
        (1u64 << 60) + 12345,
    ];
    let mut x: u64 = 0x9E37_79B9_7F4A_7C15;
    for _ in 0..2000 {
        x ^= x << 13;
        x ^= x >> 7;
        x ^= x << 17;
        samples.push(x >> (x % 64));
    }
    for b in samples {
        assert_eq!(fmt_bytes(b), reference_bytes(b), "bytes {b}");
    }
}

#[test]
fn clock_minutes_and_hours() {
    assert_eq!(fmt_clock(0), "0:00");
    assert_eq!(fmt_clock(59), "0:59");
    assert_eq!(fmt_clock(61), "1:01");
    assert_eq!(fmt_clock(3599), "59:59");
    assert_eq!(fmt_clock(3600), "1:00:00");
    assert_eq!(fmt_clock(3725), "1:02:05");
    assert_eq!(fmt_clock(360_000), "100:00:00");
}

#[test]
fn utc_dates() {
    assert_eq!(fmt_unix_utc(0), "1970-01-01 00:00");
    assert_eq!(fmt_unix_utc(59), "1970-01-01 00:00");
    assert_eq!(fmt_unix_utc(86_399), "1970-01-01 23:59");
    assert_eq!(fmt_unix_utc(-1), "1969-12-31 23:59");
    assert_eq!(fmt_unix_utc(951_782_400), "2000-02-29 00:00");
    assert_eq!(fmt_unix_utc(1_700_000_000), "2023-11-14 22:13");
    assert_eq!(fmt_unix_utc(4_107_542_400), "2100-03-01 00:00");
    assert_eq!(fmt_unix_utc(-62_135_596_800), "0001-01-01 00:00");
}

#[test]
fn utc_extreme_timestamps_do_not_panic() {
    let a = fmt_unix_utc(i64::MAX);
    let b = fmt_unix_utc(i64::MIN);
    assert!(a.ends_with(" 15:30"), "{a}");
    assert!(b.starts_with('-'), "{b}");
}

#[test]
fn percent_is_held_in_range() {
    assert_eq!(percent(0, 100), 0);
    assert_eq!(percent(50, 200), 25);
    assert_eq!(percent(1, 3), 33);
    assert_eq!(percent(300, 100), 100);
    assert_eq!(percent(-5, 100), 0);
    assert_eq!(percent(99, 100), 99);
}

#[test]
fn urls_are_split_and_trimmed() {
    let v = split_urls(" https://a.example/x, https://b.example/y\nhttps://c.example  ,, ");
    assert_eq!(v, vec!["https://a.example/x", "https://b.example/y", "https://c.example"]);
    assert!(split_urls("  , \n ").is_empty());
    assert_eq!(split_urls("one\ttwo"), vec!["one", "two"]);
}

//! Sizes, durations, rates and measurements as text.

use foxy_views::figures::{
    fmt_bytes, format_summary_elapsed_seconds, per_second_text, seconds_text,
};
use foxy_views::settings::benchmarks::reading::Measure;
use foxy_views::text::{
    blank, decimal_text, join, padded_two_text, signed_decimal_text, split, trim,
    trim_unless_blank,
};
use foxy_views::text_map::TextMap;

/// Numbers of many sizes, in no particular pattern.
fn numbers(count: usize) -> Vec<u64> {
    let mut out = vec![0, 1, 2, 3, 9, 10, 49, 50, 51, 99, 100, 999, 1000, 1023, 1024, 1025];
    let mut x: u64 = 0x9e37_79b9_7f4a_7c15;
    for i in 0..count {
        x ^= x << 13;
        x ^= x >> 7;
        x ^= x << 17;
        out.push(x >> (11 + i % 53));
    }
    out
}

#[test]
fn sizes_use_the_largest_unit_they_fill() {
    assert_eq!(fmt_bytes(0), "0 B");
    assert_eq!(fmt_bytes(1023), "1023 B");
    assert_eq!(fmt_bytes(1024), "1.0 KB");
    assert_eq!(fmt_bytes(2048), "2.0 KB");
    assert_eq!(fmt_bytes(1536 * 1024), "1.5 MB");
    assert_eq!(fmt_bytes(5 << 30), "5.0 GB");
    assert_eq!(fmt_bytes(3 << 40), "3.0 TB");
    assert_eq!(fmt_bytes(u64::MAX), "16777216.0 TB");
}

#[test]
fn sizes_agree_with_double_precision() {
    let units = ["B", "KB", "MB", "GB", "TB"];
    for n in numbers(20_000) {
        if n < 1024 {
            continue;
        }
        let mut value = n as f64;
        let mut unit = 0;
        while n >> (10 * (unit + 1)) > 0 && unit < 4 {
            value /= 1024.0;
            unit += 1;
        }
        assert_eq!(fmt_bytes(n), format!("{:.1} {}", value, units[unit]), "{n}");
    }
}

#[test]
fn seconds_agree_with_double_precision() {
    assert_eq!(seconds_text(0), "0.0");
    assert_eq!(seconds_text(2_000), "2.0");
    assert_eq!(seconds_text(150), format!("{:.1}", 0.15));
    assert_eq!(seconds_text(250), format!("{:.1}", 0.25));
    for n in numbers(20_000) {
        assert_eq!(seconds_text(n), format!("{:.1}", n as f64 / 1000.0), "{n}");
    }
    for n in 0..20_000 {
        assert_eq!(seconds_text(n), format!("{:.1}", n as f64 / 1000.0), "{n}");
    }
}

#[test]
fn rates_agree_with_double_precision() {
    assert_eq!(per_second_text(40, 2_000), "20");
    assert_eq!(per_second_text(0, 7), "0");
    let some = numbers(4_000);
    for pair in some.windows(2) {
        if pair[1] == 0 {
            continue;
        }
        let expected = format!("{:.0}", pair[0] as f64 / (pair[1] as f64 / 1000.0));
        assert_eq!(per_second_text(pair[0], pair[1]), expected, "{pair:?}");
    }
    for count in 1..200 {
        for ms in 1..200 {
            let expected = format!("{:.0}", count as f64 / (ms as f64 / 1000.0));
            assert_eq!(per_second_text(count, ms), expected, "{count} in {ms}");
        }
    }
}

#[test]
fn axis_times_switch_to_minutes() {
    assert_eq!(format_summary_elapsed_seconds(0), "0.0s");
    assert_eq!(format_summary_elapsed_seconds(1_500), "1.5s");
    assert_eq!(format_summary_elapsed_seconds(59_000), "59.0s");
}

#[test]
fn measurements_compare_by_their_bits() {
    for value in [0.0, -0.0, 1.0, -1.0, 0.0005, 5e-324, f64::INFINITY, -5e-324, f64::NAN, -f64::NAN]
    {
        let m = Measure { bits: value.to_bits() };
        assert_eq!(m.is_above_zero(), value > 0.0, "{value}");
        assert_eq!(m.is_at_most_zero(), value <= 0.0, "{value}");
        let floor = Measure { bits: 0.0005_f64.to_bits() };
        assert_eq!(m.is_at_least(floor), value >= 0.0005, "{value}");
    }
}

#[test]
fn measurements_are_cut_to_whole_numbers() {
    let mut values = vec![
        0.0,
        -0.0,
        0.5,
        0.999,
        1.0,
        1.5,
        -3.7,
        1024.0,
        9007199254740993.0,
        1.8446744073709552e19,
        1.8446744073709550e19,
        1e300,
        f64::INFINITY,
        f64::NEG_INFINITY,
        f64::NAN,
        -f64::NAN,
        f64::MIN_POSITIVE,
    ];
    for n in numbers(5_000) {
        values.push(n as f64 / 3.0);
        values.push(f64::from_bits(n << 11));
    }
    for value in values {
        let m = Measure { bits: value.to_bits() };
        assert_eq!(m.to_whole(), value as u64, "{value}");
    }
}

#[test]
fn numbers_are_written_in_decimal() {
    assert_eq!(decimal_text(0), "0");
    assert_eq!(decimal_text(u64::MAX as u128), u64::MAX.to_string());
    assert_eq!(padded_two_text(7), "07");
    assert_eq!(padded_two_text(123), "123");
    assert_eq!(signed_decimal_text(-5), "-5");
    assert_eq!(signed_decimal_text(i64::MIN), i64::MIN.to_string());
}

#[test]
fn white_space_is_that_of_unicode() {
    assert_eq!(trim("\u{2003} a b\t\n"), "a b");
    assert!(blank("\u{00A0}\u{3000}\r"));
    assert!(!blank("\u{200B}"));
    assert_eq!(trim_unless_blank("  "), None);
    assert_eq!(trim_unless_blank(" x "), Some("x".to_string()));
    for c in (0..=0x10ffff).filter_map(char::from_u32) {
        assert_eq!(blank(&c.to_string()), c.is_whitespace(), "{c:?}");
    }
}

#[test]
fn pieces_join_to_what_was_split() {
    for s in ["", "a", ",", "a,b,,c", ",,"] {
        let pieces = split(s, ',');
        assert_eq!(pieces, s.split(',').map(str::to_string).collect::<Vec<_>>());
        assert_eq!(join(&pieces, ","), s);
    }
}

#[test]
fn text_maps_replace_and_forget() {
    let mut map = TextMap::new();
    let (a, b) = ("a".to_string(), "b".to_string());
    map.insert(a.clone(), "1".to_string());
    map.insert(b.clone(), "2".to_string());
    map.insert(a.clone(), "3".to_string());
    assert_eq!(map.get(&a), Some("3".to_string()));
    assert!(map.holds(&b, &"2".to_string()));
    assert!(map.remove(&a));
    assert!(!map.remove(&a));
    assert!(!map.contains_key(&a));
    assert!(map.contains_key(&b));
}

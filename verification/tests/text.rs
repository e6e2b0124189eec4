use dg_sysfs::text::{parse_u64, parse_usize, starts_with, trim};

#[test]
fn trim_removes_unicode_whitespace() {
    assert_eq!(trim("  512\n"), "512");
    assert_eq!(trim("\u{a0}\u{3000}x y\t"), "x y");
    assert_eq!(trim(" \n "), "");
    assert_eq!(trim(""), "");
}

#[test]
fn trim_is_idempotent() {
    for s in ["  a b  ", "\tz", "", "x"] {
        assert_eq!(trim(&trim(s)), trim(s));
    }
}

#[test]
fn parse_follows_std() {
    for s in ["0", "+7", "18446744073709551615", "18446744073709551616", "", "+", "-1", " 1", "1a", "٣"] {
        assert_eq!(parse_u64(s), s.parse::<u64>().ok(), "{s:?}");
        assert_eq!(parse_usize(s), s.parse::<usize>().ok(), "{s:?}");
    }
}

#[test]
fn prefixes() {
    assert!(starts_with("mmcblk0", "mmcblk"));
    assert!(!starts_with("mmc", "mmcblk"));
    assert!(starts_with("sda", ""));
}

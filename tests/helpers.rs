use rprint::datetime::{chrono_lite_format, date_format, is_leap_year};
use rprint::text::{pad_left, pad_right, repeat, same_text, strings_match, truncate};

#[test]
fn repeat_dash_ten_times() {
    assert_eq!(repeat("-", 10), "----------");
    assert_eq!(repeat("ab", 3), "ababab");
    assert_eq!(repeat("x", 0), "");
}

#[test]
fn pad_left_with_zero() {
    assert_eq!(pad_left("42", 5, "0"), "00042");
    assert_eq!(pad_left("42", 5, ""), "   42");
    assert_eq!(pad_left("a b", 5, "*x"), "**a b");
    assert_eq!(pad_left("toolong", 3, "0"), "toolong");
}

#[test]
fn pad_right_counts_characters() {
    assert_eq!(pad_right("ab", 4, "."), "ab..");
    assert_eq!(pad_right("价格", 4, "-"), "价格--");
    assert_eq!(pad_right("abcdef", 4, "-"), "abcdef");
}

#[test]
fn truncate_counts_characters() {
    let s = "一二三四五";
    let t = truncate(s, 3);
    assert_eq!(t, "一二三");
    assert_eq!(t.chars().count(), 3);
    assert_eq!(truncate("abc", 10), "abc");
    assert_eq!(truncate("abc", 0), "");
}

#[test]
fn equality_helpers() {
    assert!(same_text("abc", "abc"));
    assert!(!same_text("abc", "abd"));
    assert!(strings_match(Some("a"), Some("a")));
    assert!(strings_match(None, None));
    assert!(!strings_match(Some("a"), None));
}

#[test]
fn date_of_epoch() {
    assert_eq!(date_format(0, "YYYY"), "1970-01-01 00:00:00");
    assert_eq!(chrono_lite_format(0), "1970-01-01 00:00:00");
}

#[test]
fn date_after_leap_day() {
    assert_eq!(date_format(1709164800000, ""), "2024-02-29 00:00:00");
    assert_eq!(date_format(1709251200000, ""), "2024-03-01 00:00:00");
    assert_eq!(date_format(951782400000, ""), "2000-02-29 00:00:00");
    assert_eq!(date_format(1700000000123, ""), "2023-11-14 22:13:20");
    assert_eq!(date_format(253402300799000, ""), "9999-12-31 23:59:59");
}

#[test]
fn date_before_epoch_counts_back() {
    assert_eq!(date_format(-1000, ""), "1970-01-00 23:59:59");
}

#[test]
fn leap_years() {
    assert!(is_leap_year(2024));
    assert!(is_leap_year(2000));
    assert!(!is_leap_year(1900));
    assert!(!is_leap_year(2023));
}

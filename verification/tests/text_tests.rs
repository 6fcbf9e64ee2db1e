use chess_match::text::{
    format_i64, format_u32, format_u64, parse_i64, parse_u32, parse_u64, same_text, split_text,
    strip_prefix,
};

#[test]
fn formats_unsigned_numbers() {
    assert_eq!(format_u64(0), "0");
    assert_eq!(format_u64(7), "7");
    assert_eq!(format_u64(10), "10");
    assert_eq!(format_u64(1729519142), "1729519142");
    assert_eq!(format_u64(u64::MAX), "18446744073709551615");
    assert_eq!(format_u32(u32::MAX), "4294967295");
    assert_eq!(format_u32(42), "42");
}

#[test]
fn formats_signed_numbers() {
    assert_eq!(format_i64(0), "0");
    assert_eq!(format_i64(-1), "-1");
    assert_eq!(format_i64(1729519142), "1729519142");
    assert_eq!(format_i64(i64::MAX), "9223372036854775807");
    assert_eq!(format_i64(i64::MIN), "-9223372036854775808");
}

#[test]
fn parses_unsigned_numbers() {
    assert_eq!(parse_u64("0"), Some(0));
    assert_eq!(parse_u64("007"), Some(7));
    assert_eq!(parse_u64("18446744073709551615"), Some(u64::MAX));
    assert_eq!(parse_u64("18446744073709551616"), None);
    assert_eq!(parse_u64("99999999999999999999999"), None);
    assert_eq!(parse_u64(""), None);
    assert_eq!(parse_u64("+1"), None);
    assert_eq!(parse_u64("-1"), None);
    assert_eq!(parse_u64("1 "), None);
    assert_eq!(parse_u64("12a"), None);
    assert_eq!(parse_u64("[]"), None);
    assert_eq!(parse_u32("4294967295"), Some(u32::MAX));
    assert_eq!(parse_u32("4294967296"), None);
    assert_eq!(parse_u32("10"), Some(10));
    assert_eq!(parse_u32(""), None);
}

#[test]
fn parses_signed_numbers() {
    assert_eq!(parse_i64("0"), Some(0));
    assert_eq!(parse_i64("-0"), Some(0));
    assert_eq!(parse_i64("-15"), Some(-15));
    assert_eq!(parse_i64("9223372036854775807"), Some(i64::MAX));
    assert_eq!(parse_i64("9223372036854775808"), None);
    assert_eq!(parse_i64("-9223372036854775808"), Some(i64::MIN));
    assert_eq!(parse_i64("-9223372036854775809"), None);
    assert_eq!(parse_i64("-"), None);
    assert_eq!(parse_i64("--1"), None);
    assert_eq!(parse_i64(""), None);
    assert_eq!(parse_i64("1-"), None);
}

#[test]
fn reading_undoes_writing_of_numbers() {
    for n in [0u32, 1, 9, 10, 99, 100, 65535, 4294967295] {
        assert_eq!(parse_u32(&format_u32(n)), Some(n));
    }
    for n in [i64::MIN, -1000, -1, 0, 1, 1729519142, i64::MAX] {
        assert_eq!(parse_i64(&format_i64(n)), Some(n));
    }
}

#[test]
fn splits_text_into_fields() {
    assert_eq!(split_text("move:new:42", ':'), vec!["move", "new", "42"]);
    assert_eq!(split_text("", ':'), vec![""]);
    assert_eq!(split_text("abc", ':'), vec!["abc"]);
    assert_eq!(split_text(":", ':'), vec!["", ""]);
    assert_eq!(split_text("a::b:", ':'), vec!["a", "", "b", ""]);
    assert_eq!(split_text("8/8/4P3", '/'), vec!["8", "8", "4P3"]);
}

#[test]
fn compares_and_strips_text() {
    assert!(same_text("game_move", "game_move"));
    assert!(!same_text("game_move", "game_mov"));
    assert!(!same_text("a", "b"));
    assert!(same_text("", ""));
    assert_eq!(strip_prefix("Bearer abc", "Bearer "), Some("abc".to_string()));
    assert_eq!(strip_prefix("Bearer ", "Bearer "), Some(String::new()));
    assert_eq!(strip_prefix("bearer abc", "Bearer "), None);
    assert_eq!(strip_prefix("Bea", "Bearer "), None);
}

use winrmpc::text::{
    contains_str, decimal_string, join, pad_right, parse_u16, parse_u32, rfind_char, signed_decimal_string,
    starts_with, str_eq, strip_prefix_or_keep, trim,
};

#[test]
fn numbers_read_as_str_parse_reads_them() {
    for s in ["0", "42", "+42", "007", "65535", "65536", "", "+", "-1", " 1", "1a", "99999999999"] {
        assert_eq!(parse_u16(s), s.parse::<u16>().ok(), "{s:?}");
        assert_eq!(parse_u32(s), s.parse::<u32>().ok(), "{s:?}");
    }
    assert_eq!(parse_u32("4294967295"), Some(u32::MAX));
    assert_eq!(parse_u32("4294967296"), None);
}

#[test]
fn trimming_removes_unicode_white_space() {
    for s in ["  a b  ", "\t\nx\u{3000}", "", "   ", "\u{a0}y\u{2028}", "z"] {
        assert_eq!(trim(s), s.trim(), "{s:?}");
    }
}

#[test]
fn decimal_text() {
    assert_eq!(decimal_string(0), "0");
    assert_eq!(decimal_string(1234567890), "1234567890");
    assert_eq!(decimal_string(u64::MAX), u64::MAX.to_string());
    assert_eq!(signed_decimal_string(-42), "-42");
    assert_eq!(signed_decimal_string(i64::MIN), i64::MIN.to_string());
}

#[test]
fn string_helpers() {
    assert!(str_eq("é", "é") && !str_eq("a", "b"));
    assert!(starts_with("cdda:///1", "cdda://") && !starts_with("cd", "cdda"));
    assert!(contains_str("winrmpc::mpd::client", "mpd") && !contains_str("ui", "mpd") && contains_str("x", ""));
    assert_eq!(strip_prefix_or_keep("winrmpc::ui", "winrmpc::"), "ui");
    assert_eq!(strip_prefix_or_keep("mpd", "winrmpc::"), "mpd");
    assert_eq!(pad_right("INFO", 5), "INFO ");
    assert_eq!(pad_right("ERROR", 5), "ERROR");
    assert_eq!(pad_right("WARNING", 5), "WARNING");
    assert_eq!(rfind_char("a/b/c", '/'), Some(3));
    assert_eq!(rfind_char("abc", '/'), None);
    assert_eq!(join(&vec!["a".to_string(), "b".to_string()], ", "), "a, b");
    assert_eq!(join(&vec![], ", "), "");
}

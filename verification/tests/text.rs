use tog::text::{decimal, decimal_padded, is_blank_text, join, strip_prefix, trim, trim_line_end, trim_start};

#[test]
fn trimming_follows_unicode_white_space() {
    assert_eq!(trim("\u{2003} a b \u{3000}"), "a b");
    assert_eq!(trim_start("\t x "), "x ");
    assert_eq!(trim_line_end("line\r\n\n"), "line");
    assert_eq!(trim_line_end("line \r"), "line ");
    assert!(is_blank_text(" \u{85}\u{2028}"));
    assert!(!is_blank_text(" \u{200b} "));
}

#[test]
fn prefixes_and_joins() {
    assert_eq!(strip_prefix("data: x", "data:"), Some(" x"));
    assert_eq!(strip_prefix("dat", "data:"), None);
    assert_eq!(join(&vec!["a".to_owned(), "b".to_owned(), "c".to_owned()], ", "), "a, b, c");
    assert_eq!(join(&Vec::new(), ", "), "");
}

#[test]
fn decimal_rendering() {
    assert_eq!(decimal(0), "0");
    assert_eq!(decimal(1234567890), "1234567890");
    assert_eq!(decimal(u64::MAX), "18446744073709551615");
    assert_eq!(decimal_padded(7, 3), "007");
    assert_eq!(decimal_padded(1234, 2), "34");
}

use cssh::text::{decimal_text, parse_u16_text, text_equal, trim_text};

#[test]
fn trim_removes_unicode_whitespace_at_both_ends() {
    assert_eq!(trim_text("  a b \t\r\n"), "a b");
    assert_eq!(trim_text("\u{3000}x\u{a0}"), "x");
    assert_eq!(trim_text(" \n "), "");
    assert_eq!(trim_text(""), "");
}

#[test]
fn u16_text_is_read_as_std_reads_it() {
    assert_eq!(parse_u16_text("0"), Some(0));
    assert_eq!(parse_u16_text("65535"), Some(65535));
    assert_eq!(parse_u16_text("+12"), Some(12));
    assert_eq!(parse_u16_text("65536"), None);
    assert_eq!(parse_u16_text("-1"), None);
    assert_eq!(parse_u16_text("1_000"), None);
    assert_eq!(parse_u16_text("++1"), None);
    assert_eq!(parse_u16_text("１"), None);
    assert_eq!(parse_u16_text("9999999999999"), None);
}

#[test]
fn decimal_text_round_trips() {
    for n in [0u16, 7, 10, 99, 100, 8080, 54321, 65535] {
        let text = decimal_text(n);
        assert_eq!(text, n.to_string());
        assert_eq!(parse_u16_text(&text), Some(n));
    }
}

#[test]
fn text_equality_compares_characters() {
    assert!(text_equal("--", "--"));
    assert!(!text_equal("--", "-"));
    assert!(text_equal("", ""));
}

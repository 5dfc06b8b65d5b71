use commerce::text::{is_whitespace, parse_trimmed_bool, trim_is_empty};

#[test]
fn booleans_parse_after_trimming() {
    assert_eq!(parse_trimmed_bool("true"), Some(true));
    assert_eq!(parse_trimmed_bool("  false\n"), Some(false));
    assert_eq!(parse_trimmed_bool("\u{3000}true\u{a0}"), Some(true));
    assert_eq!(parse_trimmed_bool("True"), None);
    assert_eq!(parse_trimmed_bool("1"), None);
    assert_eq!(parse_trimmed_bool(""), None);
}

#[test]
fn whitespace_is_unicode_white_space() {
    for c in [' ', '\t', '\n', '\r', '\u{b}', '\u{c}', '\u{85}', '\u{a0}', '\u{2003}', '\u{2028}', '\u{3000}'] {
        assert!(is_whitespace(c), "{c:?}");
        assert_eq!(is_whitespace(c), c.is_whitespace());
    }
    for c in ['a', '0', '_', '\u{200b}', '\u{feff}'] {
        assert!(!is_whitespace(c));
        assert_eq!(is_whitespace(c), c.is_whitespace());
    }
    assert!(trim_is_empty(" \t\n"));
    assert!(trim_is_empty(""));
    assert!(!trim_is_empty(" x "));
}

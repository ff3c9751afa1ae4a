use vash::unescape::{unescape, parse_unicode, ParseUnicodeError, UnescapeError};

#[test]
fn unescape_round_trips_quoted_escape() {
    assert_eq!(unescape("\"a\\\"b\""), Ok(String::from("a\"b")));
}

#[test]
fn unescape_supported_escape_set() {
    let cases: Vec<(&str, &str)> = vec![
        ("\"\\a\"", "\u{07}"),
        ("\"\\b\"", "\u{08}"),
        ("\"\\v\"", "\u{0B}"),
        ("\"\\f\"", "\u{0C}"),
        ("\"\\n\"", "\n"),
        ("\"\\r\"", "\r"),
        ("\"\\t\"", "\t"),
        ("\"\\e\"", "\u{1B}"),
        ("\"\\E\"", "\u{1B}"),
        ("\"\\\\\"", "\\"),
        ("\"\\'\"", "'"),
        ("\"\\\"\"", "\""),
        ("\"\\$\"", "$"),
        ("\"\\`\"", "`"),
        ("\"\\ \"", " "),
    ];
    for (src, want) in cases {
        assert_eq!(unescape(src), Ok(String::from(want)), "case {:?}", src);
    }
}

#[test]
fn unescape_outside_quotes_passes_through() {
    assert_eq!(unescape("plain"), Ok(String::from("plain")));
}

#[test]
fn unescape_single_quotes_take_no_escapes() {
    assert_eq!(unescape("'a\\nb'"), Ok(String::from("a\\nb")));
}

#[test]
fn unescape_unicode_escape() {
    assert_eq!(unescape("\"\\u{41}\""), Ok(String::from("A")));
    assert_eq!(unescape("\"\\u{1F600}\""), Ok(String::from("\u{1F600}")));
    assert_eq!(unescape("\"\\u{0}\""), Ok(String::from("\u{0}")));
}

#[test]
fn unescape_bad_escape_names_the_escape() {
    assert_eq!(
        unescape("\"\\q\""),
        Err(UnescapeError::InvalidEscape {
            escape: String::from("\\q"),
            index: 2,
            string: String::from("\"\\q\""),
        })
    );
}

#[test]
fn unescape_trailing_backslash_is_error() {
    assert_eq!(
        unescape("\"\\"),
        Err(UnescapeError::InvalidEscape {
            escape: String::from("\\"),
            index: 1,
            string: String::from("\"\\"),
        })
    );
}

#[test]
fn unescape_unicode_missing_brace() {
    assert_eq!(
        unescape("\"\\u41\""),
        Err(UnescapeError::InvalidUnicode {
            source: ParseUnicodeError::BraceNotFound,
            index: 2,
            string: String::from("\"\\u41\""),
        })
    );
}

#[test]
fn unescape_unicode_bad_hex() {
    assert_eq!(
        unescape("\"\\u{zz}\""),
        Err(UnescapeError::InvalidUnicode {
            source: ParseUnicodeError::ParseHexFailed { string: String::from("zz") },
            index: 2,
            string: String::from("\"\\u{zz}\""),
        })
    );
}

#[test]
fn unescape_unicode_empty_hex() {
    assert!(matches!(
        unescape("\"\\u{}\""),
        Err(UnescapeError::InvalidUnicode {
            source: ParseUnicodeError::ParseHexFailed { .. },
            ..
        })
    ));
}

#[test]
fn unescape_unicode_surrogate_rejected() {
    assert_eq!(
        unescape("\"\\u{D800}\""),
        Err(UnescapeError::InvalidUnicode {
            source: ParseUnicodeError::ParseUnicodeFailed { value: 0xD800 },
            index: 2,
            string: String::from("\"\\u{D800}\""),
        })
    );
}

#[test]
fn unescape_unicode_too_large_rejected() {
    assert!(matches!(
        unescape("\"\\u{110000}\""),
        Err(UnescapeError::InvalidUnicode {
            source: ParseUnicodeError::ParseUnicodeFailed { value: 0x110000 },
            ..
        })
    ));
}

#[test]
fn unescape_unicode_overflowing_hex_is_hex_error() {
    assert!(matches!(
        unescape("\"\\u{FFFFFFFFF}\""),
        Err(UnescapeError::InvalidUnicode {
            source: ParseUnicodeError::ParseHexFailed { .. },
            ..
        })
    ));
}

#[test]
fn parse_unicode_reports_resume_position() {
    let chars: Vec<char> = "{41}x".chars().collect();
    let (r, next) = parse_unicode(&chars, 0);
    assert_eq!(r, Ok('A'));
    assert_eq!(next, 4);
}

#[test]
fn parse_unicode_without_close_consumes_rest() {
    let chars: Vec<char> = "{41".chars().collect();
    let (r, next) = parse_unicode(&chars, 0);
    assert_eq!(r, Ok('A'));
    assert_eq!(next, 3);
}

#[test]
fn unescape_mixed_text() {
    assert_eq!(
        unescape("pre\"mid\\tdle\"'lit\\n'post"),
        Ok(String::from("premid\tdlelit\\npost"))
    );
}

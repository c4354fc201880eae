use md2pdf_rs::text::{
    chars_of, is_whitespace_char, starts_with, str_eq, trim_end_str, trim_start_str, trim_str,
};

#[test]
fn whitespace_is_the_unicode_property() {
    let mut code: u32 = 0;
    while code <= 0x10FFFF {
        if let Some(c) = char::from_u32(code) {
            assert_eq!(is_whitespace_char(c), c.is_whitespace(), "U+{code:04X}");
        }
        code += 1;
    }
}

#[test]
fn whitespace_examples() {
    for c in [' ', '\t', '\n', '\r', '\u{0B}', '\u{0C}', '\u{85}', '\u{A0}', '\u{3000}'] {
        assert!(is_whitespace_char(c));
    }
    for c in ['a', '-', '\u{200B}', '\u{1C}', '\u{180E}', '\u{FEFF}'] {
        assert!(!is_whitespace_char(c));
    }
}

#[test]
fn chars_of_keeps_every_character() {
    assert_eq!(chars_of(""), Vec::<char>::new());
    assert_eq!(chars_of("a\u{E9}\u{1F600}z"), vec!['a', '\u{E9}', '\u{1F600}', 'z']);
}

#[test]
fn str_eq_compares_contents() {
    assert!(str_eq("", ""));
    assert!(str_eq("letter", "letter"));
    assert!(!str_eq("letter", "Letter"));
    assert!(!str_eq("letter", "letter "));
    assert!(!str_eq("", "a"));
}

#[test]
fn starts_with_compares_the_front() {
    assert!(starts_with("", ""));
    assert!(starts_with("abc", ""));
    assert!(starts_with("abc", "ab"));
    assert!(starts_with("abc", "abc"));
    assert!(!starts_with("abc", "abcd"));
    assert!(!starts_with("abc", "bc"));
    assert!(!starts_with("", "a"));
    assert!(starts_with("\u{E9}t\u{E9}", "\u{E9}t"));
}

#[test]
fn trim_end_removes_trailing_whitespace_only() {
    assert_eq!(trim_end_str(""), "");
    assert_eq!(trim_end_str(" \n\t"), "");
    assert_eq!(trim_end_str("  a b \n\n"), "  a b");
    assert_eq!(trim_end_str("a"), "a");
    assert_eq!(trim_end_str("a\u{A0}\u{3000}"), "a");
    assert_eq!(trim_end_str("\u{E9}\u{1F600} "), "\u{E9}\u{1F600}");
}

#[test]
fn trim_start_removes_leading_whitespace_only() {
    assert_eq!(trim_start_str(""), "");
    assert_eq!(trim_start_str(" \n\t"), "");
    assert_eq!(trim_start_str("\n\n  a b  "), "a b  ");
    assert_eq!(trim_start_str("a "), "a ");
    assert_eq!(trim_start_str("\u{2003}\u{E9}"), "\u{E9}");
}

#[test]
fn trim_removes_both() {
    assert_eq!(trim_str(""), "");
    assert_eq!(trim_str("  "), "");
    assert_eq!(trim_str("\n title: x \n"), "title: x");
    assert_eq!(trim_str("a  b"), "a  b");
}

#[test]
fn trims_agree_with_std() {
    let samples = [
        "",
        " ",
        "a",
        " a",
        "a ",
        " a ",
        "\t\r\n a \u{85}b \u{2028}\u{2029}",
        "\u{1680}x\u{202F}",
        "\u{205F}\u{200A}",
        "x\u{200B}",
    ];
    for s in samples {
        assert_eq!(trim_start_str(s), s.trim_start());
        assert_eq!(trim_end_str(s), s.trim_end());
        assert_eq!(trim_str(s), s.trim());
    }
}

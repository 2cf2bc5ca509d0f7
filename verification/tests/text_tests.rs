use clipboard_translator::text::{
    encode_wide, is_blank, is_space, is_text, join, push_decimal, push_hex, same_text,
    strip_prefix,
};

fn strings(parts: &[&str]) -> Vec<String> {
    parts.iter().map(|p| p.to_string()).collect()
}

fn decimal(n: u64) -> String {
    let mut s = String::from("n=");
    push_decimal(&mut s, n);
    s
}

fn hex(n: u64) -> String {
    let mut s = String::from("0x");
    push_hex(&mut s, n);
    s
}

#[test]
fn join_puts_the_separator_between_parts() {
    assert_eq!(join(&strings(&[]), ", "), "");
    assert_eq!(join(&strings(&["a"]), ", "), "a");
    assert_eq!(join(&strings(&["a", "b"]), ", "), "a, b");
    assert_eq!(join(&strings(&["a", "", "c"]), "+"), "a++c");
    assert_eq!(join(&strings(&["", ""]), "+"), "+");
    assert_eq!(join(&strings(&["x", "y", "z"]), ""), "xyz");
}

#[test]
fn decimal_digits_of_numbers() {
    assert_eq!(decimal(0), "n=0");
    assert_eq!(decimal(9), "n=9");
    assert_eq!(decimal(10), "n=10");
    assert_eq!(decimal(503), "n=503");
    assert_eq!(decimal(65535), "n=65535");
    assert_eq!(decimal(u64::MAX), "n=18446744073709551615");
}

#[test]
fn hex_digits_of_numbers() {
    assert_eq!(hex(0), "0x0");
    assert_eq!(hex(9), "0x9");
    assert_eq!(hex(10), "0xA");
    assert_eq!(hex(15), "0xF");
    assert_eq!(hex(16), "0x10");
    assert_eq!(hex(0x7B), "0x7B");
    assert_eq!(hex(0xDEADBEEF), "0xDEADBEEF");
    assert_eq!(hex(u64::MAX), "0xFFFFFFFFFFFFFFFF");
}

#[test]
fn text_comparison() {
    assert!(same_text("abc", "abc"));
    assert!(same_text("", ""));
    assert!(!same_text("abc", "abd"));
    assert!(!same_text("abc", "ab"));
    assert!(is_text(&"STOP".to_string(), "STOP"));
    assert!(!is_text(&"STOP".to_string(), "stop"));
}

#[test]
fn strip_prefix_removes_a_leading_prefix() {
    assert_eq!(strip_prefix("models/x", "models/"), "x");
    assert_eq!(strip_prefix("x", "models/"), "x");
    assert_eq!(strip_prefix("models/", "models/"), "");
    assert_eq!(strip_prefix("model", "models/"), "model");
    assert_eq!(strip_prefix("abc", ""), "abc");
    assert_eq!(strip_prefix("", "a"), "");
    assert_eq!(strip_prefix("日本語のテキスト", "日本語"), "のテキスト");
    assert_eq!(strip_prefix("日本語のテキスト", "日本人"), "日本語のテキスト");
}

#[test]
fn blank_texts() {
    assert!(is_blank(""));
    assert!(is_blank(" "));
    assert!(is_blank(" \t\r\n\u{0B}\u{0C}"));
    assert!(is_blank("\u{3000}\u{A0}\u{85}\u{1680}\u{2000}\u{200A}\u{2028}\u{2029}\u{202F}\u{205F}"));
    assert!(!is_blank("a"));
    assert!(!is_blank("  a  "));
    assert!(!is_blank("\u{200B}"));
    assert!(!is_blank("\u{1F}"));
    assert!(!is_blank(" 日本語 "));
}

#[test]
fn blank_agrees_with_trim() {
    let samples = ["", " ", "x", " x ", "\n\n", "\u{3000}", "\u{FEFF}", "\u{180E}", "\u{200B} ", "\t.\t"];
    for s in samples {
        assert_eq!(is_blank(s), s.trim().is_empty(), "{:?}", s);
    }
}

#[test]
fn white_space_agrees_with_the_standard_library() {
    let mut code: u32 = 0;
    while code <= 0x3100 {
        if let Some(c) = char::from_u32(code) {
            assert_eq!(is_space(c), c.is_whitespace(), "U+{:04X}", code);
        }
        code += 1;
    }
    assert!(!is_space('\u{10FFFF}'));
}

#[test]
fn encode_wide_ends_with_zero() {
    assert_eq!(encode_wide(""), vec![0]);
    assert_eq!(encode_wide("A"), vec![0x41, 0]);
    assert_eq!(encode_wide("Key"), vec![0x4B, 0x65, 0x79, 0]);
    assert_eq!(encode_wide("日本"), vec![0x65E5, 0x672C, 0]);
    assert_eq!(encode_wide("\u{FFFF}"), vec![0xFFFF, 0]);
}

#[test]
fn encode_wide_uses_surrogate_pairs() {
    assert_eq!(encode_wide("\u{10000}"), vec![0xD800, 0xDC00, 0]);
    assert_eq!(encode_wide("\u{1F600}"), vec![0xD83D, 0xDE00, 0]);
    assert_eq!(encode_wide("\u{10FFFF}"), vec![0xDBFF, 0xDFFF, 0]);
    assert_eq!(encode_wide("a\u{1F600}b"), vec![0x61, 0xD83D, 0xDE00, 0x62, 0]);
}

#[test]
fn encode_wide_agrees_with_the_standard_library() {
    let samples = ["ClipboardTranslator_APIKey", "", "翻訳 \u{1F310} done", "\u{D7FF}\u{E000}\u{10FFFF}"];
    for s in samples {
        let expected: Vec<u16> = s.encode_utf16().chain(std::iter::once(0)).collect();
        assert_eq!(encode_wide(s), expected, "{:?}", s);
    }
}

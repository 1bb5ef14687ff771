use todomvc::text::{is_whitespace, push_decimal, push_signed_decimal, str_eq, trim};

#[test]
fn trim_removes_both_ends() {
    assert_eq!(trim("  Buy milk \t\n"), "Buy milk");
    assert_eq!(trim("Buy milk"), "Buy milk");
    assert_eq!(trim("  a  b  "), "a  b");
}

#[test]
fn trim_of_blank_is_empty() {
    assert_eq!(trim(""), "");
    assert_eq!(trim("   "), "");
    assert_eq!(trim("\t\r\n\u{0b}\u{0c}"), "");
}

#[test]
fn trim_handles_unicode_whitespace() {
    assert_eq!(trim("\u{3000}x\u{a0}\u{2028}"), "x");
    assert_eq!(trim("\u{200b}x"), "\u{200b}x");
}

#[test]
fn trim_agrees_with_std() {
    let samples = [
        "", " ", "a", " a", "a ", "\u{85}é\u{1680}", "\u{2000}\u{200a}z\u{202f}\u{205f}", "日本 ",
    ];
    for s in samples.iter() {
        assert_eq!(trim(s), s.trim());
    }
}

#[test]
fn whitespace_matches_std() {
    for u in 0u32..0x3100 {
        if let Some(c) = char::from_u32(u) {
            assert_eq!(is_whitespace(c), c.is_whitespace(), "code point {:x}", u);
        }
    }
}

#[test]
fn str_eq_compares_characters() {
    assert!(str_eq("#/active", "#/active"));
    assert!(!str_eq("#/active", "#/activ"));
    assert!(!str_eq("#/active", "#/Active"));
    assert!(str_eq("", ""));
}

#[test]
fn decimal_numerals() {
    for n in [0u64, 7, 9, 10, 404, 12345, u64::MAX] {
        let mut s = String::from("n=");
        push_decimal(&mut s, n);
        assert_eq!(s, format!("n={}", n));
    }
}

#[test]
fn signed_decimal_numerals() {
    for i in [i64::MIN, -1, 0, 1, 42, 9999, i64::MAX] {
        let mut s = String::new();
        push_signed_decimal(&mut s, i);
        assert_eq!(s, i.to_string());
    }
}

#[test]
fn trimming_twice_is_trimming_once() {
    for s in ["  a ", "", "\t", "b", " \u{2029}c d\u{85}"] {
        assert_eq!(trim(trim(s)), trim(s));
    }
}

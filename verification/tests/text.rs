use zed_fork_logic::text::{is_whitespace, push_decimal, push_decimal_i32, trim};

#[test]
fn trim_removes_unicode_whitespace_at_both_ends() {
    assert_eq!(trim("  a b \n"), "a b");
    assert_eq!(trim("\u{3000}\u{a0}x\u{2028}"), "x");
    assert_eq!(trim("\t\r\n "), "");
    assert_eq!(trim(""), "");
    assert_eq!(trim("x"), "x");
    assert_eq!(trim(" é "), "é");
}

#[test]
fn trim_agrees_with_std() {
    for s in ["", " ", " a ", "\u{85}a\u{1680}", "a\u{200b}", "\u{200a}b c\u{205f}", "\u{feff}d"] {
        assert_eq!(trim(s), s.trim());
    }
}

#[test]
fn whitespace_classification_agrees_with_std() {
    for u in 0u32..0x3100 {
        if let Some(c) = char::from_u32(u) {
            assert_eq!(is_whitespace(c), c.is_whitespace(), "{u:#x}");
        }
    }
}

#[test]
fn decimal_rendering() {
    let mut s = String::new();
    push_decimal(&mut s, 0);
    assert_eq!(s, "0");
    push_decimal(&mut s, 1234567890);
    assert_eq!(s, "01234567890");
    let mut s = String::from("n=");
    push_decimal(&mut s, u64::MAX);
    assert_eq!(s, format!("n={}", u64::MAX));
    let mut s = String::new();
    push_decimal_i32(&mut s, -45);
    assert_eq!(s, "-45");
    let mut s = String::new();
    push_decimal_i32(&mut s, i32::MIN);
    assert_eq!(s, i32::MIN.to_string());
}

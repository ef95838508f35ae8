use automation_core::text::{
    chars_of, ends_with, is_blank_text, push_decimal, push_signed_decimal, trim_end_char,
    trim_text,
};

#[test]
fn blank_means_only_whitespace() {
    assert!(is_blank_text(""));
    assert!(is_blank_text(" \t\r\n\u{85}\u{a0}\u{2009}\u{3000}"));
    assert!(!is_blank_text(" a "));
    assert!(!is_blank_text("\u{200b}"));
}

#[test]
fn trim_removes_both_ends() {
    assert_eq!(trim_text("  a b \n"), "a b");
    assert_eq!(trim_text("   "), "");
    assert_eq!(trim_text("x"), "x");
}

#[test]
fn trim_end_char_removes_repeats() {
    assert_eq!(trim_end_char("a///", '/'), "a");
    assert_eq!(trim_end_char("/a/b", '/'), "/a/b");
    assert_eq!(trim_end_char("", '/'), "");
}

#[test]
fn suffix_check() {
    assert!(ends_with("123@g.us", "@g.us"));
    assert!(!ends_with("@g.u", "@g.us"));
    assert!(ends_with("x", ""));
    assert!(!ends_with("123@g.usx", "@g.us"));
}

#[test]
fn decimal_rendering() {
    let mut s = String::from("n=");
    push_decimal(&mut s, 9070);
    assert_eq!(s, "n=9070");
    let mut s = String::new();
    push_signed_decimal(&mut s, -10);
    assert_eq!(s, "-10");
    let mut s = String::new();
    push_signed_decimal(&mut s, 0);
    assert_eq!(s, "0");
}

#[test]
fn chars_in_order() {
    assert_eq!(chars_of("héllo"), vec!['h', 'é', 'l', 'l', 'o']);
    assert_eq!(chars_of(""), Vec::<char>::new());
}

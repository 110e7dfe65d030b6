use music_bot::text::{
    copy_text, decimal_string, join, push_decimal, same_text, starts_with, wrap,
};

#[test]
fn decimal_numerals() {
    assert_eq!(decimal_string(0), "0");
    assert_eq!(decimal_string(7), "7");
    assert_eq!(decimal_string(10), "10");
    assert_eq!(decimal_string(109), "109");
    assert_eq!(decimal_string(1_234_567_890), "1234567890");
    assert_eq!(decimal_string(u128::MAX), "340282366920938463463374607431768211455");
}

#[test]
fn decimal_numerals_match_the_standard_library() {
    let mut n: u128 = 1;
    for _ in 0..38 {
        assert_eq!(decimal_string(n), n.to_string());
        assert_eq!(decimal_string(n - 1), (n - 1).to_string());
        n *= 10;
    }
}

#[test]
fn decimal_is_appended() {
    let mut s = String::from("n = ");
    push_decimal(&mut s, 42);
    assert_eq!(s, "n = 42");
    push_decimal(&mut s, 0);
    assert_eq!(s, "n = 420");
}

#[test]
fn join_puts_the_separator_between() {
    assert_eq!(join(&vec![], ", "), "");
    assert_eq!(join(&vec!["a".to_string()], ", "), "a");
    assert_eq!(join(&vec!["a".to_string(), "b".to_string()], ", "), "a, b");
    assert_eq!(join(&vec!["a".to_string(), "".to_string(), "c".to_string()], "-"), "a--c");
    assert_eq!(join(&vec!["a".to_string(), "b".to_string()], ""), "ab");
}

#[test]
fn prefixes() {
    assert!(starts_with("http://example.org", "http"));
    assert!(starts_with("https", "http"));
    assert!(starts_with("http", "http"));
    assert!(!starts_with("htt", "http"));
    assert!(!starts_with("", "http"));
    assert!(!starts_with(" http", "http"));
    assert!(!starts_with("HTTP://example.org", "http"));
    assert!(starts_with("anything", ""));
    assert!(starts_with("", ""));
    assert!(starts_with("héllo", "hé"));
    assert!(!starts_with("hello", "hé"));
}

#[test]
fn wrap_keeps_the_order() {
    assert_eq!(wrap("<", "x", ">"), "<x>");
    assert_eq!(wrap("", "", ""), "");
    assert_eq!(wrap("a", "", "b"), "ab");
}

#[test]
fn optional_text_is_copied() {
    assert_eq!(copy_text(&None), None);
    assert_eq!(copy_text(&Some("x".to_string())), Some("x".to_string()));
}

#[test]
fn same_text_compares_every_character() {
    assert!(same_text("", ""));
    assert!(same_text("current", "current"));
    assert!(!same_text("current", "currently"));
    assert!(!same_text("currently", "current"));
    assert!(!same_text("current", "Current"));
    assert!(!same_text("current", "disable"));
    assert!(!same_text("", "x"));
    assert!(same_text("héllo", "héllo"));
    assert!(!same_text("héllo", "hello"));
}

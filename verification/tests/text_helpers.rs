use rpaca::text::{
    copy_optional_text, copy_texts, decimal_text, join, signed_decimal_text, text_eq, trim_end,
    truth_text,
};

#[test]
fn texts_are_compared_by_their_characters() {
    assert!(text_eq("abc", "abc"));
    assert!(!text_eq("abc", "abd"));
    assert!(!text_eq("abc", "ab"));
    assert!(text_eq("", ""));
}

#[test]
fn copies_are_equal_to_their_originals() {
    let list = vec!["a".to_string(), "".to_string(), "b/c".to_string()];
    assert_eq!(copy_texts(&list), list);
    assert_eq!(copy_texts(&Vec::new()), Vec::<String>::new());
    assert_eq!(copy_optional_text(&Some("x".to_string())), Some("x".to_string()));
    assert_eq!(copy_optional_text(&None), None);
}

#[test]
fn trailing_characters_are_cut_off() {
    assert_eq!(trim_end("wss://host/", '/'), "wss://host");
    assert_eq!(trim_end("wss://host///", '/'), "wss://host");
    assert_eq!(trim_end("wss://host", '/'), "wss://host");
    assert_eq!(trim_end("///", '/'), "");
    assert_eq!(trim_end("", '/'), "");
    assert_eq!(trim_end("caf\u{e9}/", '/'), "caf\u{e9}");
    assert_eq!(trim_end("a/b", '/'), "a/b");
}

#[test]
fn lists_are_joined_with_a_separator() {
    assert_eq!(join(&vec![], ","), "");
    assert_eq!(join(&vec!["AAPL".to_string()], ","), "AAPL");
    assert_eq!(join(&vec!["AAPL".to_string(), "MSFT".to_string(), "".to_string()], ","), "AAPL,MSFT,");
    assert_eq!(join(&vec!["a".to_string(), "b".to_string()], " and "), "a and b");
}

#[test]
fn numbers_are_written_in_decimal() {
    assert_eq!(decimal_text(0), "0");
    assert_eq!(decimal_text(7), "7");
    assert_eq!(decimal_text(10), "10");
    assert_eq!(decimal_text(1234567890), "1234567890");
    assert_eq!(decimal_text(u128::MAX), u128::MAX.to_string());
    assert_eq!(signed_decimal_text(0), "0");
    assert_eq!(signed_decimal_text(-1), "-1");
    assert_eq!(signed_decimal_text(-9050), "-9050");
    assert_eq!(signed_decimal_text(i128::MIN), i128::MIN.to_string());
    assert_eq!(signed_decimal_text(i128::MAX), i128::MAX.to_string());
    assert_eq!(truth_text(true), "true");
    assert_eq!(truth_text(false), "false");
}

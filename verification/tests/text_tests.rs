use deva::text::{chars_of, decimal_string, parse_u32_chars, remove_char, same_text, words_from, join_strings};
use deva::json::{field, JsonMember, JsonValue};
use deva::webhooks::HandlerRegistry;

fn words(s: &str) -> Vec<String> {
    words_from(&chars_of(s), 0)
}

fn parse(s: &str) -> Option<u32> {
    parse_u32_chars(&chars_of(s))
}

#[test]
fn decimal_rendering() {
    assert_eq!(decimal_string(0), "0");
    assert_eq!(decimal_string(7), "7");
    assert_eq!(decimal_string(10), "10");
    assert_eq!(decimal_string(u64::MAX), "18446744073709551615");
}

#[test]
fn words_match_split_whitespace() {
    for s in ["", "   ", "a", " a  b\tc\n", "x\u{a0}y\u{2003}z", "a\u{200b}b"] {
        let expected: Vec<String> = s.split_whitespace().map(|w| w.to_string()).collect();
        assert_eq!(words(s), expected, "{:?}", s);
    }
}

#[test]
fn u32_parsing_matches_std() {
    for s in ["0", "42", "+42", "007", "4294967295", "4294967296", "", "+", "-1", "1a", " 1", "٣", "99999999999999999999"] {
        assert_eq!(parse(s), s.parse::<u32>().ok(), "{:?}", s);
    }
}

#[test]
fn joining_and_removing() {
    let v = vec!["a=1".to_string(), "b=2".to_string()];
    assert_eq!(join_strings(&v, "&"), "a=1&b=2");
    assert_eq!(join_strings(&Vec::new(), "&"), "");
    assert_eq!(remove_char("ab\ncd\n", '\n'), "abcd");
}

#[test]
fn webhook_delivery_order() {
    let mut registry = HandlerRegistry::new();
    assert_eq!(registry.on("opened".to_string()), 0);
    assert_eq!(registry.on("*".to_string()), 1);
    assert_eq!(registry.on("closed".to_string()), 2);
    assert_eq!(registry.on("opened".to_string()), 3);
    assert_eq!(registry.targets(Some("opened")), vec![0, 1, 3]);
    assert_eq!(registry.targets(Some("closed")), vec![1, 2]);
    assert_eq!(registry.targets(None), vec![1]);
    assert_eq!(registry.targets(Some("labeled")), vec![1]);
    let mut plain = HandlerRegistry::new();
    plain.on("".to_string());
    assert_eq!(plain.targets(None), vec![0]);
}

#[test]
fn same_text_compares_characters() {
    assert!(same_text("content", "content"));
    assert!(same_text("", ""));
    assert!(!same_text("content", "Content"));
    assert!(!same_text("conten", "content"));
    assert!(same_text("héllo", "héllo"));
}

#[test]
fn field_finds_the_first_member_of_that_name() {
    let m = |k: &str, v: u64| JsonMember { key: k.to_string(), value: JsonValue::UInt(v) };
    let obj = JsonValue::Object(vec![m("a", 1), m("b", 2), m("a", 3)]);
    assert_eq!(field(&obj, "a"), Some(&JsonValue::UInt(1)));
    assert_eq!(field(&obj, "b"), Some(&JsonValue::UInt(2)));
    assert_eq!(field(&obj, "c"), None);
    assert_eq!(field(&JsonValue::Null, "a"), None);
}

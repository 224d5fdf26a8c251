use hard::text::{
    contains, parse_seconds_ms, parse_usize, replace_text, same_text, second_field_of, starts_with,
};

#[test]
fn prefix_and_infix() {
    assert!(starts_with("cesspool:3", "cesspool"));
    assert!(!starts_with("cess", "cesspool"));
    assert!(starts_with("anything", ""));
    assert!(contains("pir_invert_state", "invert_state"));
    assert!(!contains("pir_invert", "invert_state"));
    assert!(contains("", ""));
    assert!(same_text("Switch", "Switch"));
    assert!(!same_text("Switch", "switch"));
}

#[test]
fn second_field_between_colons() {
    assert_eq!(second_field_of("cmd:/bin/a%colon%b:zz"), Some("/bin/a%colon%b".to_string()));
    assert_eq!(second_field_of("cesspool:4"), Some("4".to_string()));
    assert_eq!(second_field_of("a:"), Some("".to_string()));
    assert_eq!(second_field_of("nocolon"), None);
}

#[test]
fn replace_every_occurrence() {
    assert_eq!(replace_text("a%name%b%name%", "%name%", "X"), "aXbX");
    assert_eq!(replace_text("aaa", "aa", "b"), "ba");
    assert_eq!(replace_text("none here", "%state%", "on"), "none here");
}

#[test]
fn parse_unsigned() {
    assert_eq!(parse_usize("42"), Some(42));
    assert_eq!(parse_usize("+7"), Some(7));
    assert_eq!(parse_usize("007"), Some(7));
    assert_eq!(parse_usize(""), None);
    assert_eq!(parse_usize("+"), None);
    assert_eq!(parse_usize("4a"), None);
    assert_eq!(parse_usize("-1"), None);
    assert_eq!(parse_usize("999999999999999999999999999"), None);
}

#[test]
fn parse_seconds_into_milliseconds() {
    assert_eq!(parse_seconds_ms("30"), Some(30000));
    assert_eq!(parse_seconds_ms("1.5"), Some(1500));
    assert_eq!(parse_seconds_ms("0.0015"), Some(1));
    assert_eq!(parse_seconds_ms("5."), Some(5000));
    assert_eq!(parse_seconds_ms(".5"), Some(500));
    assert_eq!(parse_seconds_ms("+5"), Some(5000));
    assert_eq!(parse_seconds_ms("+.25"), Some(250));
    assert_eq!(parse_seconds_ms("."), None);
    assert_eq!(parse_seconds_ms("+"), None);
    assert_eq!(parse_seconds_ms("-5"), None);
    assert_eq!(parse_seconds_ms("1e1"), None);
    assert_eq!(parse_seconds_ms("inf"), None);
    assert_eq!(parse_seconds_ms("x"), None);
    assert_eq!(parse_seconds_ms("1.2.3"), None);
    assert_eq!(parse_seconds_ms(""), None);
}

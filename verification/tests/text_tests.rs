use tbo::text::{
    chars_of, contains_str, equals_str, join_words, parse_u64, push_channel_mention, push_decimal,
    push_padded2, starts_with_str,
};

#[test]
fn decimal_numerals() {
    let mut s = String::new();
    push_decimal(&mut s, 0);
    assert_eq!(s, "0");
    let mut s = String::from("n=");
    push_decimal(&mut s, 1234567890);
    assert_eq!(s, "n=1234567890");
    let mut s = String::new();
    push_decimal(&mut s, u64::MAX);
    assert_eq!(s, "18446744073709551615");
}

#[test]
fn padded_numerals() {
    let mut s = String::new();
    push_padded2(&mut s, 0);
    push_padded2(&mut s, 7);
    push_padded2(&mut s, 42);
    push_padded2(&mut s, 123);
    assert_eq!(s, "000742123");
}

#[test]
fn channel_mentions() {
    let mut s = String::from("in ");
    push_channel_mention(&mut s, 806);
    assert_eq!(s, "in <#806>");
}

#[test]
fn chars_of_text() {
    assert_eq!(chars_of("aé€"), vec!['a', 'é', '€']);
    assert!(chars_of("").is_empty());
}

#[test]
fn substring_tests() {
    assert!(contains_str("go away, fuckoff now", "fuckoff"));
    assert!(contains_str("fuckoff", "fuckoff"));
    assert!(!contains_str("fuck off", "fuckoff"));
    assert!(!contains_str("fuckof", "fuckoff"));
    assert!(contains_str("anything", ""));
    assert!(starts_with_str("Rick - Song", "Rick - "));
    assert!(!starts_with_str("Rick", "Rick - "));
    assert!(equals_str("file", "file"));
    assert!(!equals_str("file", "files"));
    assert!(!equals_str("f", "g"));
}

#[test]
fn joining_words() {
    assert_eq!(join_words(&vec![]), "");
    assert_eq!(join_words(&vec!["one".to_string()]), "one");
    assert_eq!(
        join_words(&vec!["never".to_string(), "gonna".to_string(), "\"give up\"".to_string()]),
        "never gonna \"give up\""
    );
}

#[test]
fn parsing_unsigned() {
    assert_eq!(parse_u64(b"42"), Some(42));
    assert_eq!(parse_u64(b"+42"), Some(42));
    assert_eq!(parse_u64(b"007"), Some(7));
    assert_eq!(parse_u64(b""), None);
    assert_eq!(parse_u64(b"+"), None);
    assert_eq!(parse_u64(b"-1"), None);
    assert_eq!(parse_u64(b"1a"), None);
    assert_eq!(parse_u64(b":30"), None);
    assert_eq!(parse_u64(b"18446744073709551615"), Some(u64::MAX));
    assert_eq!(parse_u64(b"18446744073709551616"), None);
    assert_eq!(parse_u64(b"99999999999999999999x"), None);
}

#[test]
fn parsing_agrees_with_std() {
    for s in ["0", "+0", "12", "+", "", "-3", "1 2", "4294967296", "18446744073709551616"] {
        assert_eq!(parse_u64(s.as_bytes()), s.parse::<u64>().ok(), "{}", s);
    }
}

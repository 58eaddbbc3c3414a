//! Texts, numbers, maps and errors.

use osquery_rs_sdk::number::{i64_text, parse_i64, u64_text, IntError};
use osquery_rs_sdk::text::{is_true_text, text_eq, text_lt};
use osquery_rs_sdk::text_map::TextMap;
use osquery_rs_sdk::Error;

#[test]
fn numbers_are_written_and_read() {
    for n in [0, 1, -1, 9, 10, -10, 12345, i64::MAX, i64::MIN] {
        assert_eq!(i64_text(n), n.to_string());
        assert_eq!(parse_i64(&i64_text(n)), Ok(n));
    }
    assert_eq!(u64_text(u64::MAX), "18446744073709551615");
}

#[test]
fn numbers_are_refused() {
    let cases = [
        ("", IntError::Empty),
        ("-", IntError::InvalidDigit),
        ("+", IntError::InvalidDigit),
        ("1 ", IntError::InvalidDigit),
        ("--1", IntError::InvalidDigit),
        ("1.0", IntError::InvalidDigit),
        ("9223372036854775808", IntError::TooLarge),
        ("-9223372036854775809", IntError::TooSmall),
        ("99999999999999999999x", IntError::TooLarge),
        ("x99999999999999999999", IntError::InvalidDigit),
    ];
    for (text, expected) in cases {
        assert_eq!(parse_i64(text), Err(expected), "{text}");
        assert_eq!(
            expected.to_string(),
            text.parse::<i64>().unwrap_err().to_string(),
            "{text}"
        );
    }
    for text in ["+5", "-0", "007"] {
        assert_eq!(parse_i64(text).ok(), text.parse::<i64>().ok());
    }
}

#[test]
fn texts_compare_by_bytes() {
    for (a, b) in [("a", "b"), ("", "a"), ("Z", "a"), ("z", "\u{e9}"), ("a", "ab")] {
        assert!(text_lt(a, b));
        assert!(!text_lt(b, a));
        assert!(!text_eq(a, b));
        assert!(a < b);
    }
    assert!(text_eq("x", "x"));
    assert!(!text_lt("x", "x"));
    assert_eq!(osquery_rs_sdk::text::concat("ab", "c"), "abc");
    assert!(is_true_text("true") && is_true_text("TrUe"));
    assert!(!is_true_text("1") && !is_true_text("true ") && !is_true_text("\u{e9}rue"));
}

#[test]
fn maps_keep_text_order() {
    let mut map = TextMap::from_pairs(vec![
        ("b".to_string(), 1),
        ("a".to_string(), 2),
        ("b".to_string(), 3),
    ]);
    assert_eq!(map.len(), 2);
    assert_eq!(map.get("b"), Some(&3));
    assert_eq!(map.insert("c".to_string(), 4), None);
    assert_eq!(map.insert("a".to_string(), 5), Some(2));
    *map.entry("d".to_string(), 6) += 1;
    *map.entry("a".to_string(), 6) += 1;
    let entries: Vec<(String, i32)> = map.iter().iter().map(|(k, v)| (k.to_string(), **v)).collect();
    assert_eq!(
        entries,
        vec![
            ("a".to_string(), 6),
            ("b".to_string(), 3),
            ("c".to_string(), 4),
            ("d".to_string(), 7)
        ]
    );
    assert!(map.contains_key("d") && !map.contains_key("e"));
    assert_eq!(map.clone(), map);
    assert!(!map.is_empty());
}

#[test]
fn errors_in_words() {
    assert_eq!(Error::other("a").context("b").to_string(), "b - a");
    assert_eq!(
        Error::Transport("a".to_string()).context("b"),
        Error::Transport("b - a".to_string())
    );
    let status = Error::Status {
        code: -2,
        message: "m".to_string(),
    };
    assert_eq!(status.to_string(), "status -2: m");
    assert_eq!(
        status.context("c"),
        Error::Status {
            code: -2,
            message: "c - m".to_string(),
        }
    );
}

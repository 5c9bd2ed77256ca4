//! Text: whitespace, numbers in print and the order of strings.

use buzz_playbook::text::{
    is_blank, is_text_less, is_white_space, same_bytes, same_text, signed_text, trim_start,
    unsigned_text,
};
use buzz_playbook::time::Timestamp;

#[test]
fn white_space_is_that_of_the_standard_library() {
    for code in 0..=0x10ffff_u32 {
        if let Some(c) = char::from_u32(code) {
            assert_eq!(is_white_space(c), c.is_whitespace(), "{code:x}");
        }
    }
}

#[test]
fn blank_text() {
    for value in ["", " ", "\t\r\n", "\u{a0}\u{2003}"] {
        assert!(is_blank(value));
        assert_eq!(trim_start(value), "");
    }
    for value in ["a", " a", "a ", "\u{200b}"] {
        assert!(!is_blank(value));
    }
    assert_eq!(trim_start(" \u{3000}\u{e9}t\u{e9} "), "\u{e9}t\u{e9} ");
}

#[test]
fn numbers_in_print() {
    for n in [0, 9, 10, 1_000_000, u64::MAX] {
        assert_eq!(unsigned_text(n), n.to_string());
    }
    for n in [0, 7, -7, 10, -10, i64::MAX, i64::MIN] {
        assert_eq!(signed_text(n), n.to_string());
    }
}

#[test]
fn strings_are_ordered_by_their_bytes() {
    let values = ["", "a", "aa", "ab", "b", "\u{7f}", "\u{e9}", "\u{ffff}", "\u{10000}"];
    for left in values {
        for right in values {
            assert_eq!(is_text_less(left, right), left < right);
            assert_eq!(same_text(left, right), left == right);
            assert_eq!(
                same_bytes(left.as_bytes(), right.as_bytes()),
                left == right
            );
        }
    }
}

#[test]
fn moments_are_ordered_by_seconds_and_then_nanoseconds() {
    let early = Timestamp {
        seconds: -1,
        nanos: 999_999_999,
    };
    let late = Timestamp {
        seconds: 0,
        nanos: 0,
    };
    let later = Timestamp {
        seconds: 0,
        nanos: 1,
    };
    assert!(early.is_before(&late) && late.is_before(&later));
    assert!(!late.is_before(&early) && !later.is_before(&late) && !late.is_before(&late));
}

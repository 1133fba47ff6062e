use zundamon_vrc::assoc::find_key;
use zundamon_vrc::text::{
    any_line_contains, eq_ignore_ascii_case_str, parse_u32_str, split_once_str, str_contains,
    str_precedes, strip_cr_str, trim_str, u64_to_decimal,
};

#[test]
fn trimming_twice_is_trimming_once() {
    for s in ["  a b  ", "\u{3000}全角\u{3000}", "", " \t\n", "x"] {
        let once = trim_str(s);
        assert_eq!(trim_str(once), once);
        assert_eq!(once, s.trim());
    }
}

#[test]
fn line_search_follows_str_lines() {
    assert!(any_line_contains("a\r\nsink-1\r\n", "sink-1"));
    assert!(!any_line_contains("a\r\nsink-1\r\n", "1\r"));
    assert!(any_line_contains("last line without end", "without"));
    assert!(any_line_contains("\n", ""));
    assert!(!any_line_contains("", ""));
    assert!(str_contains("abcabd", "abd"));
    assert!(!str_contains("ab", "abc"));
    assert_eq!(strip_cr_str("x\r"), "x");
    assert_eq!(split_once_str("k=v=w", '='), Some(("k", "v=w")));
}

#[test]
fn unsigned_parsing_matches_std() {
    for s in ["0", "007", "+42", "4294967295", "4294967296", "", "+", "-0", " 1", "1_0", "１"] {
        assert_eq!(parse_u32_str(s), s.parse::<u32>().ok(), "{s:?}");
    }
    assert_eq!(u64_to_decimal(0), "0");
    assert_eq!(u64_to_decimal(18446744073709551615), "18446744073709551615");
}

#[test]
fn code_point_order_matches_str_order() {
    let words = ["", "a", "ab", "b", "B", "é", "あ", "ab\u{0}"];
    for a in words {
        for b in words {
            assert_eq!(str_precedes(a, b), a < b, "{a:?} {b:?}");
        }
    }
    assert!(eq_ignore_ascii_case_str("VoiceVox", "voicevox"));
}

#[test]
fn first_pair_with_a_key() {
    let pairs = vec![("a".to_string(), 1), ("b".to_string(), 2), ("a".to_string(), 3)];
    assert_eq!(find_key(&pairs, "a"), Some(0));
    assert_eq!(find_key(&pairs, "b"), Some(1));
    assert_eq!(find_key(&pairs, "c"), None);
}

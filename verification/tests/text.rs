//! Characters, words and numbers.

use crossbridge::compose::{decimal_i64, decimal_u128, decimal_usize, join};
use crossbridge::order::sort_names;
use crossbridge::text::{
    cut_after_first, cut_after_last, cut_after_marker, cut_before_first, is_white_space,
    split_white, strip_prefix, strip_suffix, trim, trim_end_of,
};

#[test]
fn white_space_is_that_of_std() {
    for c in '\0'..=char::MAX {
        assert_eq!(is_white_space(c), c.is_whitespace(), "{:x}", c as u32);
    }
}

#[test]
fn trimming_is_that_of_std() {
    for s in ["", " ", "a", " a ", "\u{3000}ü b\u{85}\n", "\tx", "x\t", "\u{200b}x"] {
        assert_eq!(trim(s), s.trim(), "{s:?}");
    }
    assert_eq!(trim_end_of("a//", "/"), "a");
    assert_eq!(trim_end_of("///", "/"), "");
}

#[test]
fn texts_are_cut() {
    assert_eq!(cut_before_first("a?b#c", "?#"), "a");
    assert_eq!(cut_before_first("abc", "?#"), "abc");
    assert_eq!(cut_after_first("a:b:c", ":"), Some("b:c"));
    assert_eq!(cut_after_first("abc", ":"), None);
    assert_eq!(cut_after_last("a/b:c", "/:"), "c");
    assert_eq!(cut_after_last("abc", "/:"), "abc");
    assert_eq!(cut_after_marker("ssh://h/p", "://"), Some("h/p"));
    assert_eq!(cut_after_marker("ssh:/h/p", "://"), None);
    assert_eq!(strip_prefix("xb-ref:7", "xb-ref:"), Some("7"));
    assert_eq!(strip_prefix("xb-re", "xb-ref:"), None);
    assert_eq!(strip_suffix("a.git", ".git"), Some("a"));
    assert_eq!(strip_suffix("git", ".git"), None);
    assert_eq!(split_white("a  b c"), ("a", " b c"));
    assert_eq!(split_white(" a"), ("", "a"));
    assert_eq!(split_white("a"), ("a", ""));
}

#[test]
fn numbers_are_those_of_std() {
    for n in [0i64, 7, -7, 10, 1234567890, i64::MAX, i64::MIN] {
        assert_eq!(decimal_i64(n), n.to_string());
    }
    assert_eq!(decimal_u128(u128::MAX), u128::MAX.to_string());
    assert_eq!(decimal_usize(usize::MAX), usize::MAX.to_string());
}

#[test]
fn names_are_sorted_as_std_sorts_them() {
    let names = ["b", "a", "", "ab", "B", "ü", "z", "\u{10000}", "\u{ffff}", "a"];
    let names: Vec<String> = names.iter().map(|n| n.to_string()).collect();
    let mut expected = names.clone();
    expected.sort();
    assert_eq!(sort_names(names), expected);
    assert_eq!(join(&vec!["a".into(), "b".into(), "".into()], ", "), "a, b, ");
}

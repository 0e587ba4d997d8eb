//! Labels on issues.

use crossbridge::labels::{
    find_prefixed, has, ref_label, INBOUND, OUTBOUND, REF_PREFIX, SOURCE_PREFIX,
};

fn s(labels: &[&str]) -> Vec<String> {
    labels.iter().map(|l| l.to_string()).collect()
}

#[test]
fn finds_source_and_ref() {
    let labels = s(&["type:request", "xb:inbound", "xb-source:firmware", "xb-ref:abc-123"]);
    assert_eq!(find_prefixed(&labels, SOURCE_PREFIX), Some("firmware"));
    assert_eq!(find_prefixed(&labels, REF_PREFIX), Some("abc-123"));
}

#[test]
fn missing_prefix_yields_none() {
    let labels = s(&["xb:inbound"]);
    assert_eq!(find_prefixed(&labels, SOURCE_PREFIX), None);
}

#[test]
fn has_marker() {
    let labels = s(&["xb:inbound", "type:request"]);
    assert!(has(&labels, INBOUND));
    assert!(!has(&labels, OUTBOUND));
}

#[test]
fn ref_label_format() {
    assert_eq!(ref_label("42"), "xb-ref:42");
}

#[test]
fn the_first_label_with_the_prefix_counts() {
    let labels = s(&["xb-ref", "xb-ref:", "xb-ref:b"]);
    assert_eq!(find_prefixed(&labels, REF_PREFIX), Some(""));
    assert!(!has(&[], INBOUND));
}

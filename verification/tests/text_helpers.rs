use wgram::text::{clock_label, contains_sub, to_lower};

#[test]
fn folding_lowers_mixed_case() {
    assert_eq!(to_lower("HeLLo"), "hello");
    assert_eq!(to_lower("already lower"), "already lower");
    assert_eq!(to_lower(""), "");
}

#[test]
fn containment_finds_substrings() {
    assert!(contains_sub("hello world", "lo wo"));
    assert!(contains_sub("hello", "hello"));
    assert!(contains_sub("hello", ""));
    assert!(!contains_sub("hello", "world"));
    assert!(!contains_sub("", "a"));
}

#[test]
fn clock_labels_are_zero_padded() {
    assert_eq!(clock_label(9, 30), "09:30");
    assert_eq!(clock_label(23, 5), "23:05");
    assert_eq!(clock_label(0, 0), "00:00");
    assert_eq!(clock_label(12, 59), "12:59");
}

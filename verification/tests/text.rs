//! Tests for the substring search that backs the search filter.

use jobtrack::text::str_contains;

#[test]
fn the_empty_needle_occurs_everywhere() {
    assert!(str_contains("", ""));
    assert!(str_contains("abc", ""));
}

#[test]
fn a_needle_longer_than_the_hay_never_occurs() {
    assert!(!str_contains("ab", "abc"));
    assert!(!str_contains("", "a"));
}

#[test]
fn needles_are_found_at_the_start_middle_and_end() {
    assert!(str_contains("hello world", "hello"));
    assert!(str_contains("hello world", "o w"));
    assert!(str_contains("hello world", "world"));
    assert!(str_contains("hello world", "hello world"));
}

#[test]
fn matching_is_case_sensitive() {
    assert!(!str_contains("Acme", "acme"));
    assert!(str_contains("Acme", "cme"));
}

#[test]
fn overlapping_near_misses_are_still_found() {
    assert!(str_contains("aaab", "aab"));
    assert!(!str_contains("aabaa", "aba_"));
    assert!(str_contains("abababc", "ababc"));
}

#[test]
fn absent_needles_are_not_found() {
    assert!(!str_contains("hello", "z"));
    assert!(!str_contains("hello", "lle"));
}

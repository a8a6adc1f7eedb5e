use object_store::text::{
    chars_of, contains, decimal, ends_with, join, join3, matches_at, same_text, sorts_before,
    starts_with, text_contains, text_ends_with, text_starts_with, without_first,
};

#[test]
fn substring_search() {
    assert!(text_contains("a..b", ".."));
    assert!(!text_contains("a.b.c", ".."));
    assert!(text_contains("abc", ""));
    assert!(text_contains("", ""));
    assert!(!text_contains("", "a"));
    assert!(text_contains("xxNoSuchKeyxx", "NoSuchKey"));
    assert!(text_contains("NoSuchKey", "NoSuchKey"));
    assert!(!text_contains("NoSuchKe", "NoSuchKey"));
    assert!(text_contains("aab", "ab"));
    let t = chars_of("hello");
    let p = chars_of("llo");
    assert!(matches_at(&t, &p, 2));
    assert!(!matches_at(&t, &p, 3));
    assert!(!matches_at(&t, &p, 9));
    assert!(contains(&t, &p));
}

#[test]
fn prefixes_and_suffixes() {
    assert!(text_starts_with("/etc", "/"));
    assert!(!text_starts_with("etc/", "/"));
    assert!(text_starts_with("abc", ""));
    assert!(!text_starts_with("ab", "abc"));
    assert!(text_ends_with("a/.bucket", "/.bucket"));
    assert!(!text_ends_with(".bucket", "/.bucket"));
    assert!(text_ends_with("abc", ""));
    let t = chars_of("file.meta.json");
    assert!(ends_with(&t, &chars_of(".meta.json")));
    assert!(starts_with(&t, &chars_of("file")));
}

#[test]
fn equality_and_order() {
    assert!(same_text("abc", "abc"));
    assert!(!same_text("abc", "abd"));
    assert!(!same_text("abc", "ab"));
    assert!(same_text("", ""));
    let order = |a: &str, b: &str| sorts_before(&chars_of(a), &chars_of(b));
    assert!(order("", "a"));
    assert!(order("a", "a"));
    assert!(order("a", "ab"));
    assert!(!order("ab", "a"));
    assert!(order("2024-01-01T00:00:00+00:00", "2024-01-02T00:00:00+00:00"));
    assert!(!order("b", "a"));
    for (a, b) in [("é", "z"), ("z", "é"), ("a\u{10000}", "a\u{ffff}"), ("", "")] {
        assert_eq!(order(a, b), a <= b);
    }
}

#[test]
fn building_text() {
    assert_eq!(join("ab", "cd"), "abcd");
    assert_eq!(join3("a", "/", "b"), "a/b");
    assert_eq!(without_first("bucket/key", 7), "key");
    assert_eq!(without_first("é/key", 2), "key");
    assert_eq!(without_first("abc", 3), "");
    assert_eq!(chars_of("aé"), vec!['a', 'é']);
}

#[test]
fn decimal_numerals() {
    assert_eq!(decimal(0), "0");
    assert_eq!(decimal(7), "7");
    assert_eq!(decimal(10), "10");
    assert_eq!(decimal(13), "13");
    assert_eq!(decimal(3600), "3600");
    assert_eq!(decimal(u64::MAX), "18446744073709551615");
    for n in [1u64, 99, 100, 101, 65535, 1_000_000_007] {
        assert_eq!(decimal(n), n.to_string());
    }
}

use catbird::codec::base64url_encode;
use catbird::text;
use catbird::text::{
    chars_contain, chars_end_with, chars_eq, chars_of, chars_start_with, chars_to_ascii_lower,
    contains, ends_with, find_char, i64_decimal, owned, slice_string, starts_with, str_eq,
    to_ascii_upper, trim, trim_bounds, u64_decimal,
};

#[test]
fn decimal_numerals() {
    assert_eq!(u64_decimal(0), "0");
    assert_eq!(u64_decimal(7), "7");
    assert_eq!(u64_decimal(10), "10");
    assert_eq!(u64_decimal(429), "429");
    assert_eq!(u64_decimal(u64::MAX), "18446744073709551615");
    assert_eq!(i64_decimal(0), "0");
    assert_eq!(i64_decimal(-1), "-1");
    assert_eq!(i64_decimal(1_700_000_000), "1700000000");
    assert_eq!(i64_decimal(i64::MAX), "9223372036854775807");
    assert_eq!(i64_decimal(i64::MIN), "-9223372036854775808");
}

#[test]
fn characters_of_a_text() {
    assert_eq!(chars_of("aé→"), vec!['a', 'é', '→']);
    assert!(chars_of("").is_empty());
    assert_eq!(owned("xyz"), "xyz");
    assert_eq!(slice_string(&chars_of("hello world"), 6, 11), "world");
    assert_eq!(slice_string(&chars_of("hello"), 2, 2), "");
}

#[test]
fn joining_texts() {
    assert_eq!(text::concat("ab", "cd"), "abcd");
    assert_eq!(text::concat("", ""), "");
    assert_eq!(text::concat3("a", "-", "b"), "a-b");
}

#[test]
fn comparing_texts() {
    assert!(str_eq("abc", "abc"));
    assert!(!str_eq("abc", "abd"));
    assert!(!str_eq("abc", "ab"));
    assert!(str_eq("", ""));
    assert!(chars_eq(&chars_of("é"), &chars_of("é")));
    assert!(!chars_eq(&chars_of("a"), &chars_of("A")));
}

#[test]
fn prefixes_suffixes_and_parts() {
    assert!(starts_with("blue.catbird.mls.x", "blue.catbird.mls."));
    assert!(!starts_with("blue.catbird", "blue.catbird.mls."));
    assert!(starts_with("abc", ""));
    assert!(ends_with("printer.local", ".local"));
    assert!(!ends_with("local", ".local"));
    assert!(ends_with("abc", ""));
    assert!(contains("error: invalid_grant here", "invalid_grant"));
    assert!(contains("abc", ""));
    assert!(contains("abc", "abc"));
    assert!(contains("xxabc", "abc"));
    assert!(!contains("ab", "abc"));
    assert!(!contains("invalid-grant", "invalid_grant"));
    assert!(chars_start_with(&chars_of("abc"), &chars_of("ab")));
    assert!(chars_end_with(&chars_of("abc"), &chars_of("bc")));
    assert!(chars_contain(&chars_of("aab"), &chars_of("ab")));
    assert!(!chars_contain(&chars_of(""), &chars_of("a")));
}

#[test]
fn finding_a_character() {
    let v = chars_of("a=b;c=d");
    assert_eq!(find_char(&v, ';', 0), 3);
    assert_eq!(find_char(&v, '=', 2), 5);
    assert_eq!(find_char(&v, '#', 0), 7);
    assert_eq!(find_char(&v, 'a', 7), 7);
}

#[test]
fn ascii_letter_case() {
    assert_eq!(to_ascii_upper("get"), "GET");
    assert_eq!(to_ascii_upper("Post1-é"), "POST1-é");
    assert_eq!(chars_to_ascii_lower(&chars_of("Content-TYPE")), chars_of("content-type"));
    assert_eq!(chars_to_ascii_lower(&chars_of("É")), chars_of("É"));
}

#[test]
fn trimming_white_space() {
    assert_eq!(trim("  a b \t\n"), "a b");
    assert_eq!(trim(""), "");
    assert_eq!(trim(" \u{a0}\u{3000} "), "");
    assert_eq!(trim("x"), "x");
    assert_eq!(trim_bounds(&chars_of("  ab  "), 0, 6), (2, 4));
    assert_eq!(trim_bounds(&chars_of("  ab  "), 1, 3), (2, 3));
    assert_eq!(trim_bounds(&chars_of("    "), 0, 4), (4, 4));
}

#[test]
fn base64url_without_padding() {
    assert_eq!(base64url_encode(b"").as_deref(), Some(""));
    assert_eq!(base64url_encode(b"f").as_deref(), Some("Zg"));
    assert_eq!(base64url_encode(b"fo").as_deref(), Some("Zm8"));
    assert_eq!(base64url_encode(b"foo").as_deref(), Some("Zm9v"));
    assert_eq!(base64url_encode(&[0xfb, 0xff]).as_deref(), Some("-_8"));
    assert_eq!(base64url_encode(&[0u8; 32]).unwrap().len(), 43);
}

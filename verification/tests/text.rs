use bsproxy::unicode::is_whitespace;
use bsproxy::text::{contains_exec, find_char, push_decimal, trim_bounds};

fn chars(s: &str) -> Vec<char> {
    s.chars().collect()
}

#[test]
fn substring_search() {
    assert!(contains_exec(&chars("hello world"), &chars("o w")));
    assert!(contains_exec(&chars("abc"), &chars("")));
    assert!(!contains_exec(&chars("abc"), &chars("abcd")));
    assert!(!contains_exec(&chars("abc"), &chars("ac")));
}

#[test]
fn decimal_notation() {
    let mut s = String::from("n=");
    push_decimal(&mut s, 0);
    assert_eq!(s, "n=0");
    let mut s = String::new();
    push_decimal(&mut s, 65535);
    assert_eq!(s, "65535");
}

#[test]
fn char_search_and_trim() {
    let t = chars("  a b \n");
    assert_eq!(find_char(&t, '\n', 0), 6);
    assert_eq!(find_char(&t, 'z', 2), 7);
    assert_eq!(trim_bounds(&t, 0, 7), (2, 5));
    assert_eq!(trim_bounds(&t, 0, 2), (2, 2));
}

#[test]
fn white_space_is_the_unicode_property() {
    for u in 0u32..=0x10ffff {
        if let Some(c) = char::from_u32(u) {
            assert_eq!(is_whitespace(c), c.is_whitespace(), "U+{:04X}", u);
        }
    }
}

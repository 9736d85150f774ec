use wlcontrol::text::{
    blank, decimal_text, file_name, join, parse_number, parse_small_number, same_ignoring_case,
    split_words, trim, trim_quotes, white_space,
};

#[test]
fn white_space_is_that_of_unicode() {
    for c in '\0'..='\u{10ffff}' {
        assert_eq!(white_space(c), c.is_whitespace(), "{c:?}");
    }
}

#[test]
fn trimming_takes_both_ends() {
    for text in ["", " ", " a b\n", "\u{3000}x\u{a0}", "a", "\u{200b}a"] {
        assert_eq!(trim(text), text.trim());
        assert_eq!(blank(text), text.trim().is_empty());
        let words: Vec<&str> = text.split_whitespace().collect();
        assert_eq!(split_words(text), words);
    }
    assert_eq!(trim_quotes("\"\"a\"b\""), "a\"b");
    assert_eq!(trim_quotes("\""), "");
}

#[test]
fn numbers_are_written_and_read() {
    for number in [0, 7, 10, 4_294_967_296, u64::MAX] {
        let text = decimal_text(number);
        assert_eq!(text, number.to_string());
        assert_eq!(parse_number(&text), Some(number));
    }
    for text in ["", "+", "-1", "+7", "007", "1a", " 1", "18446744073709551616"] {
        assert_eq!(parse_number(text), text.parse::<u64>().ok(), "{text:?}");
        assert_eq!(parse_small_number(text), text.parse::<u32>().ok(), "{text:?}");
    }
    assert_eq!(parse_small_number("4294967295"), Some(u32::MAX));
    assert_eq!(parse_small_number("4294967296"), None);
}

#[test]
fn file_names_are_those_of_paths() {
    for text in [
        "", "/", "a", "a/", "a//", "/a/b", "a/.", "a/./", "..", "a/..", ".", "./a", "a/b/../c",
        "//a//b//.", "a/...",
    ] {
        let wanted = std::path::Path::new(text)
            .file_name()
            .map(|name| name.to_string_lossy().to_string());
        assert_eq!(file_name(text), wanted, "{text:?}");
    }
}

#[test]
fn texts_are_joined_and_compared() {
    let parts = vec!["a".to_owned(), String::new(), "b".to_owned()];
    assert_eq!(join(&parts, ", "), "a, , b");
    assert_eq!(join(&vec![], ", "), "");
    assert!(same_ignoring_case("USB Hub", "usb hUB"));
    assert!(!same_ignoring_case("é", "É"));
    assert!(!same_ignoring_case("a", "ab"));
}

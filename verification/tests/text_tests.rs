use wiki::text::{
    append_chars, chars_of, contains_text, is_blank, is_whitespace, join, matches_at, replace_all, same_text,
    split_lines, string_of, strip_prefix,
};

fn lines(text: &str) -> Vec<String> {
    split_lines(text)
}

#[test]
fn same_text_compares_characters() {
    assert!(same_text("guest", "guest"));
    assert!(same_text("", ""));
    assert!(!same_text("guest", "Guest"));
    assert!(!same_text("guest", "guest "));
    assert!(!same_text("", "a"));
}

#[test]
fn chars_round_trip() {
    assert_eq!(chars_of("a\u{e9}\u{2026}z"), vec!['a', '\u{e9}', '\u{2026}', 'z']);
    assert_eq!(chars_of(""), Vec::<char>::new());
    let chars = chars_of("hello world");
    assert_eq!(string_of(&chars, 0, 5), "hello");
    assert_eq!(string_of(&chars, 6, 11), "world");
    assert_eq!(string_of(&chars, 3, 3), "");
    let mut s = String::from(">> ");
    append_chars(&mut s, &chars, 4, 7);
    assert_eq!(s, ">> o w");
}

#[test]
fn matches_at_checks_one_position() {
    let text = chars_of("abcabc");
    let pattern = chars_of("bc");
    assert!(!matches_at(&text, 0, &pattern));
    assert!(matches_at(&text, 1, &pattern));
    assert!(matches_at(&text, 4, &pattern));
    assert!(!matches_at(&text, 5, &pattern));
    assert!(!matches_at(&text, 6, &pattern));
    assert!(!matches_at(&text, usize::MAX, &pattern));
    assert!(matches_at(&text, 6, &Vec::new()));
    assert!(!matches_at(&text, 7, &Vec::new()));
}

#[test]
fn contains_text_finds_substrings() {
    assert!(contains_text("edit", "edit"));
    assert!(contains_text("a=1&edit", "edit"));
    assert!(contains_text("credit=1", "edit"));
    assert!(!contains_text("edi", "edit"));
    assert!(!contains_text("e-d-i-t", "edit"));
    assert!(!contains_text("", "edit"));
    assert!(contains_text("", ""));
    assert!(contains_text("abc", ""));
}

#[test]
fn strip_prefix_takes_the_prefix_off() {
    assert_eq!(strip_prefix("Bearer abc", "Bearer "), Some(String::from("abc")));
    assert_eq!(strip_prefix("Bearer ", "Bearer "), Some(String::new()));
    assert_eq!(strip_prefix("Bearer", "Bearer "), None);
    assert_eq!(strip_prefix("bearer abc", "Bearer "), None);
    assert_eq!(strip_prefix(" Bearer abc", "Bearer "), None);
    assert_eq!(strip_prefix("abc", ""), Some(String::from("abc")));
}

#[test]
fn replace_all_goes_left_to_right() {
    assert_eq!(replace_all("a__X__b", "__X__", "1"), "a1b");
    assert_eq!(replace_all("__X____X__", "__X__", "yz"), "yzyz");
    assert_eq!(replace_all("aaa", "aa", "b"), "ba");
    assert_eq!(replace_all("abc", "x", "y"), "abc");
    assert_eq!(replace_all("", "x", "y"), "");
    assert_eq!(replace_all("abc", "abc", ""), "");
    assert_eq!(replace_all("abab", "ab", "ab"), "abab");
    assert_eq!(replace_all("aXa", "X", "XX"), "aXXa");
    // An empty pattern occurs nowhere.
    assert_eq!(replace_all("abc", "", "-"), "abc");
}

#[test]
fn is_blank_knows_unicode_white_space() {
    assert!(is_blank(""));
    assert!(is_blank(" \t\r\n"));
    assert!(is_blank("\u{a0}\u{2003}"));
    assert!(!is_blank(" a "));
    assert!(!is_blank("\u{200b}"));
}

#[test]
fn split_lines_ends_lines_at_line_feeds() {
    assert_eq!(lines(""), Vec::<String>::new());
    assert_eq!(lines("one"), vec!["one"]);
    assert_eq!(lines("one\n"), vec!["one"]);
    assert_eq!(lines("one\ntwo"), vec!["one", "two"]);
    assert_eq!(lines("one\n\ntwo\n"), vec!["one", "", "two"]);
    assert_eq!(lines("\n"), vec![""]);
    assert_eq!(lines("\n\n"), vec!["", ""]);
}

#[test]
fn split_lines_drops_a_carriage_return_before_a_line_feed() {
    assert_eq!(lines("one\r\ntwo\r\n"), vec!["one", "two"]);
    assert_eq!(lines("one\r\r\ntwo"), vec!["one\r", "two"]);
    assert_eq!(lines("one\rtwo\n"), vec!["one\rtwo"]);
    assert_eq!(lines("\r\n"), vec![""]);
    // A carriage return at the very end, with no line feed, stays.
    assert_eq!(lines("one\r"), vec!["one\r"]);
}

#[test]
fn split_lines_agrees_with_the_standard_library() {
    let samples = [
        "",
        "a",
        "a\n",
        "a\r\n",
        "a\r",
        "\r",
        "\n\r",
        "\r\n\r\n",
        "!1\nVisible section\n\n!3\nRestricted section\n",
        "x\n\u{e9}\u{2026}\r\ny",
    ];
    for sample in samples {
        let expected: Vec<String> = sample.lines().map(|l| l.to_string()).collect();
        assert_eq!(lines(sample), expected, "lines of {:?}", sample);
    }
}

#[test]
fn join_puts_the_separator_between_parts() {
    let parts = vec![String::from("a"), String::from("b"), String::from("c")];
    assert_eq!(join(&parts, "\n"), "a\nb\nc");
    assert_eq!(join(&parts, ""), "abc");
    assert_eq!(join(&parts[..1].to_vec(), ", "), "a");
    assert_eq!(join(&Vec::new(), ", "), "");
    assert_eq!(join(&vec![String::new(), String::new()], "-"), "-");
}

#[test]
fn white_space_is_what_the_standard_library_says() {
    for code in 0..=0x10FFFFu32 {
        if let Some(c) = char::from_u32(code) {
            assert_eq!(is_whitespace(c), c.is_whitespace(), "code point {:#x}", code);
        }
    }
    assert!(is_whitespace(' '));
    assert!(is_whitespace('\u{3000}'));
    assert!(!is_whitespace('\u{200b}'));
    assert!(!is_whitespace('\u{180e}'));
    assert!(!is_whitespace('a'));
}

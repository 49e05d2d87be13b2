use norpc::text::{
    matches_at, spells, split_words, string_of, strip_whitespace, to_chars, unspace,
};

#[test]
fn to_chars_keeps_every_character() {
    assert_eq!(to_chars(""), Vec::<char>::new());
    assert_eq!(to_chars("a\u{e9}\u{1f600}z"), vec!['a', '\u{e9}', '\u{1f600}', 'z']);
}

#[test]
fn string_of_takes_a_range() {
    let chars = to_chars("service");
    assert_eq!(string_of(&chars, 0, 7), "service");
    assert_eq!(string_of(&chars, 3, 5), "vi");
    assert_eq!(string_of(&chars, 4, 4), "");
    assert_eq!(string_of(&to_chars("\u{e9}t\u{e9}"), 1, 3), "t\u{e9}");
}

#[test]
fn matches_at_finds_a_literal_at_a_position() {
    let chars = to_chars("fnadd()->u8;");
    assert!(matches_at(&chars, 0, "fn"));
    assert!(!matches_at(&chars, 1, "fn"));
    assert!(matches_at(&chars, 7, "->"));
    assert!(matches_at(&chars, 11, ";"));
    assert!(!matches_at(&chars, 11, ";;"));
    assert!(!matches_at(&chars, 12, ";"));
    assert!(!matches_at(&chars, 99, ";"));
    assert!(matches_at(&chars, 12, ""));
    assert!(!matches_at(&chars, 13, ""));
}

#[test]
fn strip_whitespace_drops_white_space_only() {
    assert_eq!(strip_whitespace(" a\tb\nc\r d "), to_chars("abcd"));
    assert_eq!(strip_whitespace("\u{a0}x\u{2003}y\u{3000}"), to_chars("xy"));
    assert_eq!(strip_whitespace("a_b-c"), to_chars("a_b-c"));
    assert_eq!(strip_whitespace(""), to_chars(""));
    assert_eq!(strip_whitespace(" \n\t"), to_chars(""));
}

#[test]
fn unspace_drops_spaces_only() {
    assert_eq!(unspace(&to_chars(" a b\tc ")), to_chars("ab\tc"));
    assert_eq!(unspace(&to_chars("")), to_chars(""));
}

#[test]
fn split_words_cuts_at_spaces() {
    let words = |s: &str| -> Vec<String> {
        split_words(&to_chars(s)).iter().map(|w| w.iter().collect()).collect()
    };
    assert_eq!(words(""), Vec::<String>::new());
    assert_eq!(words("   "), Vec::<String>::new());
    assert_eq!(words("?Send"), vec!["?Send"]);
    assert_eq!(words("  ? Send "), vec!["?", "Send"]);
    assert_eq!(words("a  b\tc d"), vec!["a", "b\tc", "d"]);
}

#[test]
fn spells_compares_whole_words() {
    assert!(spells(&to_chars("Send"), "Send"));
    assert!(!spells(&to_chars("Sen"), "Send"));
    assert!(!spells(&to_chars("Sender"), "Send"));
    assert!(!spells(&to_chars("send"), "Send"));
    assert!(spells(&to_chars(""), ""));
    assert!(!spells(&to_chars("a"), ""));
}

#[test]
fn white_space_is_the_unicode_property_on_every_character() {
    let expected = |n: u32| {
        (0x0009..=0x000D).contains(&n)
            || (0x2000..=0x200A).contains(&n)
            || [0x0020, 0x0085, 0x00A0, 0x1680, 0x2028, 0x2029, 0x202F, 0x205F, 0x3000]
                .contains(&n)
    };
    let mut count = 0;
    for n in 0..=0x10FFFFu32 {
        if let Some(c) = char::from_u32(n) {
            let dropped = strip_whitespace(&c.to_string()).is_empty();
            assert_eq!(dropped, expected(n), "on U+{:04X}", n);
            assert_eq!(dropped, c.is_whitespace(), "on U+{:04X}", n);
            if dropped {
                count += 1;
            }
        }
    }
    assert_eq!(count, 25);
}

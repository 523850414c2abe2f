use tensorman::text::{
    chars_of, copy_texts, decimal, push_text, push_texts, same_text, separator,
    starts_with, trim, white, words,
};

fn texts(list: &[&str]) -> Vec<String> {
    list.iter().map(|word| word.to_string()).collect()
}

#[test]
fn same_text_compares_every_character() {
    assert!(same_text("", ""));
    assert!(same_text("gpu", "gpu"));
    assert!(!same_text("gpu", "gpU"));
    assert!(!same_text("gpu", "gpu "));
    assert!(!same_text("", "a"));
    assert!(same_text("héllo", "héllo"));
    assert!(!same_text("héllo", "hèllo"));
}

#[test]
fn chars_of_lists_the_characters() {
    assert_eq!(chars_of(""), Vec::<char>::new());
    assert_eq!(chars_of("aé1"), vec!['a', 'é', '1']);
}

#[test]
fn starts_with_looks_at_the_beginning() {
    assert!(starts_with("sha256:abc", "sha256"));
    assert!(starts_with("abc", ""));
    assert!(starts_with("abc", "abc"));
    assert!(!starts_with("abc", "abcd"));
    assert!(!starts_with("abc", "bc"));
    assert!(!starts_with("", "a"));
    assert!(starts_with("éa", "é"));
}

#[test]
fn white_space_and_separators() {
    for c in [' ', '\t', '\n', '\x0C', '\r'] {
        assert!(separator(c));
        assert!(white(c));
    }
    assert!(white('\x0B'));
    assert!(!separator('\x0B'));
    for c in ['\u{85}', '\u{a0}', '\u{1680}', '\u{2000}', '\u{200a}', '\u{2028}', '\u{2029}', '\u{202f}', '\u{205f}', '\u{3000}'] {
        assert!(white(c));
        assert!(!separator(c));
    }
    for c in ['a', '0', '=', '\u{200b}', '\u{1f}', '\u{e}', '\u{8}'] {
        assert!(!white(c));
        assert!(!separator(c));
    }
}

#[test]
fn white_agrees_with_the_standard_library() {
    let mut code: u32 = 0;
    while code <= 0x10FFFF {
        if let Some(c) = char::from_u32(code) {
            assert_eq!(white(c), c.is_whitespace());
            assert_eq!(separator(c), c.is_ascii_whitespace());
        }
        code += 1;
    }
}

#[test]
fn trim_takes_white_space_off_both_ends() {
    assert_eq!(trim(""), "");
    assert_eq!(trim("   "), "");
    assert_eq!(trim("a"), "a");
    assert_eq!(trim(" \t a b \n"), "a b");
    assert_eq!(trim("\u{a0}a\u{3000}"), "a");
    assert_eq!(trim("a  b"), "a  b");
}

#[test]
fn words_are_the_runs_between_separators() {
    assert_eq!(words(""), texts(&[]));
    assert_eq!(words(" \n\t"), texts(&[]));
    assert_eq!(words("one"), texts(&["one"]));
    assert_eq!(words("  one two\tthree\n"), texts(&["one", "two", "three"]));
    assert_eq!(words("a\u{a0}b c"), texts(&["a\u{a0}b", "c"]));
    assert_eq!(words("é  ü"), texts(&["é", "ü"]));
}

#[test]
fn words_agree_with_the_standard_library() {
    for text in ["", " ", "a", " a", "a ", "a b", "  a\t\tb\r\nc  ", "ab\x0Ccd", "x\x0By z"] {
        let expected: Vec<String> = text.split_ascii_whitespace().map(|word| word.to_string()).collect();
        assert_eq!(words(text), expected);
        assert_eq!(trim(text), text.trim());
    }
}

#[test]
fn decimal_writes_without_leading_zeros() {
    assert_eq!(decimal(0), "0");
    assert_eq!(decimal(7), "7");
    assert_eq!(decimal(10), "10");
    assert_eq!(decimal(1000), "1000");
    assert_eq!(decimal(1234567890), "1234567890");
    assert_eq!(decimal(u32::MAX), "4294967295");
}

#[test]
fn lists_are_copied_and_extended_in_order() {
    let list = texts(&["a", "", "c"]);
    assert_eq!(copy_texts(&list), list);
    let mut grown = texts(&["x"]);
    push_text(&mut grown, "y");
    assert_eq!(grown, texts(&["x", "y"]));
    push_texts(&mut grown, &list);
    assert_eq!(grown, texts(&["x", "y", "a", "", "c"]));
    push_texts(&mut grown, &texts(&[]));
    assert_eq!(grown.len(), 5);
}

use syncflo_browser::text::{
    char_is_whitespace, followed_by, contains_char, contains_whitespace, same_text,
};

#[test]
fn white_space_is_the_unicode_property() {
    for code in 0..=0x10ffffu32 {
        if let Some(c) = char::from_u32(code) {
            assert_eq!(char_is_whitespace(c), c.is_whitespace(), "U+{:04X}", code);
        }
    }
}

#[test]
fn white_space_examples() {
    assert!(char_is_whitespace(' '));
    assert!(char_is_whitespace('\t'));
    assert!(char_is_whitespace('\n'));
    assert!(char_is_whitespace('\u{b}'));
    assert!(char_is_whitespace('\u{c}'));
    assert!(char_is_whitespace('\r'));
    assert!(char_is_whitespace('\u{85}'));
    assert!(char_is_whitespace('\u{2003}'));
    assert!(!char_is_whitespace('a'));
    assert!(!char_is_whitespace('.'));
    assert!(!char_is_whitespace('\u{8}'));
    assert!(!char_is_whitespace('\u{e}'));
    assert!(!char_is_whitespace('\u{200b}'));
    assert!(!char_is_whitespace('\u{feff}'));
}

#[test]
fn contains_char_finds_any_position() {
    assert!(contains_char("a.b", '.'));
    assert!(contains_char(".", '.'));
    assert!(contains_char("ab.", '.'));
    assert!(contains_char("한.글", '.'));
    assert!(contains_char("한글", '글'));
    assert!(!contains_char("", '.'));
    assert!(!contains_char("abc", '.'));
    assert!(!contains_char("a。b", '.'));
}

#[test]
fn contains_whitespace_finds_any_kind() {
    assert!(contains_whitespace("a b"));
    assert!(contains_whitespace(" "));
    assert!(contains_whitespace("a\u{2028}"));
    assert!(contains_whitespace("\u{1680}a"));
    assert!(!contains_whitespace(""));
    assert!(!contains_whitespace("a.b"));
    assert!(!contains_whitespace("a\u{200b}b"));
}

#[test]
fn same_text_compares_contents() {
    assert!(same_text("", ""));
    assert!(same_text("back", "back"));
    assert!(same_text("한글", "한글"));
    assert!(!same_text("back", "backs"));
    assert!(!same_text("backs", "back"));
    assert!(!same_text("back", "bach"));
    assert!(!same_text("Back", "back"));
    assert!(!same_text("", "a"));
    assert!(!same_text("é", "e\u{301}"));
}

#[test]
fn concat_puts_one_after_the_other() {
    assert_eq!(followed_by("", ""), "");
    assert_eq!(followed_by("https://", "example.com"), "https://example.com");
    assert_eq!(followed_by("a", ""), "a");
    assert_eq!(followed_by("", "b"), "b");
    assert_eq!(followed_by("한", "글"), "한글");
}

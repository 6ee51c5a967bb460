use atacc_inscription::text::{chars_of, has_char, same_text, trimmed, white_space};

#[test]
fn trims_both_ends() {
    assert_eq!(trimmed("  Jean-Marie \t\n"), "Jean-Marie");
}

#[test]
fn trims_unicode_white_space() {
    assert_eq!(trimmed("\u{00A0}\u{3000}Zoé\u{2009}"), "Zoé");
}

#[test]
fn trim_keeps_inner_space() {
    assert_eq!(trimmed(" Anne  Marie "), "Anne  Marie");
}

#[test]
fn trim_of_blank_is_empty() {
    assert_eq!(trimmed(" \t \r\n "), "");
    assert_eq!(trimmed(""), "");
}

#[test]
fn white_space_agrees_with_std() {
    for c in ['\t', '\n', ' ', '\u{85}', '\u{a0}', '\u{1680}', '\u{2000}', '\u{200a}', '\u{2028}', '\u{2029}', '\u{202f}', '\u{205f}', '\u{3000}', 'a', '\u{200b}', '\u{feff}', '_'] {
        assert_eq!(white_space(c), c.is_whitespace(), "{:?}", c);
    }
}

#[test]
fn finds_characters() {
    assert!(has_char("a@b.c", '@'));
    assert!(!has_char("abc", '@'));
    assert!(!has_char("", '.'));
}

#[test]
fn compares_texts() {
    assert!(same_text("Mardi", "Mardi"));
    assert!(!same_text("Mardi", "mardi"));
    assert!(!same_text("Mardi", "Mard"));
}

#[test]
fn splits_into_characters() {
    assert_eq!(chars_of("été"), vec!['é', 't', 'é']);
}

#[test]
fn trimming_twice_changes_nothing() {
    for s in ["  a b  ", "\u{3000}x", "", "   ", "y\t"] {
        let once = trimmed(s);
        assert_eq!(trimmed(&once), once);
    }
}

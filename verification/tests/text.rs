use rustygon::text::{chars_of, same_text, trim};

#[test]
fn chars_of_gives_the_characters_in_order() {
    assert_eq!(chars_of("aé-1"), vec!['a', 'é', '-', '1']);
    assert_eq!(chars_of(""), Vec::<char>::new());
}

#[test]
fn same_text_compares_character_by_character() {
    assert!(same_text("gen.cpp", "gen.cpp"));
    assert!(same_text("", ""));
    assert!(!same_text("gen.cpp", "gen.cp"));
    assert!(!same_text("gen.cpp", "gen.cpq"));
    assert!(!same_text("", "a"));
}

#[test]
fn trim_removes_whitespace_at_both_ends_only() {
    assert_eq!(trim("  a b\t\n"), "a b");
    assert_eq!(trim("a b"), "a b");
    assert_eq!(trim(" \t\n"), "");
    assert_eq!(trim(""), "");
    assert_eq!(trim("x "), "x");
    assert_eq!(trim(" x"), "x");
}

#[test]
fn trim_knows_whitespace_beyond_ascii() {
    assert_eq!(trim("\u{a0}x\u{2003}"), "x");
    assert_eq!(trim("\u{200b}x"), "\u{200b}x");
}

use search_shortcuts::text::{
    contains, ends_with, equals, find, find_either, starts_with, strip_prefix, trim, without_spaces,
};

#[test]
fn find_counts_in_characters() {
    assert_eq!(Some(2), find("ab/c/", '/'));
    assert_eq!(Some(1), find("é/", '/'));
    assert_eq!(None, find("abc", '/'));
    assert_eq!(None, find("", '/'));
}

#[test]
fn find_either_takes_whichever_comes_first() {
    assert_eq!(Some(1), find_either("a@b/c", '/', '@'));
    assert_eq!(Some(1), find_either("a/b@c", '/', '@'));
    assert_eq!(None, find_either("abc", '/', '@'));
}

#[test]
fn contains_a_character() {
    assert!(contains("a b", ' '));
    assert!(!contains("ab", ' '));
    assert!(!contains("", ' '));
}

#[test]
fn starts_with_a_prefix() {
    assert!(starts_with("gh x", "gh "));
    assert!(starts_with("gh ", "gh "));
    assert!(starts_with("gh", ""));
    assert!(starts_with("", ""));
    assert!(!starts_with("gh", "gh "));
    assert!(!starts_with("g", "gh "));
    assert!(!starts_with("hg x", "gh "));
}

#[test]
fn strip_prefix_gives_what_follows() {
    assert_eq!(Some("x y"), strip_prefix("gh x y", "gh "));
    assert_eq!(Some(""), strip_prefix("gh ", "gh "));
    assert_eq!(Some("é"), strip_prefix("ñé", "ñ"));
    assert_eq!(None, strip_prefix("gh", "gh "));
}

#[test]
fn ends_with_a_character() {
    assert!(ends_with("a/", '/'));
    assert!(!ends_with("/a", '/'));
    assert!(!ends_with("", '/'));
}

#[test]
fn equals_compares_the_characters() {
    assert!(equals("std", "std"));
    assert!(equals("", ""));
    assert!(!equals("std", "st"));
    assert!(!equals("st", "std"));
    assert!(!equals("std", "stD"));
}

#[test]
fn trim_drops_outer_whitespace_only() {
    assert_eq!("a b", trim("  a b \t\n"));
    assert_eq!("a", trim("a"));
    assert_eq!("", trim(""));
    assert_eq!("", trim(" \u{a0}\u{3000} "));
    assert_eq!("é  è", trim("\u{2003}é  è\u{2003}"));
}

#[test]
fn without_spaces_drops_every_space_and_nothing_else() {
    assert_eq!("ab", without_spaces("a b"));
    assert_eq!("abc", without_spaces("  a b  c "));
    assert_eq!("a\tb", without_spaces("a\t b"));
    assert_eq!("", without_spaces("   "));
    assert_eq!("", without_spaces(""));
}

use move_installer::text::{
    begins_with, characters, concat3, contains_line, contains_text, decimal, lists, same_text,
};

#[test]
fn same_text_compares_characters() {
    assert!(same_text("move", "move"));
    assert!(!same_text("move", "Move"));
    assert!(same_text("", ""));
    assert!(!same_text("", " "));
}

#[test]
fn characters_keeps_order_and_non_ascii() {
    assert_eq!(characters("aé✓"), vec!['a', 'é', '✓']);
    assert_eq!(characters(""), Vec::<char>::new());
}

#[test]
fn begins_with_looks_at_the_first_character_only() {
    assert!(begins_with("v1.2.0", 'v'));
    assert!(!begins_with("installer-v1", 'v'));
    assert!(!begins_with("", 'v'));
}

#[test]
fn contains_text_finds_a_needle_anywhere() {
    assert!(contains_text("Move-1234.local.", "Move"));
    assert!(contains_text("my-move.local.", "move"));
    assert!(contains_text("xmove", "move"));
    assert!(!contains_text("mov", "move"));
    assert!(!contains_text("m-o-v-e", "move"));
    assert!(!contains_text("", "move"));
}

#[test]
fn contains_text_finds_the_empty_needle_everywhere() {
    assert!(contains_text("abc", ""));
    assert!(contains_text("", ""));
}

#[test]
fn contains_text_handles_non_ascii() {
    assert!(contains_text("händler-move", "move"));
    assert!(contains_text("naïve", "ïv"));
    assert!(!contains_text("naive", "ïv"));
}

#[test]
fn lists_tells_membership() {
    let list = vec!["a".to_string(), "b".to_string()];
    assert!(lists(&list, "a"));
    assert!(lists(&list, "b"));
    assert!(!lists(&list, "c"));
    assert!(!lists(&Vec::new(), "a"));
}

#[test]
fn decimal_writes_numbers_without_leading_zeros() {
    assert_eq!(decimal(0), "0");
    assert_eq!(decimal(7), "7");
    assert_eq!(decimal(10), "10");
    assert_eq!(decimal(404), "404");
    assert_eq!(decimal(500), "500");
    assert_eq!(decimal(65535), "65535");
}

#[test]
fn concat3_joins_in_order() {
    assert_eq!(concat3("a", "b", "c"), "abc");
    assert_eq!(concat3("", "x", ""), "x");
}

#[test]
fn contains_line_wants_the_whole_line() {
    assert!(contains_line("a\nb\nc", "b"));
    assert!(contains_line("b", "b"));
    assert!(contains_line("b\n", "b"));
    assert!(contains_line("a\nb", "b"));
    assert!(!contains_line("ab\n", "b"));
    assert!(!contains_line("ba\n", "b"));
    assert!(!contains_line(" b\n", "b"));
    assert!(!contains_line("", "b"));
    assert!(contains_line("", ""));
    assert!(contains_line("a\n\nb", ""));
    assert!(!contains_line("ab", ""));
}

use ducky::strings::{contains_char, decimal_text, ends_with, is_blank, join_texts};
use ducky::text::{truncate_text, wrap_text};

#[test]
fn truncate_cuts_long_text_and_marks_the_cut() {
    assert_eq!(truncate_text("hello world", 8), "hello...");
}

#[test]
fn truncate_leaves_text_that_fits() {
    assert_eq!(truncate_text("hi", 8), "hi");
    assert_eq!(truncate_text("12345678", 8), "12345678");
    assert_eq!(truncate_text("", 4), "");
}

#[test]
fn truncate_to_three_or_less_gives_the_dots_alone() {
    assert_eq!(truncate_text("hello", 3), "...");
    assert_eq!(truncate_text("hello", 0), "...");
    assert_eq!(truncate_text("hi", 2), "...");
    assert_eq!(truncate_text("", 1), "...");
}

#[test]
fn truncate_counts_characters_not_bytes() {
    assert_eq!(truncate_text("äöüßéèêë", 8), "äöüßéèêë");
    assert_eq!(truncate_text("äöüßéèêëx", 8), "äöüßé...");
}

#[test]
fn wrap_breaks_into_full_lines_and_a_rest() {
    assert_eq!(wrap_text("abcdefgh", 3), vec!["abc", "def", "gh"]);
    assert_eq!(wrap_text("abcdef", 3), vec!["abc", "def"]);
}

#[test]
fn wrap_of_text_that_fits_is_one_line() {
    assert_eq!(wrap_text("abc", 3), vec!["abc"]);
    assert_eq!(wrap_text("", 3), vec![""]);
}

#[test]
fn wrap_to_width_zero_is_no_line() {
    assert_eq!(wrap_text("abc", 0), Vec::<String>::new());
    assert_eq!(wrap_text("", 0), Vec::<String>::new());
}

#[test]
fn wrap_counts_characters_not_bytes() {
    assert_eq!(wrap_text("äöüßé", 2), vec!["äö", "üß", "é"]);
}

#[test]
fn wrapped_lines_put_together_give_the_text_back() {
    let text = "the quick brown fox jumps over the lazy dog";
    for width in 1..50 {
        let lines = wrap_text(text, width);
        assert_eq!(lines.concat(), text);
        for line in &lines {
            assert!(line.chars().count() <= width);
        }
    }
}

#[test]
fn decimal_text_writes_numbers() {
    assert_eq!(decimal_text(0), "0");
    assert_eq!(decimal_text(7), "7");
    assert_eq!(decimal_text(10), "10");
    assert_eq!(decimal_text(1234567890), "1234567890");
    assert_eq!(decimal_text(usize::MAX), usize::MAX.to_string());
}

#[test]
fn join_texts_puts_the_separator_between_neighbours() {
    let parts = vec!["a".to_string(), "b".to_string(), "c".to_string()];
    assert_eq!(join_texts(&parts, ", "), "a, b, c");
    assert_eq!(join_texts(&vec!["only".to_string()], ", "), "only");
    assert_eq!(join_texts(&Vec::new(), ", "), "");
    assert_eq!(join_texts(&vec!["".to_string(), "".to_string()], "-"), "-");
}

#[test]
fn small_string_helpers() {
    assert!(contains_char("100%", '%'));
    assert!(!contains_char("100", '%'));
    assert!(ends_with("data.db", ".db"));
    assert!(!ends_with("data.dbx", ".db"));
    assert!(!ends_with("db", ".db"));
    assert!(ends_with("x", ""));
    assert!(is_blank("  \t\n"));
    assert!(is_blank(""));
    assert!(!is_blank("  a "));
}

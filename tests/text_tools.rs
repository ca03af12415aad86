
use tabiew::history::History;
use tabiew::input::{InputState, TextEdit};
use tabiew::palette::suggestions;

#[test]
fn fuzzy_empty_query_matches_everything() {
    assert!(tabiew::fuzzy::matches("abc", ""));
    assert!(tabiew::fuzzy::matches("", ""));
    assert!(tabiew::fuzzy::matches("anything at all", ""));
}

#[test]
fn fuzzy_keeps_order() {
    assert!(tabiew::fuzzy::matches("abc", "ac"));
    assert!(!tabiew::fuzzy::matches("abc", "ba"));
    assert!(tabiew::fuzzy::matches("select name from df", "sdf"));
    assert!(!tabiew::fuzzy::matches("", "a"));
    assert!(!tabiew::fuzzy::matches("abc", "abcd"));
}

#[test]
fn history_evicts_oldest() {
    let mut h = History::new(3);
    for cmd in ["one", "two", "three", "four"] {
        h.push(cmd.to_owned());
    }
    assert_eq!(h.len(), 3);
    assert_eq!(h.iter(), vec!["four".to_owned(), "three".to_owned(), "two".to_owned()]);
    assert_eq!(h.recent(2), vec!["four".to_owned(), "three".to_owned()]);
}

#[test]
fn history_with_no_capacity_keeps_nothing() {
    let mut h = History::new(0);
    h.push("one".to_owned());
    assert_eq!(h.len(), 0);
    assert!(h.iter().is_empty());
}

#[test]
fn suggestions_filter_fuzzily() {
    let entries = vec!["goto 5".to_owned(), "query select".to_owned(), "reset".to_owned()];
    assert_eq!(suggestions(&entries, "rs"), vec!["query select".to_owned(), "reset".to_owned()]);
    assert_eq!(suggestions(&entries, ""), entries);
}

#[test]
fn input_edits() {
    let mut input = InputState::new("gt");
    input.apply(TextEdit::GotoPrev);
    input.apply(TextEdit::Insert('o'));
    assert_eq!(input.value(), "got");
    assert_eq!(input.cursor(), 2);
    input.apply(TextEdit::GotoEnd);
    input.apply(TextEdit::Insert('o'));
    input.apply(TextEdit::DeletePrev);
    input.apply(TextEdit::GotoStart);
    input.apply(TextEdit::DeleteNext);
    assert_eq!(input.value(), "ot");
    input.apply(TextEdit::DeletePrev);
    assert_eq!(input.value(), "ot");
}

#[test]
fn scroll_stays_in_bounds() {
    let mut s = tabiew::scroll::Scroll::new();
    s.adjust(10, 4);
    for _ in 0..10 {
        s.down();
    }
    assert_eq!(s.to_u16(), 6);
    s.adjust(8, 4);
    assert_eq!(s.to_u16(), 4);
    s.adjust(3, 4);
    assert_eq!(s.to_u16(), 0);
    s.up();
    assert_eq!(s.to_u16(), 0);
}

#[test]
fn trimming_and_first_words() {
    assert_eq!(tabiew::text::trimmed("  a b \t"), vec!['a', ' ', 'b']);
    assert_eq!(tabiew::text::trimmed(" \n "), Vec::<char>::new());
}

#[test]
fn wrapped_rows_of_text() {
    assert_eq!(tabiew::cells::wrapped_line_count("abcdef\nab", 4), 3);
    assert_eq!(tabiew::cells::wrapped_line_count("", 4), 1);
    assert_eq!(tabiew::cells::wrapped_line_count("abcd\n\nx", 4), 3);
    assert_eq!(tabiew::cells::wrapped_line_count("abc", 0), 1);
}

use todo_dag::text::{decimal_text, same_text};
use todo_dag::TodoStatus;

const ALL: [TodoStatus; 6] = [
    TodoStatus::Pending,
    TodoStatus::Ready,
    TodoStatus::InProgress,
    TodoStatus::Completed,
    TodoStatus::Failed,
    TodoStatus::Skipped,
];

#[test]
fn words_are_as_documented() {
    let words: Vec<&str> = ALL.iter().map(|s| s.as_str()).collect();
    assert_eq!(
        words,
        vec!["pending", "ready", "in_progress", "completed", "failed", "skipped"]
    );
}

#[test]
fn words_read_back() {
    for s in ALL {
        assert_eq!(TodoStatus::from_str(s.as_str()), Some(s));
        assert_eq!(TodoStatus::from_word(s.as_str()), Some(s));
    }
}

#[test]
fn other_words_are_known_too() {
    assert_eq!(TodoStatus::from_str("inprogress"), Some(TodoStatus::InProgress));
    assert_eq!(TodoStatus::from_str("done"), Some(TodoStatus::Completed));
    assert_eq!(TodoStatus::from_str(""), None);
    assert_eq!(TodoStatus::from_str("in progress"), None);
    assert_eq!(TodoStatus::from_str("finished"), None);
}

#[test]
fn case_and_white_space_do_not_matter() {
    assert_eq!(TodoStatus::from_str("  Ready\n"), Some(TodoStatus::Ready));
    assert_eq!(TodoStatus::from_str("IN_PROGRESS"), Some(TodoStatus::InProgress));
    assert_eq!(TodoStatus::from_str("\u{3000}FaIlEd\u{a0}"), Some(TodoStatus::Failed));
    // A zero-width space is no white space.
    assert_eq!(TodoStatus::from_str("\u{200b}ready"), None);
    assert_eq!(TodoStatus::from_word("Ready"), None);
    assert_eq!(TodoStatus::from_word(" ready"), None);
}

#[test]
fn lower_case_goes_beyond_ascii() {
    // The Kelvin sign has the small letter k.
    assert_eq!(TodoStatus::from_str("s\u{212a}ipped"), Some(TodoStatus::Skipped));
    assert_eq!(TodoStatus::from_str("D\u{d6}NE"), None);
}

#[test]
fn terminal_statuses() {
    let terminal: Vec<TodoStatus> = ALL.iter().copied().filter(|s| s.is_terminal()).collect();
    assert_eq!(
        terminal,
        vec![TodoStatus::Completed, TodoStatus::Failed, TodoStatus::Skipped]
    );
}

#[test]
fn decimal_numerals() {
    assert_eq!(decimal_text(0), "0");
    assert_eq!(decimal_text(7), "7");
    assert_eq!(decimal_text(10), "10");
    assert_eq!(decimal_text(90210), "90210");
    assert_eq!(decimal_text(u64::MAX), "18446744073709551615");
}

#[test]
fn texts_compare_by_their_characters() {
    assert!(same_text("a", "a"));
    assert!(!same_text("a", "ab"));
    assert!(!same_text("a", "A"));
}

use obst::input::{InputBuffer, CARET_MARK};

#[test]
fn new_buffer_is_empty() {
    let buffer = InputBuffer::new();
    assert!(buffer.is_empty());
    assert_eq!(buffer.caret(), 0);
    assert_eq!(buffer.snapshot(), "");
}

#[test]
fn insert_appends_at_the_caret() {
    let mut buffer = InputBuffer::new();
    buffer.insert('a');
    buffer.insert('b');
    buffer.insert('c');
    assert_eq!(buffer.snapshot(), "abc");
    assert_eq!(buffer.caret(), 3);
    assert!(!buffer.is_empty());
}

#[test]
fn backspace_removes_the_last_character() {
    let mut buffer = InputBuffer::new();
    buffer.insert('a');
    buffer.insert('b');
    buffer.backspace();
    assert_eq!(buffer.snapshot(), "a");
    buffer.backspace();
    assert_eq!(buffer.snapshot(), "");
}

#[test]
fn backspace_on_an_empty_buffer_changes_nothing() {
    let mut buffer = InputBuffer::new();
    buffer.backspace();
    assert!(buffer.is_empty());
    assert_eq!(buffer, InputBuffer::new());
    buffer.insert('x');
    assert_eq!(buffer.snapshot(), "x");
}

#[test]
fn clear_empties_the_buffer() {
    let mut buffer = InputBuffer::new();
    buffer.insert('a');
    buffer.insert('b');
    buffer.clear();
    assert!(buffer.is_empty());
    assert_eq!(buffer.snapshot(), "");
    assert_eq!(buffer.caret(), 0);
}

#[test]
fn snapshot_leaves_the_buffer_as_it_is() {
    let mut buffer = InputBuffer::new();
    buffer.insert('q');
    let first = buffer.snapshot();
    let second = buffer.snapshot();
    assert_eq!(first, second);
    assert_eq!(buffer.caret(), 1);
}

#[test]
fn display_shows_the_caret_mark_behind_the_content() {
    let mut buffer = InputBuffer::new();
    assert_eq!(buffer.display(), "_");
    buffer.insert('h');
    buffer.insert('i');
    assert_eq!(buffer.display(), "hi_");
    assert_eq!(CARET_MARK, '_');
}

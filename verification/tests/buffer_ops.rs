use editor_core::buffer::{EditAction, Motion, TextBuffer};

#[test]
fn insert_and_readout() {
    let mut b = TextBuffer::new();
    b.apply(&EditAction::Insert('h'));
    b.apply(&EditAction::Insert('i'));
    assert_eq!(b.text(), "hi");
    assert_eq!(b.cursor_position(), (0, 2));
}

#[test]
fn from_text_starts_at_origin() {
    let b = TextBuffer::from_text("one\ntwo");
    assert_eq!(b.text(), "one\ntwo");
    assert_eq!(b.cursor_position(), (0, 0));
}

#[test]
fn paste_inserts_run_at_cursor() {
    let mut b = TextBuffer::from_text("ad");
    b.apply(&EditAction::Move(Motion::Right));
    b.apply(&EditAction::Paste("bc".to_string()));
    assert_eq!(b.text(), "abcd");
    assert_eq!(b.cursor_position(), (0, 3));
}

#[test]
fn backspace_removes_before_cursor() {
    let mut b = TextBuffer::from_text("abc");
    b.apply(&EditAction::Move(Motion::Right));
    b.apply(&EditAction::Move(Motion::Right));
    b.apply(&EditAction::Backspace);
    assert_eq!(b.text(), "ac");
    assert_eq!(b.cursor_position(), (0, 1));
    // At the start of the buffer, backspace is a no-op.
    b.apply(&EditAction::Move(Motion::Left));
    b.apply(&EditAction::Backspace);
    assert_eq!(b.text(), "ac");
}

#[test]
fn delete_removes_at_cursor() {
    let mut b = TextBuffer::from_text("abc");
    b.apply(&EditAction::Delete);
    assert_eq!(b.text(), "bc");
    // At the end of the buffer, delete is a no-op.
    b.apply(&EditAction::Move(Motion::LineEnd));
    b.apply(&EditAction::Delete);
    assert_eq!(b.text(), "bc");
}

#[test]
fn motions_track_lines() {
    let mut b = TextBuffer::from_text("ab\ncde\nf");
    // Walk into the middle of the second line.
    for _ in 0..5 {
        b.apply(&EditAction::Move(Motion::Right));
    }
    assert_eq!(b.cursor_position(), (1, 2));
    b.apply(&EditAction::Move(Motion::LineStart));
    assert_eq!(b.cursor_position(), (1, 0));
    b.apply(&EditAction::Move(Motion::LineEnd));
    assert_eq!(b.cursor_position(), (1, 3));
}

#[test]
fn newline_insert_advances_line() {
    let mut b = TextBuffer::new();
    b.apply(&EditAction::Insert('a'));
    b.apply(&EditAction::Insert('\n'));
    assert_eq!(b.cursor_position(), (1, 0));
    b.apply(&EditAction::Insert('b'));
    assert_eq!(b.cursor_position(), (1, 1));
    assert_eq!(b.text(), "a\nb");
}

#[test]
fn select_moves_cursor_without_editing() {
    let mut b = TextBuffer::from_text("abc");
    b.apply(&EditAction::Select(Motion::Right));
    assert_eq!(b.cursor_position(), (0, 1));
    assert_eq!(b.text(), "abc");
    b.apply(&EditAction::Scroll);
    assert_eq!(b.text(), "abc");
    assert_eq!(b.cursor_position(), (0, 1));
}

#[test]
fn classification_of_actions() {
    assert!(EditAction::Insert('x').is_content_edit());
    assert!(EditAction::Paste("xy".to_string()).is_content_edit());
    assert!(EditAction::Backspace.is_content_edit());
    assert!(EditAction::Delete.is_content_edit());
    assert!(!EditAction::Move(Motion::Left).is_content_edit());
    assert!(!EditAction::Select(Motion::LineEnd).is_content_edit());
    assert!(!EditAction::Scroll.is_content_edit());
}

//! End-to-end scenarios: whole message sequences run through the reducer.

use editor_core::buffer::{EditAction, Motion};
use editor_core::error::{EditorError, IoErrorKind};
use editor_core::model::{Command, EditorModel, Message};
use editor_core::theme::HighlightTheme;
use editor_core::view::{project, status_left, window_dark};

#[test]
fn startup_edit_save_cycle() {
    let (mut m, cmd) = EditorModel::new();
    let default = match cmd {
        Command::Load { path } => path,
        other => panic!("startup issued {:?}", other),
    };

    // The startup load completes with "hello\n".
    m.update(Message::FileOpened(Ok((default.clone(), "hello\n".to_string()))));
    assert_eq!(m.path.as_deref(), Some(default.as_str()));
    assert_eq!(m.content.text(), "hello\n");
    assert!(!m.is_dirty);

    // Insert 'X' at (0, 5).
    for _ in 0..5 {
        m.update(Message::Edit(EditAction::Move(Motion::Right)));
    }
    m.update(Message::Edit(EditAction::Insert('X')));
    assert!(m.is_dirty);
    let snap = project(&m);
    assert_eq!(snap.status_right, "1:7");

    // Save writes the edited text back to the same path.
    let cmd = m.update(Message::Save);
    assert_eq!(
        cmd,
        Some(Command::Write { path: default.clone(), text: "helloX\n".to_string() })
    );
    m.update(Message::FileSaved(Ok(default)));
    assert!(!m.is_dirty);
}

#[test]
fn new_then_cancelled_save() {
    let (mut m, _) = EditorModel::new();
    m.update(Message::New);
    assert_eq!(m.path, None);
    assert_eq!(m.content.text(), "");
    assert!(m.is_dirty);

    let cmd = m.update(Message::Save);
    assert_eq!(cmd, Some(Command::PickSaveThenWrite { text: String::new() }));

    m.update(Message::FileSaved(Err(EditorError::DialogClosed)));
    assert_eq!(m.path, None);
    assert_eq!(m.content.text(), "");
    assert!(m.is_dirty);
}

#[test]
fn open_markdown_file() {
    let (mut m, _) = EditorModel::new();
    let cmd = m.update(Message::Open);
    assert_eq!(cmd, Some(Command::PickOpen));

    m.update(Message::FileOpened(Ok(("/tmp/a.md".to_string(), "# t".to_string()))));
    assert_eq!(m.path.as_deref(), Some("/tmp/a.md"));
    assert_eq!(m.content.text(), "# t");
    assert!(!m.is_dirty);

    let snap = project(&m);
    assert_eq!(snap.highlight.extension, "md");
}

#[test]
fn open_missing_file_shows_error() {
    let (mut m, _) = EditorModel::new();
    m.update(Message::FileOpened(Ok(("/tmp/a.txt".to_string(), "text".to_string()))));

    m.update(Message::Open);
    m.update(Message::FileOpened(Err(EditorError::IoFailed(IoErrorKind::NotFound))));
    assert_eq!(status_left(&m), "file not found");
    assert_eq!(m.path.as_deref(), Some("/tmp/a.txt"));
    assert_eq!(m.content.text(), "text");
}

#[test]
fn theme_switch_to_light() {
    let (mut m, _) = EditorModel::new();
    m.update(Message::ThemeSelected(HighlightTheme::SolarizedLight));
    assert_eq!(m.theme, HighlightTheme::SolarizedLight);
    assert!(!window_dark(&m));
    let snap = project(&m);
    assert!(!snap.dark);
    assert_eq!(snap.highlight.theme, HighlightTheme::SolarizedLight);
}

#[test]
fn late_save_completion_still_cleans() {
    // The documented simple rule: a FileSaved(Ok) arriving after later edits
    // still clears the dirty flag.
    let (mut m, _) = EditorModel::new();
    let p = "/tmp/rapid.txt".to_string();
    m.update(Message::FileOpened(Ok((p.clone(), String::new()))));

    m.update(Message::Edit(EditAction::Insert('a')));
    let cmd = m.update(Message::Save);
    assert_eq!(cmd, Some(Command::Write { path: p.clone(), text: "a".to_string() }));

    m.update(Message::Edit(EditAction::Insert('b')));
    assert!(m.is_dirty);

    m.update(Message::FileSaved(Ok(p)));
    assert!(!m.is_dirty);
    assert_eq!(m.content.text(), "ab");
}

use gfe::action::{Action, Edit, Motion};
use gfe::editor::{Command, Editor, Message, GREETING};
use gfe::error::{GFEError, IoErrorKind};
use gfe::files::{load_file, pick_file, save_file};

fn started() -> Editor {
    Editor::new(&vec![String::from("editor")]).0
}

fn opened(path: &str, text: &str) -> Editor {
    let mut editor = started();
    let command =
        editor.update(Message::FileOpened(Ok((String::from(path), String::from(text)))));
    assert_eq!(command, Some(Command::SetText(String::from(text))));
    editor
}

#[test]
fn starts_unbound_and_unsaved() {
    let (editor, command) = Editor::new(&vec![String::from("editor")]);
    assert_eq!(command, None);
    assert_eq!(editor.path(), None);
    assert!(!editor.is_saved());
    assert!(!editor.shows_control_pallet());
    assert_eq!(editor.error(), None);
    assert_eq!(GREETING, "Hewwo, type your text here or open a file. :)");
}

#[test]
fn starts_without_any_argument() {
    let (editor, command) = Editor::new(&Vec::new());
    assert_eq!(command, None);
    assert_eq!(editor, started());
}

#[test]
fn only_the_first_path_on_the_command_line_counts() {
    let args = vec![String::from("editor"), String::from("a.txt"), String::from("b.txt")];
    let (editor, command) = Editor::new(&args);
    assert_eq!(command, Some(Command::OpenFile(String::from("a.txt"))));
    assert_eq!(editor, started());
}

#[test]
fn a_path_on_the_command_line_is_opened_at_the_start() {
    let args = vec![String::from("editor"), String::from("/tmp/new.txt")];
    let (mut editor, command) = Editor::new(&args);
    assert_eq!(command, Some(Command::OpenFile(String::from("/tmp/new.txt"))));
    assert_eq!(editor.path(), None);
    assert!(!editor.is_saved());

    // The file did not exist: it was created empty, and reading it gave "".
    let read = load_file(String::from("/tmp/new.txt"), Ok(String::new()));
    assert_eq!(read, Ok((String::from("/tmp/new.txt"), String::new())));
    let command = editor.update(Message::FileOpened(read));
    assert_eq!(command, Some(Command::SetText(String::new())));
    assert!(editor.is_saved());
    assert_eq!(editor.path(), Some(&String::from("/tmp/new.txt")));
    assert_eq!(editor.error(), None);
}

#[test]
fn save_without_a_path_does_nothing() {
    let mut editor = started();
    assert_eq!(editor.update(Message::Save), None);
    assert_eq!(editor, started());
    assert_eq!(editor.update(Message::Save), None);
    assert_eq!(editor, started());

    let mut editor = started();
    assert_eq!(editor.update(Message::ToggleModal(true)), None);
    assert_eq!(editor.update(Message::Save), None);
    assert!(editor.shows_control_pallet());
    assert_eq!(editor.path(), None);
    assert!(!editor.is_saved());
    assert_eq!(editor.error(), None);
}

#[test]
fn save_with_a_path_asks_for_the_file_to_be_written() {
    let mut editor = opened("/tmp/a.txt", "hello");
    assert_eq!(editor.update(Message::Save), Some(Command::SaveFile(String::from("/tmp/a.txt"))));
    assert_eq!(editor, opened("/tmp/a.txt", "hello"));
}

#[test]
fn a_closed_dialog_only_leaves_its_error() {
    let mut editor = started();
    assert_eq!(editor.update(Message::Open), Some(Command::PickFile));
    assert_eq!(editor, started());
    let outcome = pick_file(None);
    assert_eq!(outcome, Err(GFEError::DialogClosed));
    assert_eq!(editor.update(Message::FileOpened(outcome)), None);
    assert_eq!(editor.error(), Some(GFEError::DialogClosed));
    assert!(!editor.is_saved());
    assert_eq!(editor.path(), None);
    assert!(!editor.shows_control_pallet());

    let mut editor = opened("/tmp/a.txt", "hello");
    assert_eq!(editor.update(Message::Open), Some(Command::PickFile));
    assert_eq!(editor.update(Message::FileOpened(pick_file(None))), None);
    assert_eq!(editor.error(), Some(GFEError::DialogClosed));
    assert!(editor.is_saved());
    assert_eq!(editor.path(), Some(&String::from("/tmp/a.txt")));
}

#[test]
fn a_file_that_cannot_be_read_only_leaves_its_error() {
    let mut editor = opened("/tmp/a.txt", "hello");
    let outcome = pick_file(Some((String::from("/tmp/b.txt"), Err(IoErrorKind::NotFound))));
    assert_eq!(outcome, Err(GFEError::IO(IoErrorKind::NotFound)));
    assert_eq!(editor.update(Message::FileOpened(outcome)), None);
    assert_eq!(editor.error(), Some(GFEError::IO(IoErrorKind::NotFound)));
    assert!(editor.is_saved());
    assert_eq!(editor.path(), Some(&String::from("/tmp/a.txt")));
}

#[test]
fn an_edit_leaves_the_document_unsaved_until_it_is_stored() {
    let mut editor = opened("/tmp/a.txt", "hello");
    assert!(editor.is_saved());
    let command = editor.update(Message::Edit(Action::Edit(Edit::Insert('x'))));
    assert_eq!(command, Some(Command::Perform(vec![Action::Edit(Edit::Insert('x'))])));
    assert!(!editor.is_saved());

    editor.update(Message::Edit(Action::Move(Motion::Left)));
    assert!(!editor.is_saved());
    editor.update(Message::ToggleModal(true));
    assert!(!editor.is_saved());
    editor.update(Message::SelectAll);
    assert!(!editor.is_saved());
    editor.update(Message::Open);
    assert!(!editor.is_saved());
    editor.update(Message::FileOpened(Err(GFEError::DialogClosed)));
    assert!(!editor.is_saved());
    editor.update(Message::Save);
    assert!(!editor.is_saved());
    editor.update(Message::FileSaved(Err(GFEError::IO(IoErrorKind::Other))));
    assert!(!editor.is_saved());

    editor.update(Message::FileSaved(Ok(())));
    assert!(editor.is_saved());

    editor.update(Message::Edit(Action::Edit(Edit::Backspace)));
    assert!(!editor.is_saved());
    editor.update(Message::FileOpened(Ok((String::from("/tmp/b.txt"), String::from("b")))));
    assert!(editor.is_saved());
}

#[test]
fn every_kind_of_edit_leaves_the_document_unsaved() {
    let edits = [
        Edit::Insert('a'),
        Edit::Paste(String::from("pasted")),
        Edit::Enter,
        Edit::Backspace,
        Edit::Delete,
    ];
    for edit in edits {
        let mut editor = opened("/tmp/a.txt", "hello");
        editor.update(Message::Edit(Action::Edit(edit)));
        assert!(!editor.is_saved());
    }
}

#[test]
fn what_is_no_edit_keeps_the_document_saved() {
    let actions = [
        Action::Move(Motion::Left),
        Action::Move(Motion::DocumentEnd),
        Action::Select(Motion::WordRight),
        Action::SelectWord,
        Action::SelectLine,
        Action::Click { x: 3, y: 4 },
        Action::Drag { x: -3, y: 40 },
        Action::Scroll { lines: -2 },
    ];
    for action in actions {
        let mut editor = opened("/tmp/a.txt", "hello");
        assert!(!action.is_edit());
        let command = editor.update(Message::Edit(action));
        assert!(matches!(command, Some(Command::Perform(actions)) if actions.len() == 1));
        assert_eq!(editor, opened("/tmp/a.txt", "hello"));
    }
    assert!(Action::Edit(Edit::Enter).is_edit());
}

#[test]
fn select_all_moves_to_the_start_and_selects_to_the_end() {
    let mut editor = opened("/tmp/a.txt", "abc\ndef");
    let command = editor.update(Message::SelectAll);
    assert_eq!(
        command,
        Some(Command::Perform(vec![
            Action::Move(Motion::DocumentStart),
            Action::Select(Motion::DocumentEnd),
        ]))
    );
    assert_eq!(editor, opened("/tmp/a.txt", "abc\ndef"));
}

#[test]
fn a_failed_save_keeps_the_document_unsaved() {
    let mut editor = opened("/tmp/a.txt", "hello");
    editor.update(Message::Edit(Action::Edit(Edit::Delete)));
    let outcome = save_file(Err(IoErrorKind::PermissionDenied));
    assert_eq!(outcome, Err(GFEError::IO(IoErrorKind::PermissionDenied)));
    assert_eq!(editor.update(Message::FileSaved(outcome)), None);
    assert!(!editor.is_saved());
    assert_eq!(editor.error(), Some(GFEError::IO(IoErrorKind::PermissionDenied)));
    assert_eq!(editor.path(), Some(&String::from("/tmp/a.txt")));

    assert_eq!(editor.update(Message::FileSaved(save_file(Ok(())))), None);
    assert!(editor.is_saved());
    assert_eq!(editor.error(), None);
}

#[test]
fn a_failed_save_does_not_unsave_a_saved_document() {
    let mut editor = opened("/tmp/a.txt", "hello");
    editor.update(Message::FileSaved(Err(GFEError::IO(IoErrorKind::AlreadyExists))));
    assert!(editor.is_saved());
    assert_eq!(editor.error(), Some(GFEError::IO(IoErrorKind::AlreadyExists)));
}

#[test]
fn an_opened_file_replaces_path_and_error() {
    let mut editor = opened("/tmp/a.txt", "hello");
    editor.update(Message::FileOpened(Err(GFEError::IO(IoErrorKind::InvalidData))));
    assert_eq!(editor.error(), Some(GFEError::IO(IoErrorKind::InvalidData)));
    editor.update(Message::ToggleModal(true));
    let command =
        editor.update(Message::FileOpened(Ok((String::from("/tmp/b.txt"), String::from("b")))));
    assert_eq!(command, Some(Command::SetText(String::from("b"))));
    assert_eq!(editor.error(), None);
    assert_eq!(editor.path(), Some(&String::from("/tmp/b.txt")));
    assert!(editor.is_saved());
    assert!(editor.shows_control_pallet());
}

#[test]
fn the_control_palette_is_shown_and_hidden_as_told() {
    let mut editor = started();
    assert_eq!(editor.update(Message::ToggleModal(true)), None);
    assert!(editor.shows_control_pallet());
    assert_eq!(editor.update(Message::ToggleModal(true)), None);
    assert!(editor.shows_control_pallet());
    assert_eq!(editor.update(Message::ToggleModal(false)), None);
    assert!(!editor.shows_control_pallet());
    assert_eq!(editor, started());
}
